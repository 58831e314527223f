//! The signature verifier: was a request signed by the key of the actor it
//! claims to come from?

use vstd::prelude::*;
use vstd::string::StringExecFns;
use crate::apub::model::{Actor, ActorView};
use crate::rows::{first_index, lemma_first_index_absent, lemma_first_index_is};
use crate::text::{
    clone_texts, is_listed, joined, lists, split_all, split_list, split_once, strs, texts,
    trim_char, trim_matches,
};

verus! {

/// One header of a request. Names are compared as they stand; callers put
/// them in lower case.
#[derive(Debug)]
pub struct Header {
    pub name: String,
    pub value: String,
}

/// The fields of a request's signature header.
#[derive(Debug)]
pub struct Signature {
    /// URI of the key that is said to have signed.
    pub key_id: String,
    /// Names of the signed headers, in signing order. `(request-target)`
    /// stands for method and path.
    pub headers: Vec<String>,
    /// The signature, base64-encoded.
    pub signature: String,
}

/// What the verifier looks at in an HTTP request.
#[derive(Debug)]
pub struct SignedRequest {
    /// Request method in lower case.
    pub method: String,
    /// Path and query.
    pub path: String,
    pub headers: Vec<Header>,
    /// The body as it was received.
    pub body: String,
    /// The signature header, if the request has one.
    pub signature: Option<Signature>,
}

/// Why a request is not accepted as signed by the actor.
#[derive(Clone, Copy, Debug, PartialEq, Eq, Structural)]
pub enum VerificationError {
    /// The request carries no signature.
    MissingSignature,
    /// The signature names a key that is not the actor's, or the actor has
    /// no usable public key.
    UnknownKey,
    /// The signature does not fit the request.
    SignatureMismatch,
}

// ----- the signature header -----

/// Name and value of one field of a signature header, written
/// `name="value"`; blanks around the field and quotes around the value
/// do not count.
pub open spec fn field_of(part: Seq<char>) -> Option<(Seq<char>, Seq<char>)> {
    let p = trim_char(part, ' ');
    let i = first_index(p, '=');
    if 0 <= i < p.len() {
        Some((p.take(i), trim_char(p.skip(i + 1), '"')))
    } else {
        None
    }
}

/// Value of the first of the fields that has this name.
pub open spec fn find_field(parts: Seq<Seq<char>>, name: Seq<char>) -> Option<Seq<char>>
    decreases parts.len(),
{
    if parts.len() == 0 {
        None
    } else {
        match field_of(parts[0]) {
            Some((key, value)) => if key == name {
                Some(value)
            } else {
                find_field(parts.skip(1), name)
            },
            None => find_field(parts.skip(1), name),
        }
    }
}

fn field<'a>(parts: &Vec<&'a str>, name: &str) -> (r: Option<&'a str>)
    ensures
        match r {
            Some(value) => find_field(strs(parts@), name@) == Some(value@),
            None => find_field(strs(parts@), name@).is_none(),
        },
{
    let wanted = name.to_owned();
    let mut i: usize = 0;
    assert(strs(parts@).skip(0) =~= strs(parts@));
    while i < parts.len()
        invariant
            i <= parts.len(),
            wanted@ == name@,
            find_field(strs(parts@), name@) == find_field(strs(parts@).skip(i as int), name@),
        decreases parts.len() - i,
    {
        proof {
            assert(strs(parts@).skip(i as int)[0] == parts@[i as int]@);
            assert(strs(parts@).skip(i as int).skip(1) =~= strs(parts@).skip(i + 1));
        }
        match split_once(trim_matches(parts[i], ' '), '=') {
            Some((key, value)) => {
                if key.to_owned() == wanted {
                    return Some(trim_matches(value, '"'));
                }
            },
            None => {},
        }
        i += 1;
    }
    None
}

/// The parts of a signature header: key, signed headers and signature.
pub ghost struct SignatureView {
    pub key_id: Seq<char>,
    pub headers: Seq<Seq<char>>,
    pub signature: Seq<char>,
}

impl View for Signature {
    type V = SignatureView;

    open spec fn view(&self) -> SignatureView {
        SignatureView {
            key_id: self.key_id@,
            headers: texts(self.headers@),
            signature: self.signature@,
        }
    }
}

/// What a signature header says: its fields are separated by commas;
/// `keyId` names the key, `headers` lists the signed headers separated by
/// blanks, `signature` holds the signature. A header that lacks one of
/// the three says nothing.
pub open spec fn spec_parse_signature(value: Seq<char>) -> Option<SignatureView> {
    let parts = split_all(value, ',');
    match (
        find_field(parts, "keyId"@),
        find_field(parts, "headers"@),
        find_field(parts, "signature"@),
    ) {
        (Some(key_id), Some(headers), Some(signature)) => Some(
            SignatureView { key_id, headers: split_all(headers, ' '), signature },
        ),
        _ => None,
    }
}

/// Reads the value of a signature header.
pub fn parse_signature(value: &str) -> (r: Option<Signature>)
    ensures
        match r {
            Some(sig) => spec_parse_signature(value@) == Some(sig@),
            None => spec_parse_signature(value@).is_none(),
        },
{
    let parts = split_list(value, ',');
    let key_id = match field(&parts, "keyId") {
        Some(key_id) => key_id,
        None => {
            return None;
        },
    };
    let names = match field(&parts, "headers") {
        Some(names) => names,
        None => {
            return None;
        },
    };
    let signature = match field(&parts, "signature") {
        Some(signature) => signature,
        None => {
            return None;
        },
    };
    let listed = split_list(names, ' ');
    let mut headers: Vec<String> = Vec::new();
    let mut i: usize = 0;
    while i < listed.len()
        invariant
            i <= listed.len(),
            texts(headers@) == strs(listed@).take(i as int),
        decreases listed.len() - i,
    {
        let ghost before = texts(headers@);
        let item: &str = listed[i];
        headers.push(item.to_owned());
        assert(texts(headers@) =~= before.push(item@));
        assert(strs(listed@)[i as int] == item@);
        assert(before.push(item@) =~= strs(listed@).take(i + 1));
        i += 1;
    }
    assert(strs(listed@).take(listed.len() as int) =~= strs(listed@));
    Some(Signature { key_id: key_id.to_owned(), headers, signature: signature.to_owned() })
}

/// What the verifier looks at in a request with the given method, path,
/// headers and body: the request's signature is what its `signature`
/// header says.
pub fn signed_request(method: String, path: String, headers: Vec<Header>, body: String) -> (r:
    SignedRequest)
    ensures
        r.method == method,
        r.path == path,
        r.headers == headers,
        r.body == body,
        match r.signature {
            Some(sig) => header_value(headers@, "signature"@).is_some() && spec_parse_signature(
                header_value(headers@, "signature"@).unwrap(),
            ) == Some(sig@),
            None => header_value(headers@, "signature"@).is_none() || spec_parse_signature(
                header_value(headers@, "signature"@).unwrap(),
            ).is_none(),
        },
{
    let signature = match find_header(&headers, &"signature".to_owned()) {
        Some(value) => parse_signature(value.as_str()),
        None => None,
    };
    SignedRequest { method, path, headers, body, signature }
}

// ----- keys -----

/// The bytes a base64 text stands for; `None` when the text is not valid
/// base64 in the standard alphabet.
pub uninterp spec fn base64_decoded(text: Seq<char>) -> Option<Seq<u8>>;

/// `base64::decode`: decodes standard-alphabet base64; an input that is
/// not valid base64 gives `None`.
#[verifier::external_body]
pub(crate) fn base64_decode(text: &str) -> (r: Option<Vec<u8>>)
    ensures
        match r {
            Some(bytes) => base64_decoded(text@) == Some(bytes@),
            None => base64_decoded(text@).is_none(),
        },
{
    match base64::decode(text) {
        Ok(bytes) => Some(bytes),
        Err(_) => None,
    }
}

/// The longest key text that is handed to OpenSSL, in characters. A text
/// of this length has fewer bytes than OpenSSL takes in one buffer.
pub const MAX_KEY_TEXT: usize = 0x1FFF_FFFF;

/// What OpenSSL says of `signature` as a SHA-256 signature of `message`
/// under the public key that `key_pem` holds. `None` when the text holds
/// no public key that can be read with an empty passphrase and used;
/// `Some(None)` when the check itself fails; otherwise whether the
/// signature is valid.
pub uninterp spec fn pem_sha256_verifies(key_pem: Seq<char>, message: Seq<char>, signature: Seq<u8>)
    -> Option<Option<bool>>;

/// `openssl::pkey::PKey::public_key_from_pem_passphrase` and
/// `openssl::sign::Verifier` with SHA-256: the key is read from its PEM
/// text, with the empty passphrase where one is asked for, and the
/// signature is checked against the message. A key that cannot be read or used
/// gives `None`, a check that OpenSSL reports as failed `Some(None)`.
/// OpenSSL panics on a text of more than `c_int::MAX` bytes.
#[verifier::external_body]
pub(crate) fn pem_sha256_verify(key_pem: &str, message: &str, signature: &Vec<u8>) -> (r: Option<
    Option<bool>,
>)
    requires
        key_pem@.len() <= MAX_KEY_TEXT,
    ensures
        r == pem_sha256_verifies(key_pem@, message@, signature@),
{
    let read = openssl::pkey::PKey::public_key_from_pem_passphrase(key_pem.as_bytes(), b"");
    let Ok(key) = read else { return None };
    let made = openssl::sign::Verifier::new(openssl::hash::MessageDigest::sha256(), &key);
    let Ok(mut verifier) = made else { return None };
    match verifier.verify_oneshot(signature.as_slice(), message.as_bytes()) {
        Ok(valid) => Some(Some(valid)),
        Err(_) => Some(None),
    }
}

/// The names of the headers, in order.
pub open spec fn header_names(headers: Seq<Header>) -> Seq<Seq<char>> {
    Seq::new(headers.len(), |i: int| headers[i].name@)
}

/// Value of the first header with this name.
pub open spec fn header_value(headers: Seq<Header>, name: Seq<char>) -> Option<Seq<char>> {
    let i = first_index(header_names(headers), name);
    if i < headers.len() {
        Some(headers[i].value@)
    } else {
        None
    }
}

/// The line that one signed header contributes to the signing string.
pub open spec fn signing_line(request: SignedRequest, name: Seq<char>) -> Option<Seq<char>> {
    if name == "(request-target)"@ {
        Some("(request-target): "@ + request.method@ + " "@ + request.path@)
    } else {
        match header_value(request.headers@, name) {
            Some(value) => Some(name + ": "@ + value),
            None => None,
        }
    }
}

/// The signing string: one line per signed header, in order, joined by
/// line feeds. `None` when a signed header is missing from the request.
pub open spec fn signing_string(request: SignedRequest, names: Seq<String>) -> Option<Seq<char>>
    decreases names.len(),
{
    if names.len() == 0 {
        Some(Seq::empty())
    } else {
        match (signing_string(request, names.drop_last()), signing_line(request, names.last()@)) {
            (Some(init), Some(line)) => Some(
                if names.len() == 1 {
                    line
                } else {
                    init + "\n"@ + line
                },
            ),
            _ => None,
        }
    }
}

/// URI of the key an actor signs with.
pub open spec fn spec_key_id(actor_uri: Seq<char>) -> Seq<char> {
    actor_uri + "#main-key"@
}

/// The SHA-256 digest of a text's bytes.
pub uninterp spec fn sha256_digest(data: Seq<char>) -> Seq<u8>;

/// `openssl::sha::sha256`: the SHA-256 digest of the text's bytes.
#[verifier::external_body]
pub(crate) fn sha256(data: &str) -> (r: Vec<u8>)
    ensures
        r@ == sha256_digest(data@),
{
    openssl::sha::sha256(data.as_bytes()).to_vec()
}

/// What the `digest` header of a request with this body says.
pub open spec fn spec_digest_header(body: Seq<char>) -> Seq<char> {
    "SHA-256="@ + base64_encoded(sha256_digest(body))
}

/// The value of the `digest` header for a body. A signature that covers
/// the header covers the body.
pub fn digest_header(body: &str) -> (r: String)
    ensures
        r@ == spec_digest_header(body@),
{
    let mut out = "SHA-256=".to_owned();
    out.append(base64_encode(&sha256(body)).as_str());
    out
}

/// Every required header is among the signed ones.
pub open spec fn covers(signed: Seq<String>, required: Seq<String>) -> bool {
    forall|i: int| 0 <= i < required.len() ==> lists(signed, (#[trigger] required[i])@)
}

/// Decides whether the signed headers cover the required ones.
pub fn check_covers(signed: &Vec<String>, required: &Vec<String>) -> (r: bool)
    ensures
        r == covers(signed@, required@),
{
    let mut i: usize = 0;
    while i < required.len()
        invariant
            i <= required.len(),
            forall|j: int| 0 <= j < i ==> lists(signed@, (#[trigger] required@[j])@),
        decreases required.len() - i,
    {
        if !is_listed(signed, &required[i]) {
            return false;
        }
        i += 1;
    }
    true
}

/// A signature that covers the `digest` header vouches for the body: the
/// header must say what the digest of the body is.
pub open spec fn digest_fits(request: SignedRequest, expected: Seq<char>) -> bool {
    request.signature.is_some() && lists(request.signature.unwrap().headers@, "digest"@)
        ==> header_value(request.headers@, "digest"@) == Some(expected)
}

/// A key text that can be handed to the key check: it is not empty and
/// no longer than `MAX_KEY_TEXT`.
pub open spec fn key_text_fits(key_pem: Seq<char>) -> bool {
    0 < key_pem.len() <= MAX_KEY_TEXT
}

/// Decides whether a key text can be handed to the key check.
pub fn check_key_text(key_pem: &str) -> (r: bool)
    ensures
        r == key_text_fits(key_pem@),
{
    let n = key_pem.unicode_len();
    0 < n && n <= MAX_KEY_TEXT
}

/// The result, given the digest of the body, what the signature decodes
/// to, and what the key check says of the signing string and the decoded
/// signature. The key check is consulted only where both exist. A key
/// that cannot be read or used is not the actor's key; a check that
/// fails, for whatever reason, is a mismatch.
pub open spec fn spec_verify_with(
    request: SignedRequest,
    actor: ActorView,
    required: Seq<String>,
    expected_digest: Seq<char>,
    decoded: Option<Seq<u8>>,
    valid: Option<Option<bool>>,
) -> Result<(), VerificationError> {
    match request.signature {
        None => Err(VerificationError::MissingSignature),
        Some(sig) => {
            if !key_text_fits(actor.public_key) || sig.key_id@ != spec_key_id(actor.uri) {
                Err(VerificationError::UnknownKey)
            } else if sig.headers@.len() == 0 || !covers(sig.headers@, required) || !digest_fits(
                request,
                expected_digest,
            ) {
                Err(VerificationError::SignatureMismatch)
            } else {
                match (signing_string(request, sig.headers@), decoded) {
                    (Some(message), Some(bytes)) => match valid {
                        Some(Some(true)) => Ok(()),
                        Some(_) => Err(VerificationError::SignatureMismatch),
                        None => Err(VerificationError::UnknownKey),
                    },
                    _ => Err(VerificationError::SignatureMismatch),
                }
            }
        },
    }
}

/// `Ok` exactly when the request carries a signature that names the
/// actor's key and covers the required headers, every signed header is in
/// the request, a signed `digest` header fits the body, and the signature
/// is valid for the signing string under the actor's public key. An
/// actor whose key text is empty or longer than `MAX_KEY_TEXT` has no key
/// that is known.
pub open spec fn spec_verify(request: SignedRequest, actor: ActorView, required: Seq<String>)
    -> Result<(), VerificationError> {
    match request.signature {
        Some(sig) => {
            let decoded = base64_decoded(sig.signature@);
            spec_verify_with(
                request,
                actor,
                required,
                spec_digest_header(request.body@),
                decoded,
                match (signing_string(request, sig.headers@), decoded) {
                    (Some(message), Some(bytes)) => pem_sha256_verifies(
                        actor.public_key,
                        message,
                        bytes,
                    ),
                    _ => None,
                },
            )
        },
        None => Err(VerificationError::MissingSignature),
    }
}

fn find_header<'a>(headers: &'a Vec<Header>, name: &String) -> (r: Option<&'a String>)
    ensures
        match r {
            Some(v) => header_value(headers@, name@) == Some(v@),
            None => header_value(headers@, name@).is_none(),
        },
{
    let mut i: usize = 0;
    while i < headers.len()
        invariant
            i <= headers.len(),
            forall|j: int| 0 <= j < i ==> header_names(headers@)[j] != name@,
        decreases headers.len() - i,
    {
        if headers[i].name == *name {
            proof {
                lemma_first_index_is(header_names(headers@), name@, i as int);
            }
            return Some(&headers[i].value);
        }
        i += 1;
    }
    proof {
        lemma_first_index_absent(header_names(headers@), name@);
    }
    None
}

/// Builds the signing string of a request for the given signed headers.
pub fn build_signing_string(request: &SignedRequest, names: &Vec<String>) -> (r: Option<String>)
    ensures
        match r {
            Some(s) => signing_string(*request, names@) == Some(s@),
            None => signing_string(*request, names@).is_none(),
        },
{
    let mut out = String::new();
    let mut i: usize = 0;
    assert(names@.take(0) =~= Seq::empty());
    while i < names.len()
        invariant
            i <= names.len(),
            signing_string(*request, names@.take(i as int)) == Some(out@),
        decreases names.len() - i,
    {
        proof {
            assert(names@.take(i + 1).drop_last() =~= names@.take(i as int));
            assert(names@.take(i + 1).last() == names@[i as int]);
        }
        if i > 0 {
            out.append("\n");
        }
        if names[i] == "(request-target)".to_owned() {
            out.append("(request-target): ");
            out.append(request.method.as_str());
            out.append(" ");
            out.append(request.path.as_str());
        } else {
            match find_header(&request.headers, &names[i]) {
                Some(value) => {
                    out.append(names[i].as_str());
                    out.append(": ");
                    out.append(value.as_str());
                },
                None => {
                    proof {
                        lemma_signing_string_prefix(*request, names@, i + 1);
                    }
                    return None;
                },
            }
        }
        assert(signing_string(*request, names@.take(i + 1)) == Some(out@)) by {
            let line = signing_line(*request, names@[i as int]@).unwrap();
            if i == 0 {
                assert(out@ =~= line);
            } else {
                let init = signing_string(*request, names@.take(i as int)).unwrap();
                assert(out@ =~= init + "\n"@ + line);
            }
        }
        i += 1;
    }
    assert(names@.take(names.len() as int) =~= names@);
    Some(out)
}

/// A signing string that cannot be built for a prefix of the signed
/// headers cannot be built for all of them.
pub proof fn lemma_signing_string_prefix(request: SignedRequest, names: Seq<String>, n: int)
    requires
        0 <= n <= names.len(),
        signing_string(request, names.take(n)).is_none(),
    ensures
        signing_string(request, names).is_none(),
    decreases names.len(),
{
    if n < names.len() {
        assert(names.drop_last().take(n) =~= names.take(n));
        lemma_signing_string_prefix(request, names.drop_last(), n);
    } else {
        assert(names.take(n) =~= names);
    }
}

/// Decides from the digest of the body, the decoded signature and the
/// outcome of the key check on the signing string.
pub fn verify_with(
    request: &SignedRequest,
    actor: &Actor,
    required: &Vec<String>,
    expected_digest: &String,
    message: Option<String>,
    decoded: Option<Vec<u8>>,
    valid: Option<Option<bool>>,
) -> (r: Result<(), VerificationError>)
    requires
        request.signature.is_some() ==> (match message {
            Some(m) => signing_string(*request, request.signature.unwrap().headers@) == Some(m@),
            None => signing_string(*request, request.signature.unwrap().headers@).is_none(),
        }),
    ensures
        r == spec_verify_with(
            *request,
            actor@,
            required@,
            expected_digest@,
            match decoded {
                Some(b) => Some(b@),
                None => None,
            },
            valid,
        ),
{
    match &request.signature {
        None => Err(VerificationError::MissingSignature),
        Some(sig) => {
            let mut key_id = actor.uri.clone();
            key_id.append("#main-key");
            if !check_key_text(actor.public_key.as_str()) || sig.key_id != key_id {
                Err(VerificationError::UnknownKey)
            } else if sig.headers.len() == 0 || !check_covers(&sig.headers, required)
                || !check_digest(request, sig, expected_digest) {
                Err(VerificationError::SignatureMismatch)
            } else {
                match (message, decoded) {
                    (Some(_), Some(_)) => match valid {
                        Some(Some(true)) => Ok(()),
                        Some(_) => Err(VerificationError::SignatureMismatch),
                        None => Err(VerificationError::UnknownKey),
                    },
                    _ => Err(VerificationError::SignatureMismatch),
                }
            }
        },
    }
}

fn check_digest(request: &SignedRequest, sig: &Signature, expected: &String) -> (r: bool)
    requires
        request.signature == Some(*sig),
    ensures
        r == digest_fits(*request, expected@),
{
    let name = "digest".to_owned();
    if is_listed(&sig.headers, &name) {
        match find_header(&request.headers, &name) {
            Some(value) => *value == *expected,
            None => false,
        }
    } else {
        true
    }
}

/// Confirms that the request was signed with the actor's public key, and
/// that the signature covers the required headers.
pub fn verify(request: &SignedRequest, actor: &Actor, required: &Vec<String>) -> (r: Result<
    (),
    VerificationError,
>)
    ensures
        r == spec_verify(*request, actor@, required@),
{
    match &request.signature {
        None => Err(VerificationError::MissingSignature),
        Some(sig) => {
            let message = build_signing_string(request, &sig.headers);
            let decoded = base64_decode(sig.signature.as_str());
            let valid = match (&message, &decoded) {
                (Some(m), Some(b)) => if check_key_text(actor.public_key.as_str()) {
                    pem_sha256_verify(actor.public_key.as_str(), m.as_str(), b)
                } else {
                    None
                },
                _ => None,
            };
            let expected = digest_header(request.body.as_str());
            verify_with(request, actor, required, &expected, message, decoded, valid)
        },
    }
}

/// The standard base64 text of the bytes.
pub uninterp spec fn base64_encoded(bytes: Seq<u8>) -> Seq<char>;

/// `base64::encode`: the bytes as base64 in the standard alphabet, with
/// padding.
#[verifier::external_body]
pub(crate) fn base64_encode(bytes: &Vec<u8>) -> (r: String)
    ensures
        r@ == base64_encoded(bytes@),
{
    base64::encode(bytes)
}

/// `openssl::pkey::PKey::private_key_from_pem_passphrase` and
/// `openssl::sign::Signer` with SHA-256: signs the message with the
/// private key that the PEM text holds, read with the empty passphrase
/// where one is asked for. `None` when the key cannot be read or OpenSSL does
/// not sign. Nothing is promised about the bytes: some key types sign
/// with fresh randomness. OpenSSL panics on a text of more than
/// `c_int::MAX` bytes.
#[verifier::external_body]
pub(crate) fn pem_sha256_sign(key_pem: &str, message: &str) -> (r: Option<Vec<u8>>)
    requires
        key_pem@.len() <= MAX_KEY_TEXT,
{
    let read = openssl::pkey::PKey::private_key_from_pem_passphrase(key_pem.as_bytes(), b"");
    let Ok(key) = read else { return None };
    let made = openssl::sign::Signer::new(openssl::hash::MessageDigest::sha256(), &key);
    let Ok(mut signer) = made else { return None };
    match signer.sign_oneshot_to_vec(message.as_bytes()) {
        Ok(bytes) => Some(bytes),
        Err(_) => None,
    }
}

/// The signature header for a request, given what the signer produced:
/// it names the actor's key and the signed headers, and carries the
/// signer's bytes in base64. Without signer output there is no header.
pub fn assemble_signature(actor_uri: &String, names: &Vec<String>, signed: Option<Vec<u8>>) -> (r:
    Option<Signature>)
    ensures
        signed.is_none() <==> r.is_none(),
        r matches Some(sig) ==> sig.key_id@ == spec_key_id(actor_uri@) && sig.headers@ == names@
            && sig.signature@ == base64_encoded(signed.unwrap()@),
{
    match signed {
        None => None,
        Some(bytes) => {
            let mut key_id = actor_uri.clone();
            key_id.append("#main-key");
            Some(
                Signature {
                    key_id,
                    headers: clone_texts(names),
                    signature: base64_encode(&bytes),
                },
            )
        },
    }
}

/// Signs a request of the sending actor: the signing string is built from
/// the named headers and signed with the actor's private key. There is no
/// signature when a named header is missing from the request or the key
/// text is longer than `MAX_KEY_TEXT`; otherwise the signer decides. A
/// signature that is returned names the actor's key and the headers it
/// was asked to sign.
pub fn sign_request(
    request: &SignedRequest,
    actor_uri: &String,
    private_key: &String,
    names: &Vec<String>,
) -> (r: Option<Signature>)
    ensures
        signing_string(*request, names@).is_none() ==> r.is_none(),
        private_key@.len() > MAX_KEY_TEXT ==> r.is_none(),
        r matches Some(sig) ==> sig.key_id@ == spec_key_id(actor_uri@) && sig.headers@ == names@,
        r matches Some(sig) ==> exists|bytes: Seq<u8>| sig.signature@ == base64_encoded(bytes),
{
    if private_key.as_str().unicode_len() > MAX_KEY_TEXT {
        return None;
    }
    match build_signing_string(request, names) {
        None => None,
        Some(message) => {
            let signed = pem_sha256_sign(private_key.as_str(), message.as_str());
            assemble_signature(actor_uri, names, signed)
        },
    }
}

/// What outgoing requests sign, in signing order: method and path, the
/// host, the date, and the digest of the body.
pub open spec fn spec_signed_headers() -> Seq<Seq<char>> {
    seq!["(request-target)"@, "host"@, "date"@, "digest"@]
}

/// The headers that outgoing requests sign. A server that requires these
/// of incoming requests accepts what this one sends.
pub fn signed_headers() -> (r: Vec<String>)
    ensures
        texts(r@) == spec_signed_headers(),
{
    let mut names: Vec<String> = Vec::new();
    names.push("(request-target)".to_owned());
    names.push("host".to_owned());
    names.push("date".to_owned());
    names.push("digest".to_owned());
    assert(texts(names@) =~= spec_signed_headers());
    names
}

/// The request by which a body is posted to an inbox: a `post` of the
/// path with the headers `host`, `date` and `digest`, the digest being
/// that of the body. It is not signed yet.
pub fn delivery_request(path: String, host: String, date: String, body: String) -> (r:
    SignedRequest)
    ensures
        r.method@ == "post"@,
        r.path == path,
        r.body == body,
        r.signature.is_none(),
        r.headers@.len() == 3,
        header_value(r.headers@, "host"@) == Some(host@),
        header_value(r.headers@, "date"@) == Some(date@),
        header_value(r.headers@, "digest"@) == Some(spec_digest_header(body@)),
{
    let digest = digest_header(body.as_str());
    let mut headers: Vec<Header> = Vec::new();
    headers.push(Header { name: "host".to_owned(), value: host });
    headers.push(Header { name: "date".to_owned(), value: date });
    headers.push(Header { name: "digest".to_owned(), value: digest });
    proof {
        reveal_strlit("host");
        reveal_strlit("date");
        reveal_strlit("digest");
        let names = header_names(headers@);
        assert(names[0] == "host"@ && names[1] == "date"@ && names[2] == "digest"@);
        assert("host"@[0] == 'h' && "date"@[0] == 'd' && "digest"@[1] == 'i' && "date"@[1] == 'a');
        lemma_first_index_is(names, "host"@, 0);
        lemma_first_index_is(names, "date"@, 1);
        lemma_first_index_is(names, "digest"@, 2);
    }
    SignedRequest { method: "post".to_owned(), path, headers, body, signature: None }
}

/// The text of a signature header: `keyId`, the algorithm, the signed
/// headers separated by blanks, and the signature, each value in quotes.
pub open spec fn spec_signature_header(sig: SignatureView) -> Seq<char> {
    "keyId=\""@ + sig.key_id + "\",algorithm=\"rsa-sha256\",headers=\""@ + joined(
        sig.headers,
        " "@,
    ) + "\",signature=\""@ + sig.signature + "\""@
}

/// Writes the value of a signature header.
pub fn write_signature(sig: &Signature) -> (r: String)
    ensures
        r@ == spec_signature_header(sig@),
{
    let mut names = String::new();
    let mut i: usize = 0;
    assert(texts(sig.headers@).take(0) =~= Seq::empty());
    assert(names@ =~= joined(texts(sig.headers@).take(0), " "@));
    while i < sig.headers.len()
        invariant
            i <= sig.headers.len(),
            names@ == joined(texts(sig.headers@).take(i as int), " "@),
        decreases sig.headers.len() - i,
    {
        let ghost before = names@;
        proof {
            assert(texts(sig.headers@).take(i + 1).drop_last() =~= texts(sig.headers@).take(
                i as int,
            ));
            assert(texts(sig.headers@).take(i + 1).last() == sig.headers@[i as int]@);
            assert(texts(sig.headers@).take(i + 1)[0] == sig.headers@[0]@);
        }
        if i > 0 {
            names.append(" ");
            names.append(sig.headers[i].as_str());
            assert(names@ =~= before + " "@ + sig.headers@[i as int]@);
        } else {
            names.append(sig.headers[i].as_str());
            assert(before =~= Seq::empty());
            assert(names@ =~= sig.headers@[i as int]@);
        }
        i += 1;
    }
    assert(texts(sig.headers@).take(sig.headers.len() as int) =~= texts(sig.headers@));
    let mut out = "keyId=\"".to_owned();
    out.append(sig.key_id.as_str());
    out.append("\",algorithm=\"rsa-sha256\",headers=\"");
    out.append(names.as_str());
    out.append("\",signature=\"");
    out.append(sig.signature.as_str());
    out.append("\"");
    out
}

} // verus!

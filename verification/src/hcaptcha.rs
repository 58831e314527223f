//! Reading the answer of the captcha service.

use vstd::prelude::*;

verus! {

/// Why the captcha service turned a token down.
#[derive(Clone, Copy, Debug, PartialEq, Eq, Structural)]
pub enum ErrorCode {
    /// The secret key is missing.
    MissingInputSecret,
    /// The secret key is invalid or malformed.
    InvalidInputSecret,
    /// The verification token is missing.
    MissingInputResponse,
    /// The verification token is invalid or malformed.
    InvalidInputResponse,
    /// The request is invalid or malformed.
    BadRequest,
    /// The token was checked before, or has another fault.
    InvalidOrAlreadySeenResponse,
    /// The site key is not registered with the secret.
    SitekeySecretMismatch,
    /// A code this library does not know.
    Unknown,
    /// The answer of the service could not be read.
    ParseError,
    /// The service could not be asked.
    RequestFailed,
}

/// The error a code of the service stands for.
pub open spec fn spec_error_code(code: Seq<char>) -> ErrorCode {
    if code == "missing-input-secret"@ {
        ErrorCode::MissingInputSecret
    } else if code == "invalid-input-secret"@ {
        ErrorCode::InvalidInputSecret
    } else if code == "missing-input-response"@ {
        ErrorCode::MissingInputResponse
    } else if code == "invalid-input-response"@ {
        ErrorCode::InvalidInputResponse
    } else if code == "bad-request"@ {
        ErrorCode::BadRequest
    } else if code == "invalid-or-already-seen-response"@ {
        ErrorCode::InvalidOrAlreadySeenResponse
    } else if code == "sitekey-secret-mismatch"@ {
        ErrorCode::SitekeySecretMismatch
    } else {
        ErrorCode::Unknown
    }
}

impl ErrorCode {
    /// The error a code of the service stands for.
    pub fn from_str(code: &str) -> (r: Self)
        ensures
            r == spec_error_code(code@),
    {
        let code = code.to_owned();
        if code == "missing-input-secret".to_owned() {
            Self::MissingInputSecret
        } else if code == "invalid-input-secret".to_owned() {
            Self::InvalidInputSecret
        } else if code == "missing-input-response".to_owned() {
            Self::MissingInputResponse
        } else if code == "invalid-input-response".to_owned() {
            Self::InvalidInputResponse
        } else if code == "bad-request".to_owned() {
            Self::BadRequest
        } else if code == "invalid-or-already-seen-response".to_owned() {
            Self::InvalidOrAlreadySeenResponse
        } else if code == "sitekey-secret-mismatch".to_owned() {
            Self::SitekeySecretMismatch
        } else {
            Self::Unknown
        }
    }
}

/// The errors of one captcha check.
#[derive(Debug)]
pub struct HCaptchaError {
    pub error_codes: Vec<ErrorCode>,
}

/// The errors that codes of the service stand for, in order.
pub open spec fn spec_error_codes(codes: Seq<String>) -> Seq<ErrorCode> {
    Seq::new(codes.len(), |i: int| spec_error_code(codes[i]@))
}

impl HCaptchaError {
    /// The errors that the codes of the service stand for, in order.
    pub fn from_strings(codes: Vec<String>) -> (r: Self)
        ensures
            r.error_codes@ == spec_error_codes(codes@),
    {
        let mut ret = HCaptchaError { error_codes: Vec::new() };
        let mut i: usize = 0;
        while i < codes.len()
            invariant
                i <= codes.len(),
                ret.error_codes@ == spec_error_codes(codes@).take(i as int),
            decreases codes.len() - i,
        {
            ret.error_codes.push(ErrorCode::from_str(codes[i].as_str()));
            assert(ret.error_codes@ =~= spec_error_codes(codes@).take(i + 1));
            i += 1;
        }
        assert(spec_error_codes(codes@).take(codes.len() as int) =~= spec_error_codes(codes@));
        ret
    }

    /// The error that consists of one code.
    pub fn err(code: ErrorCode) -> (r: Self)
        ensures
            r.error_codes@ == seq![code],
    {
        let mut error_codes = Vec::new();
        error_codes.push(code);
        assert(error_codes@ =~= seq![code]);
        HCaptchaError { error_codes }
    }
}

/// What came back when the captcha service was asked.
#[derive(Debug)]
pub enum HCaptchaReply {
    /// The service could not be asked.
    RequestFailed,
    /// The service answered, but not with what was expected.
    Unreadable,
    /// The service answered: whether the token holds, and its error codes
    /// if it sent any.
    Answer { success: bool, error_codes: Option<Vec<String>> },
}

/// Reads the reply of the captcha service: `Ok` exactly when the service
/// answered that the token holds. Otherwise the errors are the codes the
/// service sent, `Unknown` if it sent none, `ParseError` if its answer
/// could not be read, and `RequestFailed` if it could not be asked.
pub fn hcaptcha_verify(reply: HCaptchaReply) -> (r: Result<(), HCaptchaError>)
    ensures
        match reply {
            HCaptchaReply::RequestFailed => r is Err && r->Err_0.error_codes@
                == seq![ErrorCode::RequestFailed],
            HCaptchaReply::Unreadable => r is Err && r->Err_0.error_codes@
                == seq![ErrorCode::ParseError],
            HCaptchaReply::Answer { success, error_codes } => if success {
                r is Ok
            } else {
                match error_codes {
                    Some(codes) => r is Err && r->Err_0.error_codes@ == spec_error_codes(codes@),
                    None => r is Err && r->Err_0.error_codes@ == seq![ErrorCode::Unknown],
                }
            },
        },
{
    match reply {
        HCaptchaReply::RequestFailed => Err(HCaptchaError::err(ErrorCode::RequestFailed)),
        HCaptchaReply::Unreadable => Err(HCaptchaError::err(ErrorCode::ParseError)),
        HCaptchaReply::Answer { success, error_codes } => {
            if success {
                Ok(())
            } else if let Some(error_codes) = error_codes {
                Err(HCaptchaError::from_strings(error_codes))
            } else {
                Err(HCaptchaError::err(ErrorCode::Unknown))
            }
        },
    }
}

} // verus!

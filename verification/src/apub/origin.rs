//! The same-origin rule: an actor speaks with authority only for what lives
//! on its own network domain.

use vstd::prelude::*;
use crate::text::opt_view;

verus! {

/// Domain name of the absolute URL that `uri` spells; `None` when the text
/// is no absolute URL or its host is not a domain name.
pub uninterp spec fn url_domain(uri: Seq<char>) -> Option<Seq<char>>;

/// `url::Url::parse` followed by `Url::domain`: the text is parsed as an
/// absolute URL and the host is returned if it is a domain name (not an IP
/// address). Parse errors and URLs without such a host give `None`.
#[verifier::external_body]
pub(crate) fn parse_domain(uri: &str) -> (r: Option<String>)
    ensures
        match r {
            Some(d) => url_domain(uri@) == Some(d@),
            None => url_domain(uri@).is_none(),
        },
{
    match url::Url::parse(uri) {
        Ok(u) => match u.domain() {
            Some(d) => Some(d.to_string()),
            None => None,
        },
        Err(_) => None,
    }
}

/// The absolute URL that `text` spells, in its serialized form; `None`
/// when the text is no absolute URL.
pub uninterp spec fn url_serialized(text: Seq<char>) -> Option<Seq<char>>;

/// `url::Url::parse` followed by serialization: the text is parsed as an
/// absolute URL and written out again. A text that does not parse gives
/// `None`.
#[verifier::external_body]
pub(crate) fn parse_url(text: &str) -> (r: Option<String>)
    ensures
        match r {
            Some(u) => url_serialized(text@) == Some(u@),
            None => url_serialized(text@).is_none(),
        },
{
    match url::Url::parse(text) {
        Ok(u) => Some(u.to_string()),
        Err(_) => None,
    }
}

/// Both URIs name a domain, and it is the same one.
pub open spec fn same_origin(a: Seq<char>, b: Seq<char>) -> bool {
    url_domain(a).is_some() && url_domain(a) == url_domain(b)
}

/// The rule on two domains as they were read from two URIs.
pub open spec fn domains_agree(a: Option<Seq<char>>, b: Option<Seq<char>>) -> bool {
    a.is_some() && a == b
}

/// Decides the same-origin rule on two domains already read from their
/// URIs.
pub fn check_domains(a: &Option<String>, b: &Option<String>) -> (r: bool)
    ensures
        r == domains_agree(opt_view(*a), opt_view(*b)),
{
    match (a, b) {
        (Some(x), Some(y)) => *x == *y,
        _ => false,
    }
}

/// Whether the two URIs share a network domain.
pub fn check_same_origin(a: &str, b: &str) -> (r: bool)
    ensures
        r == same_origin(a@, b@),
{
    let da = parse_domain(a);
    let db = parse_domain(b);
    check_domains(&da, &db)
}

} // verus!

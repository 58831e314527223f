//! Helpers for queries: paging, search patterns, optional overwrites and
//! sort orders.

use vstd::prelude::*;
use vstd::string::StringExecFns;
use crate::apub::origin::{parse_url, url_serialized};
use crate::text::{opt_view, replace, spec_replace};
use crate::utils::{spec_matches, EMAIL_PATTERN};

verus! {

/// Number of rows fetched when a query names no limit.
pub const FETCH_LIMIT_DEFAULT: i64 = 10;

/// Largest number of rows a bounded query may ask for.
pub const FETCH_LIMIT_MAX: i64 = 50;

/// Largest number of entries of a site map.
pub const SITEMAP_LIMIT: i64 = 50000;

/// Age in days up to which posts appear in a site map.
pub const SITEMAP_DAYS: i64 = 31;

/// What stands in for content that was deleted for good.
pub const DELETED_REPLACEMENT_TEXT: &'static str = "*Permanently Deleted*";

/// The search pattern for a query text: `%` and `_` are escaped, blanks
/// match anything, and the pattern may match anywhere.
pub open spec fn spec_fuzzy_search(q: Seq<char>) -> Seq<char> {
    "%"@ + spec_replace(
        spec_replace(spec_replace(q, "%"@, "\\%"@), "_"@, "\\_"@),
        " "@,
        "%"@,
    ) + "%"@
}

/// The search pattern for a query text.
pub fn fuzzy_search(q: &str) -> (r: String)
    ensures
        r@ == spec_fuzzy_search(q@),
{
    let escaped = replace(q, "%", "\\%");
    let escaped = replace(escaped.as_str(), "_", "\\_");
    let replaced = replace(escaped.as_str(), " ", "%");
    let mut out = "%".to_owned();
    out.append(replaced.as_str());
    out.append("%");
    out
}

/// Why a query is not paged as asked.
#[derive(Clone, Copy, Debug, PartialEq, Eq, Structural)]
pub enum PagingError {
    /// The page number is below 1.
    PageTooSmall,
    /// The limit is below 1 or above `FETCH_LIMIT_MAX`.
    LimitOutOfRange,
}

/// The page asked for; the first where none is named.
pub open spec fn spec_page(page: Option<i64>) -> int {
    match page {
        Some(page) => page as int,
        None => 1,
    }
}

/// The limit asked for; `FETCH_LIMIT_DEFAULT` where none is named.
pub open spec fn spec_limit(limit: Option<i64>) -> int {
    match limit {
        Some(limit) => limit as int,
        None => FETCH_LIMIT_DEFAULT as int,
    }
}

/// Limit and offset of a bounded query. Pages count from 1. A query that
/// names no page gets the first, one that names no limit gets
/// `FETCH_LIMIT_DEFAULT` rows.
pub fn limit_and_offset(page: Option<i64>, limit: Option<i64>) -> (r: Result<
    (i64, i64),
    PagingError,
>)
    requires
        spec_page(page) >= 1 && 1 <= spec_limit(limit) <= FETCH_LIMIT_MAX ==> spec_limit(limit) * (
        spec_page(page) - 1) <= i64::MAX,
    ensures
        spec_page(page) < 1 ==> r == Err::<(i64, i64), PagingError>(PagingError::PageTooSmall),
        spec_page(page) >= 1 && !(1 <= spec_limit(limit) <= FETCH_LIMIT_MAX) ==> r == Err::<
            (i64, i64),
            PagingError,
        >(PagingError::LimitOutOfRange),
        spec_page(page) >= 1 && 1 <= spec_limit(limit) <= FETCH_LIMIT_MAX ==> r == Ok::<
            (i64, i64),
            PagingError,
        >((spec_limit(limit) as i64, (spec_limit(limit) * (spec_page(page) - 1)) as i64)),
{
    let page: i64 = match page {
        Some(page) => {
            if page < 1 {
                return Err(PagingError::PageTooSmall);
            } else {
                page
            }
        },
        None => 1,
    };
    let limit: i64 = match limit {
        Some(limit) => {
            if limit < 1 || limit > FETCH_LIMIT_MAX {
                return Err(PagingError::LimitOutOfRange);
            } else {
                limit
            }
        },
        None => FETCH_LIMIT_DEFAULT,
    };
    assert(0 <= limit * (page - 1)) by (nonlinear_arith)
        requires
            limit >= 1,
            page >= 1,
    ;
    let offset: i64 = limit * (page - 1);
    Ok((limit, offset))
}

/// Limit and offset of a query that may ask for any number of rows.
pub fn limit_and_offset_unlimited(page: Option<i64>, limit: Option<i64>) -> (r: (i64, i64))
    requires
        i64::MIN <= spec_page(page) - 1,
        i64::MIN <= spec_limit(limit) * (spec_page(page) - 1) <= i64::MAX,
    ensures
        r.0 == spec_limit(limit),
        r.1 == spec_limit(limit) * (spec_page(page) - 1),
{
    let limit: i64 = match limit {
        Some(limit) => limit,
        None => FETCH_LIMIT_DEFAULT,
    };
    let page: i64 = match page {
        Some(page) => page,
        None => 1,
    };
    let offset: i64 = limit * (page - 1);
    (limit, offset)
}

/// How an optional text overwrites a stored one: no text leaves it, an
/// empty text erases it, any other text replaces it.
pub fn diesel_option_overwrite(opt: Option<String>) -> (r: Option<Option<String>>)
    ensures
        match opt {
            None => r.is_none(),
            Some(text) => if text@.len() == 0 {
                r == Some(None::<String>)
            } else {
                r == Some(Some(text))
            },
        },
{
    match opt {
        Some(unwrapped) => {
            if unwrapped.as_str().unicode_len() != 0 {
                Some(Some(unwrapped))
            } else {
                Some(None)
            }
        },
        None => None,
    }
}

/// The text is no URL.
#[derive(Clone, Copy, Debug, PartialEq, Eq, Structural)]
pub struct InvalidUrl;

/// How an optional URL text overwrites a stored URL: no text leaves it,
/// an empty text erases it, a URL replaces it. Any other text is an error.
pub fn diesel_option_overwrite_to_url(opt: &Option<String>) -> (r: Result<
    Option<Option<String>>,
    InvalidUrl,
>)
    ensures
        match *opt {
            None => r is Ok && r->Ok_0.is_none(),
            Some(text) => if text@.len() == 0 {
                r is Ok && r->Ok_0 == Some(None::<String>)
            } else {
                match url_serialized(text@) {
                    Some(url) => r is Ok && r->Ok_0 is Some && opt_view(r->Ok_0->Some_0) == Some(
                        url,
                    ),
                    None => r is Err,
                }
            },
        },
{
    match opt {
        Some(text) => {
            if text.as_str().unicode_len() == 0 {
                Ok(Some(None))
            } else {
                match parse_url(text.as_str()) {
                    Some(url) => Ok(Some(Some(url))),
                    None => Err(InvalidUrl),
                }
            }
        },
        None => Ok(None),
    }
}

/// The URL an optional text stands for when something is created: none
/// for no text and for an empty text, the URL for a URL. Any other text
/// is an error.
pub fn diesel_option_overwrite_to_url_create(opt: &Option<String>) -> (r: Result<
    Option<String>,
    InvalidUrl,
>)
    ensures
        match *opt {
            None => r is Ok && r->Ok_0.is_none(),
            Some(text) => if text@.len() == 0 {
                r is Ok && r->Ok_0.is_none()
            } else {
                match url_serialized(text@) {
                    Some(url) => r is Ok && opt_view(r->Ok_0) == Some(url),
                    None => r is Err,
                }
            },
        },
{
    match opt {
        Some(text) => {
            if text.as_str().unicode_len() == 0 {
                Ok(None)
            } else {
                match parse_url(text.as_str()) {
                    Some(url) => Ok(Some(url)),
                    None => Err(InvalidUrl),
                }
            }
        },
        None => Ok(None),
    }
}

/// Sort orders of posts.
#[derive(Clone, Copy, Debug, PartialEq, Eq, Structural)]
pub enum SortType {
    Active,
    Hot,
    New,
    Old,
    TopDay,
    TopWeek,
    TopMonth,
    TopYear,
    TopAll,
    MostComments,
    NewComments,
    TopHour,
    TopSixHour,
    TopTwelveHour,
    TopThreeMonths,
    TopSixMonths,
    TopNineMonths,
    Controversial,
    Scaled,
}

/// Sort orders of comments.
#[derive(Clone, Copy, Debug, PartialEq, Eq, Structural)]
pub enum CommentSortType {
    Hot,
    Top,
    New,
    Old,
    Controversial,
}

/// The comment order that goes with a post order.
pub open spec fn spec_comment_sort(sort: SortType) -> CommentSortType {
    match sort {
        SortType::Active | SortType::Hot | SortType::Scaled => CommentSortType::Hot,
        SortType::New | SortType::NewComments | SortType::MostComments => CommentSortType::New,
        SortType::Old => CommentSortType::Old,
        SortType::Controversial => CommentSortType::Controversial,
        _ => CommentSortType::Top,
    }
}

/// The comment order that goes with a post order.
pub fn post_to_comment_sort_type(sort: SortType) -> (r: CommentSortType)
    ensures
        r == spec_comment_sort(sort),
{
    match sort {
        SortType::Active | SortType::Hot | SortType::Scaled => CommentSortType::Hot,
        SortType::New | SortType::NewComments | SortType::MostComments => CommentSortType::New,
        SortType::Old => CommentSortType::Old,
        SortType::Controversial => CommentSortType::Controversial,
        SortType::TopHour
        | SortType::TopSixHour
        | SortType::TopTwelveHour
        | SortType::TopDay
        | SortType::TopAll
        | SortType::TopWeek
        | SortType::TopYear
        | SortType::TopMonth
        | SortType::TopThreeMonths
        | SortType::TopSixMonths
        | SortType::TopNineMonths => CommentSortType::Top,
    }
}

/// Whether the text has the shape of an e-mail address.
pub fn is_email_regex(test: &str) -> (r: bool)
    ensures
        r == spec_matches(EMAIL_PATTERN@, test@),
{
    crate::utils::is_email_regex(test)
}

} // verus!

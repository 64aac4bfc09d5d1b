//! HTTP status codes: which of them mean success, and how one is written out
//! with its reason phrase.

use vstd::prelude::*;
use crate::text::{decimal, decimal_text};

verus! {

/// Whether `code` is one of the success codes, 200 to 299.
pub open spec fn is_success_code(code: u16) -> bool {
    200 <= code < 300
}

/// Whether `code` is one of the success codes, 200 to 299.
pub fn is_success(code: u16) -> (success: bool)
    ensures
        success == is_success_code(code),
{
    200 <= code && code < 300
}

/// The reason phrase that the `http` crate's table of registered status
/// codes gives for `code`, or `None` where the table has no entry or `code`
/// is no status code at all.
pub uninterp spec fn reason_phrase(code: u16) -> Option<Seq<char>>;

/// `reqwest::StatusCode::from_u16` followed by
/// `reqwest::StatusCode::canonical_reason`: the phrase is looked up by the
/// number alone.
#[verifier::external_body]
fn canonical_reason(code: u16) -> (reason: Option<&'static str>)
    ensures
        match reason {
            Some(phrase) => reason_phrase(code) == Some(phrase@),
            None => reason_phrase(code) is None,
        },
{
    match reqwest::StatusCode::from_u16(code) {
        Ok(status) => status.canonical_reason(),
        Err(_) => None,
    }
}

/// A status as it is shown: the number, a space, and the reason phrase, or
/// `<unknown status code>` in its place.
pub open spec fn status_text(code: u16) -> Seq<char> {
    decimal(code as nat) + " "@ + match reason_phrase(code) {
        Some(phrase) => phrase,
        None => "<unknown status code>"@,
    }
}

/// Writes a status out for a reader.
pub fn status_line(code: u16) -> (line: String)
    ensures
        line@ == status_text(code),
{
    let mut line = decimal_text(code as u64);
    line.append(" ");
    match canonical_reason(code) {
        Some(phrase) => line.append(phrase),
        None => line.append("<unknown status code>"),
    }
    line
}

} // verus!

//! HTTP status codes, read through reqwest's `StatusCode`.

use vstd::prelude::*;
use crate::text::decimal;

verus! {

/// The reason phrase that the http crate gives `code`: its canonical reason
/// where the crate's table holds one, else `<unknown status code>`.
pub uninterp spec fn reason_phrase(code: u16) -> Seq<char>;

/// The text that reqwest's `StatusCode` displays for `code`: the number, a
/// space and the reason phrase.
pub open spec fn status_text(code: u16) -> Seq<char> {
    decimal(code as nat) + " "@ + reason_phrase(code)
}

/// Calls `reqwest::StatusCode::from_u16` and then `StatusCode::is_success`,
/// which the http crate's source defines as `(200..300).contains(code)`.
/// `from_u16` accepts exactly the codes from 100 to 999.
#[verifier::external_body]
pub(crate) fn status_is_success(code: u16) -> (r: bool)
    requires
        100 <= code <= 999,
    ensures
        r == (200 <= code < 300),
{
    match reqwest::StatusCode::from_u16(code) {
        Ok(status) => status.is_success(),
        Err(_) => false,
    }
}

/// Calls `reqwest::StatusCode::from_u16` and then
/// `StatusCode::is_redirection`, which the http crate's source defines as
/// `(300..400).contains(code)`.
#[verifier::external_body]
pub(crate) fn status_is_redirection(code: u16) -> (r: bool)
    requires
        100 <= code <= 999,
    ensures
        r == (300 <= code < 400),
{
    match reqwest::StatusCode::from_u16(code) {
        Ok(status) => status.is_redirection(),
        Err(_) => false,
    }
}

/// Calls `reqwest::StatusCode::from_u16` and renders the code with its
/// `Display` impl, which the http crate's source writes as the number, a
/// space and `canonical_reason().unwrap_or("<unknown status code>")`; the
/// contract names that phrase `reason_phrase(code)` and says nothing more of
/// it.
#[verifier::external_body]
pub(crate) fn status_display(code: u16) -> (r: String)
    requires
        100 <= code <= 999,
    ensures
        r@ == decimal(code as nat) + " "@ + reason_phrase(code),
{
    match reqwest::StatusCode::from_u16(code) {
        Ok(status) => status.to_string(),
        Err(_) => String::new(),
    }
}

} // verus!

//! HTTP status codes as the transcription and model services answer them:
//! whether a code means success, and how a code is shown in messages.
use vstd::prelude::*;
use crate::text::{decimal, decimal_text};

verus! {

/// The standard reason phrase of an HTTP status code, as the `http` crate's
/// `StatusCode::canonical_reason` gives it, when it has one.
pub uninterp spec fn reason_phrase(code: u16) -> Option<Seq<char>>;

/// Calls `http::StatusCode::from_u16(code)` and then
/// `StatusCode::canonical_reason`. The contract claims that the phrase is the
/// one `reason_phrase` names for `code`, and that codes outside 100..=999
/// (which `from_u16` refuses) have none; which phrase a code has is left
/// unsaid.
#[verifier::external_body]
pub(crate) fn canonical_reason(code: u16) -> (phrase: Option<String>)
    ensures
        match phrase {
            Some(p) => reason_phrase(code) == Some(p@),
            None => reason_phrase(code) is None,
        },
        !(100 <= code <= 999) ==> phrase is None,
{
    match http::StatusCode::from_u16(code) {
        Ok(status) => match status.canonical_reason() {
            Some(reason) => Some(reason.to_string()),
            None => None,
        },
        Err(_) => None,
    }
}

/// The code is in the success range 200..=299 (as `StatusCode::is_success`).
pub fn is_success_status(code: u16) -> (success: bool)
    ensures
        success == (200 <= code < 300),
{
    200 <= code && code < 300
}

/// How a status code is shown: the number, a space, and its reason phrase or
/// `<unknown status code>` (as `StatusCode`'s `Display`).
pub open spec fn status_text(code: u16) -> Seq<char> {
    status_line_text(code, reason_phrase(code))
}

/// The number, a space, and the given reason phrase or
/// `<unknown status code>`.
pub open spec fn status_line_text(code: u16, reason: Option<Seq<char>>) -> Seq<char> {
    decimal(code as nat) + " "@ + match reason {
        Some(p) => p,
        None => "<unknown status code>"@,
    }
}

/// How a status code with the given reason phrase is shown.
pub fn status_line(code: u16, reason: Option<String>) -> (shown: String)
    ensures
        shown@ == status_line_text(
            code,
            match reason {
                Some(p) => Some(p@),
                None => None,
            },
        ),
{
    let mut shown = decimal_text(code as u64);
    shown.append(" ");
    match reason {
        Some(p) => shown.append(p.as_str()),
        None => shown.append("<unknown status code>"),
    }
    shown
}

pub fn status_display(code: u16) -> (shown: String)
    ensures
        shown@ == status_text(code),
{
    status_line(code, canonical_reason(code))
}

} // verus!

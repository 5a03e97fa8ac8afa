use vstd::prelude::*;
use crate::outcome::ProbeOutcome;
use crate::text::{chars_of, contains_chars, is_infix};

verus! {

/// What a response's status line alone says of the endpoint.
#[derive(Clone, Copy, Debug, PartialEq, Eq, Structural)]
pub enum StatusClass {
    /// A success: the page has to be read before anything is known.
    Success,
    /// Access to the enrollment path was refused: 401 or 403.
    Denied,
    /// Anything else.
    Other,
}

/// Whether `reqwest::StatusCode` files a status code under "success".
///
/// Trusted: `StatusCode::from_u16` accepts exactly the codes 100 to 999, and
/// `StatusCode::is_success` holds exactly of 200 to 299. `None` stands for a
/// code that `from_u16` rejects.
#[verifier::external_body]
fn success_class(code: u16) -> (r: Option<bool>)
    ensures
        r == (if 100 <= code <= 999 {
            Some(200 <= code <= 299)
        } else {
            None::<bool>
        }),
{
    match reqwest::StatusCode::from_u16(code) {
        Ok(status) => Some(status.is_success()),
        Err(_) => None,
    }
}

/// The class of a status code: 401 and 403 are refusals, 200 to 299 are
/// successes, every other number is of no interest.
pub open spec fn status_class(code: u16) -> StatusClass {
    if code == 401 || code == 403 {
        StatusClass::Denied
    } else if 200 <= code <= 299 {
        StatusClass::Success
    } else {
        StatusClass::Other
    }
}

/// A page carries a signature where one of the three known texts stands in it.
pub open spec fn has_signature(body: Seq<char>) -> bool {
    ||| is_infix("Certificate Services"@, body)
    ||| is_infix("certsrv"@, body)
    ||| is_infix("Microsoft Active Directory Certificate Services"@, body)
}

/// What a complete response says of the endpoint. The page counts only
/// under a success status.
pub open spec fn response_outcome(code: u16, body: Seq<char>) -> ProbeOutcome {
    match status_class(code) {
        StatusClass::Denied => ProbeOutcome::Potential,
        StatusClass::Success => if has_signature(body) {
            ProbeOutcome::Confirmed
        } else {
            ProbeOutcome::Absent
        },
        StatusClass::Other => ProbeOutcome::Absent,
    }
}

/// Classifies a status code.
pub fn classify_status(code: u16) -> (class: StatusClass)
    ensures
        class == status_class(code),
{
    if code == 401 || code == 403 {
        StatusClass::Denied
    } else {
        match success_class(code) {
            Some(true) => StatusClass::Success,
            _ => StatusClass::Other,
        }
    }
}

/// Whether a page carries one of the known signatures.
pub fn body_has_signature(body: &str) -> (b: bool)
    ensures
        b == has_signature(body@),
{
    let page = chars_of(body);
    let services = chars_of("Certificate Services");
    if contains_chars(&page, &services) {
        return true;
    }
    let path = chars_of("certsrv");
    if contains_chars(&page, &path) {
        return true;
    }
    let full = chars_of("Microsoft Active Directory Certificate Services");
    contains_chars(&page, &full)
}

/// Classifies a response whose page has been read.
pub fn classify_response(code: u16, body: &str) -> (outcome: ProbeOutcome)
    ensures
        outcome == response_outcome(code, body@),
{
    match classify_status(code) {
        StatusClass::Denied => ProbeOutcome::Potential,
        StatusClass::Success => if body_has_signature(body) {
            ProbeOutcome::Confirmed
        } else {
            ProbeOutcome::Absent
        },
        StatusClass::Other => ProbeOutcome::Absent,
    }
}

} // verus!

use vstd::prelude::*;

use crate::text::{decimal, int_decimal};

verus! {

/// What the backend answered a request with, when it did not succeed.
#[derive(Debug, Clone, Copy, PartialEq, Eq, Structural)]
pub enum BackendError {
    /// The request body did not match what the endpoint expects (400).
    Incomplete,
    /// The object was deleted (the backend answered "no content").
    Deleted,
    /// The session token is no longer valid.
    TokenInvalid,
    /// The account may not touch the object.
    NoAccess,
}

/// A status that the client does not know how to handle; the client stops on it.
#[derive(Debug, Clone, Copy, PartialEq, Eq, Structural)]
pub enum StatusFault {
    /// The backend failed internally (500).
    ServerError,
    /// Any other status that is neither a success nor a known error.
    Unexpected,
}

/// How the client goes on after a response status.
#[derive(Debug, Clone, Copy, PartialEq, Eq, Structural)]
pub enum StatusOutcome {
    /// The body of the response holds the answer.
    Accepted,
    /// The request failed in a way the user is told about.
    Rejected(BackendError),
    /// The client stops with the fault's message.
    Fault(StatusFault),
}

pub open spec fn is_success_status(status: u16) -> bool {
    200 <= status <= 299
}

/// The statuses that map to a [`BackendError`].
pub open spec fn is_known_error_status(status: u16) -> bool {
    status == 400 || status == 401 || status == 204 || status == 403
}

pub open spec fn backend_error_of(status: u16) -> BackendError {
    if status == 400 {
        BackendError::Incomplete
    } else if status == 401 {
        BackendError::TokenInvalid
    } else if status == 204 {
        BackendError::Deleted
    } else {
        BackendError::NoAccess
    }
}

pub open spec fn fault_of(status: u16) -> StatusFault {
    if status == 500 {
        StatusFault::ServerError
    } else {
        StatusFault::Unexpected
    }
}

/// Whether a status is accepted: a success, and, where `no_content_fails`,
/// not "no content" (204).
pub open spec fn is_accepted(status: u16, no_content_fails: bool) -> bool {
    is_success_status(status) && !(no_content_fails && status == 204)
}

pub open spec fn outcome_of(status: u16, no_content_fails: bool) -> StatusOutcome {
    if is_accepted(status, no_content_fails) {
        StatusOutcome::Accepted
    } else if is_known_error_status(status) {
        StatusOutcome::Rejected(backend_error_of(status))
    } else {
        StatusOutcome::Fault(fault_of(status))
    }
}

/// Whether a status is in the success class (200 to 299), as HTTP defines it.
pub fn is_success(status: u16) -> (r: bool)
    ensures
        r == is_success_status(status),
{
    200 <= status && status <= 299
}

/// Maps an error status to the error the user is shown.
/// Bad request (400) means a request body the endpoint no longer takes,
/// unauthorized (401) an expired session, no content (204) a deleted object,
/// forbidden (403) missing access.
pub fn error_converter(status: u16) -> (e: BackendError)
    requires
        is_known_error_status(status),
    ensures
        e == backend_error_of(status),
{
    if status == 400 {
        BackendError::Incomplete
    } else if status == 401 {
        BackendError::TokenInvalid
    } else if status == 204 {
        BackendError::Deleted
    } else {
        BackendError::NoAccess
    }
}

/// Classifies a status that is not accepted and not a known error.
pub fn status_fault(status: u16) -> (f: StatusFault)
    ensures
        f == fault_of(status),
{
    if status == 500 {
        StatusFault::ServerError
    } else {
        StatusFault::Unexpected
    }
}

/// The message the client stops with on a fault.
pub fn fault_message(fault: StatusFault) -> (m: &'static str)
    ensures
        fault == StatusFault::ServerError ==> m@ == "haha jakobs fehler lol"@,
        fault == StatusFault::Unexpected ==> m@ == "server returned an unexpected status"@,
{
    match fault {
        StatusFault::ServerError => "haha jakobs fehler lol",
        StatusFault::Unexpected => "server returned an unexpected status",
    }
}

/// Decides how a request goes on from the status of its response.
/// `no_content_fails` is set for the requests that read or change a single
/// board or entry, where "no content" means the object is gone.
pub fn classify_status(status: u16, no_content_fails: bool) -> (o: StatusOutcome)
    ensures
        o == outcome_of(status, no_content_fails),
{
    if is_success(status) && !(no_content_fails && status == 204) {
        StatusOutcome::Accepted
    } else if status == 400 || status == 401 || status == 204 || status == 403 {
        StatusOutcome::Rejected(error_converter(status))
    } else {
        StatusOutcome::Fault(status_fault(status))
    }
}

/// The popup (title, message) that tells the user about a backend error.
pub fn error_popup(error: BackendError) -> (r: (&'static str, &'static str))
    ensures
        error == BackendError::Incomplete ==> r.0@ == "BAD_REQUEST"@ && r.1@
            == "The request body format probably changed for an endpoint, so if you see this, open an issue"@,
        error == BackendError::TokenInvalid ==> r.0@ == "Session Expired"@ && r.1@
            == "Your session expired, you need to re-login"@,
        error == BackendError::Deleted ==> r.0@ == "Entry doesn't exist"@ && r.1@
            == "The entry was probably delete right when you opened it, you should try reloading"@,
        error == BackendError::NoAccess ==> r.0@ == "FORBIDDEN"@ && r.1@
            == "A request returned a 403: FORBIDDEN, this shouldn't ever happen, so if you see this, open an issue"@,
{
    match error {
        BackendError::Incomplete => (
            "BAD_REQUEST",
            "The request body format probably changed for an endpoint, so if you see this, open an issue",
        ),
        BackendError::TokenInvalid => ("Session Expired", "Your session expired, you need to re-login"),
        BackendError::Deleted => (
            "Entry doesn't exist",
            "The entry was probably delete right when you opened it, you should try reloading",
        ),
        BackendError::NoAccess => (
            "FORBIDDEN",
            "A request returned a 403: FORBIDDEN, this shouldn't ever happen, so if you see this, open an issue",
        ),
    }
}

/// The popup (title, message) shown when the backend refuses a login with `status`.
pub fn login_failure_popup(status: u16) -> (r: (&'static str, String))
    requires
        !is_success_status(status),
    ensures
        status == 403 ==> r.0@ == "Wrong credentials!"@ && r.1@
            == "Either your mail or password is wrong."@,
        status != 403 ==> r.0@ == "Request failed."@ && r.1@ == "Request failed with code: "@
            + int_decimal(status as int),
{
    if status == 403 {
        let mut m = String::new();
        m.append("Either your mail or password is wrong.");
        proof {
            reveal_strlit("Either your mail or password is wrong.");
        }
        ("Wrong credentials!", m)
    } else {
        let mut m = String::new();
        m.append("Request failed with code: ");
        let code = decimal(status as i64);
        m.append(code.as_str());
        ("Request failed.", m)
    }
}

/// A status that is accepted never reaches the error mapping, and every
/// status that is not accepted either maps to a backend error or stops the client.
pub proof fn lemma_outcome_partition(status: u16, no_content_fails: bool)
    ensures
        outcome_of(status, no_content_fails) is Accepted <==> is_accepted(status, no_content_fails),
        outcome_of(status, no_content_fails) is Rejected ==> is_known_error_status(status),
        outcome_of(status, no_content_fails) is Fault ==> !is_success_status(status)
            && !is_known_error_status(status),
{
}

/// What each response status leads to, for every request: a success is
/// accepted, except "no content" (204) where it means the object is gone;
/// 400, 401, 204 and 403 are shown to the user as an incomplete request, an
/// expired session, a deleted object and missing access, whichever request
/// they answer; 500 and every other status stop the client.
pub proof fn lemma_status_meaning(status: u16, no_content_fails: bool)
    ensures
        200 <= status <= 299 && status != 204 ==> outcome_of(status, no_content_fails)
            == StatusOutcome::Accepted,
        status == 204 && !no_content_fails ==> outcome_of(status, no_content_fails)
            == StatusOutcome::Accepted,
        status == 204 && no_content_fails ==> outcome_of(status, no_content_fails)
            == StatusOutcome::Rejected(BackendError::Deleted),
        status == 400 ==> outcome_of(status, no_content_fails) == StatusOutcome::Rejected(
            BackendError::Incomplete,
        ),
        status == 401 ==> outcome_of(status, no_content_fails) == StatusOutcome::Rejected(
            BackendError::TokenInvalid,
        ),
        status == 403 ==> outcome_of(status, no_content_fails) == StatusOutcome::Rejected(
            BackendError::NoAccess,
        ),
        status == 500 ==> outcome_of(status, no_content_fails) == StatusOutcome::Fault(
            StatusFault::ServerError,
        ),
        (status < 200 || status > 299) && status != 400 && status != 401 && status != 403 && status
            != 500 ==> outcome_of(status, no_content_fails) == StatusOutcome::Fault(
            StatusFault::Unexpected,
        ),
{
}

/// The error shown for each error status, whichever request it answers.
pub proof fn lemma_error_converter_meaning(status: u16)
    ensures
        status == 400 ==> is_known_error_status(status) && backend_error_of(status)
            == BackendError::Incomplete,
        status == 401 ==> is_known_error_status(status) && backend_error_of(status)
            == BackendError::TokenInvalid,
        status == 204 ==> is_known_error_status(status) && backend_error_of(status)
            == BackendError::Deleted,
        status == 403 ==> is_known_error_status(status) && backend_error_of(status)
            == BackendError::NoAccess,
{
}

} // verus!

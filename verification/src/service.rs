//! Decisions of the credentials portal service: which handle names a
//! request object, and which numeric code a response status carries. The
//! bus plumbing around them is the host application's part.

use vstd::prelude::*;

verus! {

/// How a portal request ends, as its Response signal reports it.
#[derive(Clone, Copy, Debug, PartialEq, Eq, Structural)]
pub enum ResponseStatus {
    Success,
    UserCancel,
    Other,
}

/// The numeric code of a response status: 0 success, 1 user cancellation,
/// 2 anything else.
pub open spec fn spec_response_status_code(status: ResponseStatus) -> u32 {
    match status {
        ResponseStatus::Success => 0,
        ResponseStatus::UserCancel => 1,
        ResponseStatus::Other => 2,
    }
}

/// The numeric code of a response status.
pub fn response_status_code(status: ResponseStatus) -> (r: u32)
    ensures
        r == spec_response_status_code(status),
{
    match status {
        ResponseStatus::Success => 0,
        ResponseStatus::UserCancel => 1,
        ResponseStatus::Other => 2,
    }
}

/// The handle that names a request object: the caller's `handle_token`
/// when it supplied a usable one, else the random handle the service
/// drew.
pub fn choose_request_handle(handle_token: Option<String>, random_handle: String) -> (r: String)
    ensures
        handle_token matches Some(t) ==> r == t,
        handle_token is None ==> r == random_handle,
{
    match handle_token {
        Some(t) => t,
        None => random_handle,
    }
}

} // verus!

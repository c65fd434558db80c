//! Checking a response's status before its body is read.

use vstd::prelude::*;

use crate::outside::{is_failure_code, status_code_of, status_error};
use crate::sealed::Sealed;

verus! {

/// What a status check finds.
#[derive(Debug)]
pub enum StatusCheck<R> {
    /// The status is not a failure: the response, untouched.
    Passed(R),
    /// The status is a failure: the response, whose body is still unread, and
    /// the error for its status.
    Failed(R, reqwest::Error),
}

/// Whether `r` is what checking the status of `resp` finds: `resp` itself,
/// with the status error exactly when the status is a failure.
pub open spec fn checks(resp: reqwest::Response, r: StatusCheck<reqwest::Response>) -> bool {
    match r {
        StatusCheck::Passed(kept) => kept == resp && !is_failure_code(status_code_of(resp)),
        StatusCheck::Failed(kept, _) => kept == resp && is_failure_code(status_code_of(resp)),
    }
}

/// A response whose status is in the success range, 200 to 399, passes the
/// check unchanged, its body unread.
pub proof fn success_status_passes(resp: reqwest::Response, r: StatusCheck<reqwest::Response>)
    requires
        200 <= status_code_of(resp) < 400,
        checks(resp, r),
    ensures
        r == StatusCheck::Passed(resp),
{
}

/// A response with a client or server error status, 400 to 599, fails the
/// check, and comes back with its body still to be read.
pub proof fn error_status_fails(resp: reqwest::Response, r: StatusCheck<reqwest::Response>)
    requires
        400 <= status_code_of(resp) < 600,
        checks(resp, r),
    ensures
        r matches StatusCheck::Failed(kept, _) && kept == resp,
{
}

/// The status check, offered on `reqwest::Response` alone.
pub trait ResponseStatus: Sealed + Sized {
    /// Whether the client classifies the status of `self` as a failure.
    spec fn status_fails(&self) -> bool;

    /// Checks the status: the response comes back either way, with the status
    /// error when the status is a failure, and its body is not read.
    fn check_status(self) -> (r: StatusCheck<Self>)
        ensures
            r is Passed <==> !self.status_fails(),
            r matches StatusCheck::Passed(resp) ==> resp == self,
            r matches StatusCheck::Failed(resp, _) ==> resp == self,
    ;
}

impl ResponseStatus for reqwest::Response {
    open spec fn status_fails(&self) -> bool {
        is_failure_code(status_code_of(*self))
    }

    fn check_status(self) -> (r: StatusCheck<Self>) {
        match status_error(&self) {
            None => StatusCheck::Passed(self),
            Some(e) => StatusCheck::Failed(self, e),
        }
    }
}

} // verus!

use crate::form::SubmitError;
use crate::models::FormData;
use vstd::prelude::*;

verus! {

/// What came back from sending one payload.
pub enum ResponseEvent {
    /// The server answered with this HTTP status code.
    Answered(u16),
    /// No answer was received: the request or the reading of its body failed.
    NetworkFailure,
}

/// Why a submission did not succeed.
pub enum FailureReason {
    /// The selected coffee key names no entry of the catalog.
    UnknownCoffee(String),
    /// The request could not be completed.
    Network,
    /// The server answered with a status code outside the success range.
    Rejected(u16),
}

/// Where one submission stands, as the page shows it.
pub enum RequestStatus {
    Idle,
    Pending,
    Succeeded,
    Failed(FailureReason),
}

/// A status code in the range that HTTP reserves for success.
pub open spec fn is_success_code(code: u16) -> bool {
    200 <= code <= 299
}

/// The status right after the form is submitted, and the payload to send, if any: a
/// payload that could be assembled is sent and the request is pending; otherwise nothing
/// is sent and the failure is shown.
pub fn begin_submission(assembled: Result<FormData, SubmitError>) -> (r: (RequestStatus, Option<FormData>))
    ensures
        match assembled {
            Ok(d) => r.0 is Pending && r.1 == Some(d),
            Err(SubmitError::CoffeeNotFound(k)) => r.1.is_none() && (r.0 matches RequestStatus::Failed(
                FailureReason::UnknownCoffee(k2),
            ) && k2 == k),
        },
{
    match assembled {
        Ok(d) => (RequestStatus::Pending, Some(d)),
        Err(SubmitError::CoffeeNotFound(k)) => (
            RequestStatus::Failed(FailureReason::UnknownCoffee(k)),
            None,
        ),
    }
}

/// The status once the request has finished: success only for a success status code.
pub fn finish_submission(ev: ResponseEvent) -> (r: RequestStatus)
    ensures
        match ev {
            ResponseEvent::Answered(code) => if is_success_code(code) {
                r is Succeeded
            } else {
                r matches RequestStatus::Failed(FailureReason::Rejected(c)) && c == code
            },
            ResponseEvent::NetworkFailure => r matches RequestStatus::Failed(FailureReason::Network),
        },
{
    match ev {
        ResponseEvent::Answered(code) => {
            if 200 <= code && code <= 299 {
                RequestStatus::Succeeded
            } else {
                RequestStatus::Failed(FailureReason::Rejected(code))
            }
        },
        ResponseEvent::NetworkFailure => RequestStatus::Failed(FailureReason::Network),
    }
}

impl RequestStatus {
    /// Whether the page shows the success dialog.
    pub fn shows_success(&self) -> (r: bool)
        ensures
            r == (*self is Succeeded),
    {
        match self {
            RequestStatus::Succeeded => true,
            _ => false,
        }
    }
}

} // verus!

//! Response shaping: the status-and-message pair every route answers with.
//! Successes carry status 200; every failure is reported with status 500 and
//! its user-facing message.

use vstd::prelude::*;
use crate::service::ServiceError;

verus! {

/// An API response: an HTTP status code and the message payload.
#[derive(Debug)]
pub struct ApiResponse {
    pub status: u16,
    pub message: String,
}

impl ApiResponse {
    pub fn ok(message: String) -> (r: ApiResponse)
        ensures
            r.status == 200,
            r.message == message,
    {
        ApiResponse { status: 200, message }
    }

    pub fn err(message: String) -> (r: ApiResponse)
        ensures
            r.status == 500,
            r.message == message,
    {
        ApiResponse { status: 500, message }
    }

    pub fn internal_err() -> (r: ApiResponse)
        ensures
            r.status == 500,
            r.message@ == "Internal server error"@,
    {
        ApiResponse { status: 500, message: "Internal server error".to_owned() }
    }
}

impl ServiceError {
    /// The response the route layer answers with for this failure: status 500
    /// and the failure's user-facing message.
    pub fn to_response(&self) -> (r: ApiResponse)
        ensures
            r.status == 500,
            r.message@ == self.spec_message(),
    {
        ApiResponse::err(self.message())
    }
}

} // verus!

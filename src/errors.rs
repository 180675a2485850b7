//! The body of an error response.
use vstd::prelude::*;

verus! {

pub struct ErrorResponse {
    pub message: Option<String>,
    pub status_code: u16,
}

impl ErrorResponse {
    pub fn new(status_code: u16, message: Option<String>) -> (r: Self)
        ensures
            r.status_code == status_code,
            r.message == message,
    {
        ErrorResponse { message, status_code }
    }
}

} // verus!

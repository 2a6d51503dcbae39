//! The HTTP status codes that the services answer with.

use vstd::prelude::*;

verus! {

/// A status code of a response.
#[derive(Clone, Copy, Debug, PartialEq, Eq, Structural)]
pub enum StatusCode {
    Success,
    Created,
    TemporaryRedirect,
    BadRequest,
    NotFound,
    Conflict,
    InternalServerError,
    ServiceUnavailable,
}

impl StatusCode {
    /// The number of this status.
    pub open spec fn spec_code(self) -> u16 {
        match self {
            StatusCode::Success => 200,
            StatusCode::Created => 201,
            StatusCode::TemporaryRedirect => 307,
            StatusCode::BadRequest => 400,
            StatusCode::NotFound => 404,
            StatusCode::Conflict => 409,
            StatusCode::InternalServerError => 500,
            StatusCode::ServiceUnavailable => 503,
        }
    }

    /// The number of this status.
    pub fn code(self) -> (n: u16)
        ensures
            n == self.spec_code(),
    {
        match self {
            StatusCode::Success => 200,
            StatusCode::Created => 201,
            StatusCode::TemporaryRedirect => 307,
            StatusCode::BadRequest => 400,
            StatusCode::NotFound => 404,
            StatusCode::Conflict => 409,
            StatusCode::InternalServerError => 500,
            StatusCode::ServiceUnavailable => 503,
        }
    }
}

} // verus!

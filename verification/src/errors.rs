//! The failure kinds a request can end in, with their mapping to HTTP
//! status codes and human-readable messages.

use vstd::prelude::*;
use vstd::string::StringExecFns;

verus! {

/// A failure of one request. `DatabaseError` wraps the message of an
/// underlying storage failure; `NotFoundError` says the requested id is
/// absent. The remaining kinds are reserved: no handler produces them.
#[derive(Debug)]
pub enum ApiError {
    DatabaseError(String),
    NotFoundError,
    BadRequestError(String),
    InternalServerError,
    RateLimitExceeded,
}

impl ApiError {
    /// The HTTP status code the error maps to: 404 for a missing
    /// resource, 400 for a bad request, 429 for rate limiting, and 500
    /// for everything else.
    pub open spec fn status_spec(&self) -> u16 {
        match self {
            ApiError::NotFoundError => 404,
            ApiError::BadRequestError(_) => 400,
            ApiError::RateLimitExceeded => 429,
            ApiError::DatabaseError(_) => 500,
            ApiError::InternalServerError => 500,
        }
    }

    pub fn status_code(&self) -> (code: u16)
        ensures
            code == self.status_spec(),
    {
        match self {
            ApiError::NotFoundError => 404,
            ApiError::BadRequestError(_) => 400,
            ApiError::RateLimitExceeded => 429,
            ApiError::DatabaseError(_) => 500,
            ApiError::InternalServerError => 500,
        }
    }

    /// The human-readable message carried in the error response body.
    pub open spec fn message_spec(&self) -> Seq<char> {
        match self {
            ApiError::DatabaseError(detail) => "Database error: "@ + detail@,
            ApiError::NotFoundError => "Resource not found"@,
            ApiError::BadRequestError(detail) => "Bad request: "@ + detail@,
            ApiError::InternalServerError => "Internal server error"@,
            ApiError::RateLimitExceeded => "Rate limit exceeded"@,
        }
    }

    pub fn message(&self) -> (msg: String)
        ensures
            msg@ == self.message_spec(),
    {
        match self {
            ApiError::DatabaseError(detail) => {
                let mut msg = String::from_str("Database error: ");
                msg.append(detail.as_str());
                msg
            },
            ApiError::NotFoundError => String::from_str("Resource not found"),
            ApiError::BadRequestError(detail) => {
                let mut msg = String::from_str("Bad request: ");
                msg.append(detail.as_str());
                msg
            },
            ApiError::InternalServerError => String::from_str("Internal server error"),
            ApiError::RateLimitExceeded => String::from_str("Rate limit exceeded"),
        }
    }
}

} // verus!

//! The errors the library reports, with their HTTP status and message.

use vstd::prelude::*;

use crate::text::join;

verus! {

/// An error of the service, carrying a message for the caller.
pub enum ApiError {
    DatabaseError(String),
    NotFound(String),
    ValidationError(String),
    InternalError(String),
}

/// A result whose error is an `ApiError`.
pub type ApiResult<T> = Result<T, ApiError>;

impl ApiError {
    /// The HTTP status that reports this error.
    pub open spec fn status_of(self) -> u16 {
        match self {
            ApiError::NotFound(_) => 404,
            ApiError::ValidationError(_) => 400,
            ApiError::DatabaseError(_) => 500,
            ApiError::InternalError(_) => 500,
        }
    }

    /// The text that describes this error: its kind, then its message.
    pub open spec fn text_of(self) -> Seq<char> {
        match self {
            ApiError::DatabaseError(m) => "Database error: "@ + m@,
            ApiError::NotFound(m) => "Not found: "@ + m@,
            ApiError::ValidationError(m) => "Validation error: "@ + m@,
            ApiError::InternalError(m) => "Internal error: "@ + m@,
        }
    }

    /// The HTTP status that reports this error.
    pub fn status_code(&self) -> (r: u16)
        ensures
            r == self.status_of(),
    {
        match self {
            ApiError::NotFound(_) => 404,
            ApiError::ValidationError(_) => 400,
            ApiError::DatabaseError(_) => 500,
            ApiError::InternalError(_) => 500,
        }
    }

    /// The text that describes this error.
    pub fn message(&self) -> (r: String)
        ensures
            r@ == self.text_of(),
    {
        match self {
            ApiError::DatabaseError(m) => join("Database error: ", m.as_str()),
            ApiError::NotFound(m) => join("Not found: ", m.as_str()),
            ApiError::ValidationError(m) => join("Validation error: ", m.as_str()),
            ApiError::InternalError(m) => join("Internal error: ", m.as_str()),
        }
    }
}

} // verus!

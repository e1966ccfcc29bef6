//! The shape of every answer: a status, and either the result or a message.

use vstd::prelude::*;

verus! {

/// The message of a failed request.
#[derive(Debug, Clone)]
pub struct ErrorResponse {
    pub error_msg: String,
}

/// What a request is answered with.
#[derive(Debug, Clone)]
pub enum ApiResponse<T> {
    Success(T),
    Error(ErrorResponse),
}

/// The HTTP status of an answer.
#[derive(Debug, Clone, Copy, PartialEq, Eq, Structural)]
pub enum Status {
    Success,
    BadRequest,
    Unauthorized,
    NotFound,
    InternalServerError,
}

impl Status {
    /// The status as its HTTP number.
    pub open spec fn spec_code(self) -> u16 {
        match self {
            Status::Success => 200,
            Status::BadRequest => 400,
            Status::Unauthorized => 401,
            Status::NotFound => 404,
            Status::InternalServerError => 500,
        }
    }

    /// The status as its HTTP number.
    pub fn code(&self) -> (code: u16)
        ensures
            code == self.spec_code(),
    {
        match self {
            Status::Success => 200,
            Status::BadRequest => 400,
            Status::Unauthorized => 401,
            Status::NotFound => 404,
            Status::InternalServerError => 500,
        }
    }
}

/// The kinds of failure, each with the status it is answered with.
#[derive(Debug, Clone, Copy, PartialEq, Eq, Structural)]
pub enum ErrorCategory {
    /// The request is malformed or its content is refused.
    Validation,
    /// The token is missing, invalid or expired.
    Auth,
    /// What the request names does not exist.
    NotFound,
    /// The request conflicts with what is recorded.
    Conflict,
    /// Hashing, signing or the store failed.
    Internal,
    /// An order was recorded without its stock decrement.
    PartialFailure,
}

impl ErrorCategory {
    /// The status that failures of this kind are answered with.
    pub open spec fn spec_status(self) -> Status {
        match self {
            ErrorCategory::Validation => Status::BadRequest,
            ErrorCategory::Auth => Status::Unauthorized,
            ErrorCategory::NotFound => Status::NotFound,
            ErrorCategory::Conflict => Status::BadRequest,
            ErrorCategory::Internal => Status::InternalServerError,
            ErrorCategory::PartialFailure => Status::InternalServerError,
        }
    }

    /// The status that failures of this kind are answered with.
    pub fn status(&self) -> (status: Status)
        ensures
            status == self.spec_status(),
    {
        match self {
            ErrorCategory::Validation => Status::BadRequest,
            ErrorCategory::Auth => Status::Unauthorized,
            ErrorCategory::NotFound => Status::NotFound,
            ErrorCategory::Conflict => Status::BadRequest,
            ErrorCategory::Internal => Status::InternalServerError,
            ErrorCategory::PartialFailure => Status::InternalServerError,
        }
    }
}

/// Whether `response` is the failure with message `msg`.
pub open spec fn is_error<T>(response: ApiResponse<T>, msg: Seq<char>) -> bool {
    response matches ApiResponse::Error(e) && e.error_msg@ == msg
}

/// The failure with message `msg`.
pub fn generate_error<T>(msg: &str) -> (response: ApiResponse<T>)
    ensures
        is_error(response, msg@),
{
    ApiResponse::Error(ErrorResponse { error_msg: msg.to_owned() })
}

} // verus!

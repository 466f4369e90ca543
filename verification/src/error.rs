//! The three error kinds of the service and the body that reports them.

use vstd::prelude::*;

verus! {

/// Kind of a failed request.
#[derive(Debug, Clone, Copy, PartialEq, Eq, Structural)]
pub enum ApiErrorType {
    NotFound,
    InvalidRequest,
    Internal,
}

impl ApiErrorType {
    /// Numeric code carried in the error body.
    pub open spec fn spec_code(self) -> u8 {
        match self {
            ApiErrorType::NotFound => 1,
            ApiErrorType::InvalidRequest => 2,
            ApiErrorType::Internal => 3,
        }
    }

    /// HTTP status the kind is reported with.
    pub open spec fn spec_status_code(self) -> u16 {
        match self {
            ApiErrorType::NotFound => 404,
            ApiErrorType::InvalidRequest => 400,
            ApiErrorType::Internal => 500,
        }
    }

    /// Machine-readable reason carried in the error body.
    pub open spec fn spec_reason(self) -> Seq<char> {
        match self {
            ApiErrorType::NotFound => "ERR_NOT_FOUND"@,
            ApiErrorType::InvalidRequest => "ERR_INVALID_REQUEST"@,
            ApiErrorType::Internal => "ERR_INTERNAL_SERVER_ERROR"@,
        }
    }

    pub fn code(&self) -> (c: u8)
        ensures
            c == self.spec_code(),
    {
        match self {
            ApiErrorType::NotFound => 1,
            ApiErrorType::InvalidRequest => 2,
            ApiErrorType::Internal => 3,
        }
    }

    pub fn reason(&self) -> (r: &'static str)
        ensures
            r@ == self.spec_reason(),
    {
        match self {
            ApiErrorType::NotFound => "ERR_NOT_FOUND",
            ApiErrorType::InvalidRequest => "ERR_INVALID_REQUEST",
            ApiErrorType::Internal => "ERR_INTERNAL_SERVER_ERROR",
        }
    }

    pub fn status_code(&self) -> (s: u16)
        ensures
            s == self.spec_status_code(),
    {
        match self {
            ApiErrorType::NotFound => 404,
            ApiErrorType::InvalidRequest => 400,
            ApiErrorType::Internal => 500,
        }
    }
}

/// A failed request: its kind and a human-readable message.
#[derive(Debug)]
pub struct ApiError {
    pub error_type: ApiErrorType,
    pub message: String,
}

/// Body sent to the client for a failed request.
#[derive(Debug)]
pub struct ErrorResponse {
    pub code: u8,
    pub reason: &'static str,
    pub message: String,
}

pub type ApiResult<T> = Result<T, ApiError>;

impl ApiError {
    /// `self` has kind `error_type` and message `message`.
    pub open spec fn is(self, error_type: ApiErrorType, message: Seq<char>) -> bool {
        self.error_type == error_type && self.message@ == message
    }

    pub fn new(error_type: ApiErrorType, message: String) -> (e: Self)
        ensures
            e.error_type == error_type,
            e.message == message,
    {
        ApiError { error_type, message }
    }

    pub fn new_not_found() -> (e: Self)
        ensures
            e.is(ApiErrorType::NotFound, "Resource not found"@),
    {
        ApiError::new(ApiErrorType::NotFound, "Resource not found".to_string())
    }

    /// Text the error is displayed as: the reason of its kind.
    pub fn to_string(&self) -> (s: String)
        ensures
            s@ == self.error_type.spec_reason(),
    {
        self.error_type.reason().to_string()
    }

    pub fn status_code(&self) -> (s: u16)
        ensures
            s == self.error_type.spec_status_code(),
    {
        self.error_type.status_code()
    }

    /// Body reporting this error.
    pub fn error_response(&self) -> (r: ErrorResponse)
        ensures
            r.code == self.error_type.spec_code(),
            r.reason@ == self.error_type.spec_reason(),
            r.message@ == self.message@,
    {
        ErrorResponse {
            code: self.error_type.code(),
            reason: self.error_type.reason(),
            message: self.message.clone(),
        }
    }
}

} // verus!

//! Errors that the HTTP endpoints answer with: a status and a message.

use vstd::prelude::*;
use crate::common::ErrorResponse;

verus! {

/// The HTTP statuses that the endpoints answer failures with.
#[derive(Debug, Clone, Copy, PartialEq, Eq)]
pub enum ApiStatus {
    BadRequest,
    Unauthorized,
    Conflict,
    InternalServerError,
    BadGateway,
}

/// The numeric HTTP code of `status`.
pub open spec fn status_code(status: ApiStatus) -> u16 {
    match status {
        ApiStatus::BadRequest => 400,
        ApiStatus::Unauthorized => 401,
        ApiStatus::Conflict => 409,
        ApiStatus::InternalServerError => 500,
        ApiStatus::BadGateway => 502,
    }
}

impl ApiStatus {
    /// The numeric HTTP code.
    pub fn code(&self) -> (r: u16)
        ensures
            r == status_code(*self),
    {
        match self {
            ApiStatus::BadRequest => 400,
            ApiStatus::Unauthorized => 401,
            ApiStatus::Conflict => 409,
            ApiStatus::InternalServerError => 500,
            ApiStatus::BadGateway => 502,
        }
    }
}

/// A failed request: the status to answer with and the message for the body.
#[derive(Debug, Clone, PartialEq, Eq)]
pub struct ApiError {
    pub status: ApiStatus,
    pub message: String,
}

impl ApiError {
    /// A 400 answer.
    pub fn bad_request(message: String) -> (r: Self)
        ensures
            r.status == ApiStatus::BadRequest,
            r.message == message,
    {
        ApiError { status: ApiStatus::BadRequest, message }
    }

    /// A 401 answer.
    pub fn unauthorized(message: String) -> (r: Self)
        ensures
            r.status == ApiStatus::Unauthorized,
            r.message == message,
    {
        ApiError { status: ApiStatus::Unauthorized, message }
    }

    /// A 409 answer.
    pub fn conflict(message: String) -> (r: Self)
        ensures
            r.status == ApiStatus::Conflict,
            r.message == message,
    {
        ApiError { status: ApiStatus::Conflict, message }
    }

    /// A 500 answer.
    pub fn internal(message: String) -> (r: Self)
        ensures
            r.status == ApiStatus::InternalServerError,
            r.message == message,
    {
        ApiError { status: ApiStatus::InternalServerError, message }
    }

    /// A 502 answer.
    pub fn bad_gateway(message: String) -> (r: Self)
        ensures
            r.status == ApiStatus::BadGateway,
            r.message == message,
    {
        ApiError { status: ApiStatus::BadGateway, message }
    }

    /// The status code and the JSON body that the error is answered with.
    pub fn into_response(self) -> (r: (u16, ErrorResponse))
        ensures
            r.0 == status_code(self.status),
            r.1.error == self.message,
    {
        let code = self.status.code();
        (code, ErrorResponse { error: self.message })
    }
}

} // verus!

//! The upstream API's numeric error codes and their closed decoding.
use vstd::prelude::*;

verus! {

#[derive(Debug, Clone, PartialEq, Eq, Structural)]
pub enum ApiError {
    UnknownApiErrorCode(u16),
}

#[derive(Debug, Clone, PartialEq, Eq, Structural)]
pub enum ApiErrorCode {
    Accepted,
    ResourceNotFound,
    InvalidQuery,
    RateLimitExceeded,
    InternalError,
    UnexpectedContentType,
    Forbidden,
    TemporarilyUnavailable,
    Unauthorized,
    MethodNotAllowed,
    UnprocessableEntity,
}

/// The code a numeric value decodes to, when it names one.
pub open spec fn spec_error_code(value: u16) -> Option<ApiErrorCode> {
    if value == 0 {
        Some(ApiErrorCode::Accepted)
    } else if value == 1 {
        Some(ApiErrorCode::ResourceNotFound)
    } else if value == 2 {
        Some(ApiErrorCode::InvalidQuery)
    } else if value == 3 {
        Some(ApiErrorCode::RateLimitExceeded)
    } else if value == 4 {
        Some(ApiErrorCode::InternalError)
    } else if value == 5 {
        Some(ApiErrorCode::UnexpectedContentType)
    } else if value == 6 {
        Some(ApiErrorCode::Forbidden)
    } else if value == 7 {
        Some(ApiErrorCode::TemporarilyUnavailable)
    } else if value == 8 {
        Some(ApiErrorCode::Unauthorized)
    } else if value == 9 {
        Some(ApiErrorCode::MethodNotAllowed)
    } else if value == 10 {
        Some(ApiErrorCode::UnprocessableEntity)
    } else {
        None
    }
}

impl ApiErrorCode {
    /// Decodes a numeric code; a value outside the closed set is reported
    /// back unchanged in the error.
    pub fn try_from(value: u16) -> (r: Result<Self, ApiError>)
        ensures
            r is Ok <==> spec_error_code(value) is Some,
            r matches Ok(c) ==> spec_error_code(value) == Some(c),
            r matches Err(e) ==> e == ApiError::UnknownApiErrorCode(value),
    {
        match value {
            0 => Ok(ApiErrorCode::Accepted),
            1 => Ok(ApiErrorCode::ResourceNotFound),
            2 => Ok(ApiErrorCode::InvalidQuery),
            3 => Ok(ApiErrorCode::RateLimitExceeded),
            4 => Ok(ApiErrorCode::InternalError),
            5 => Ok(ApiErrorCode::UnexpectedContentType),
            6 => Ok(ApiErrorCode::Forbidden),
            7 => Ok(ApiErrorCode::TemporarilyUnavailable),
            8 => Ok(ApiErrorCode::Unauthorized),
            9 => Ok(ApiErrorCode::MethodNotAllowed),
            10 => Ok(ApiErrorCode::UnprocessableEntity),
            _ => Err(ApiError::UnknownApiErrorCode(value)),
        }
    }
}

} // verus!

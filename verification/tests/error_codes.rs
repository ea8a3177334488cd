//! The closed decoding of upstream error codes.
use poeledger::poe::errorcode::{ApiError, ApiErrorCode};

#[test]
fn test_api_error_codes() {
    assert_eq!(ApiErrorCode::Accepted, ApiErrorCode::try_from(0).unwrap());
    assert_eq!(
        ApiErrorCode::ResourceNotFound,
        ApiErrorCode::try_from(1).unwrap()
    );
    assert_eq!(
        ApiErrorCode::InvalidQuery,
        ApiErrorCode::try_from(2).unwrap()
    );
    assert_eq!(
        ApiErrorCode::RateLimitExceeded,
        ApiErrorCode::try_from(3).unwrap()
    );
    assert_eq!(
        ApiErrorCode::InternalError,
        ApiErrorCode::try_from(4).unwrap()
    );
    assert_eq!(
        ApiErrorCode::UnexpectedContentType,
        ApiErrorCode::try_from(5).unwrap()
    );
    assert_eq!(ApiErrorCode::Forbidden, ApiErrorCode::try_from(6).unwrap());
    assert_eq!(
        ApiErrorCode::TemporarilyUnavailable,
        ApiErrorCode::try_from(7).unwrap()
    );
    assert_eq!(
        ApiErrorCode::Unauthorized,
        ApiErrorCode::try_from(8).unwrap()
    );
    assert_eq!(
        ApiErrorCode::MethodNotAllowed,
        ApiErrorCode::try_from(9).unwrap()
    );
    assert_eq!(
        ApiErrorCode::UnprocessableEntity,
        ApiErrorCode::try_from(10).unwrap()
    );

    assert_eq!(true, ApiErrorCode::try_from(100).is_err());
    assert_eq!(
        ApiError::UnknownApiErrorCode(100),
        ApiErrorCode::try_from(100).unwrap_err()
    );
}

use rspc::ErrorCode;

const ALL: [ErrorCode; 42] = [
    ErrorCode::BadRequest,
    ErrorCode::Unauthorized,
    ErrorCode::PaymentRequired,
    ErrorCode::Forbidden,
    ErrorCode::NotFound,
    ErrorCode::MethodNotAllowed,
    ErrorCode::MethodNotSupported,
    ErrorCode::NotAcceptable,
    ErrorCode::ProxyAuthenticationRequired,
    ErrorCode::Timeout,
    ErrorCode::Conflict,
    ErrorCode::Gone,
    ErrorCode::LengthRequired,
    ErrorCode::PreconditionFailed,
    ErrorCode::PayloadTooLarge,
    ErrorCode::URITooLong,
    ErrorCode::UnsupportedMediaType,
    ErrorCode::RangeNotSatisfiable,
    ErrorCode::ExpectationFailed,
    ErrorCode::ImATeapot,
    ErrorCode::MisdirectedRequest,
    ErrorCode::UnprocessableEntity,
    ErrorCode::Locked,
    ErrorCode::FailedDependency,
    ErrorCode::TooEarly,
    ErrorCode::UpgradeRequired,
    ErrorCode::PreconditionRequired,
    ErrorCode::TooManyRequests,
    ErrorCode::RequestHeaderFieldsTooLarge,
    ErrorCode::UnavailableForLegalReasons,
    ErrorCode::ClientClosedRequest,
    ErrorCode::InternalServerError,
    ErrorCode::NotImplemented,
    ErrorCode::BadGateway,
    ErrorCode::ServiceUnavailable,
    ErrorCode::GatewayTimeout,
    ErrorCode::HTTPVersionNotSupported,
    ErrorCode::VariantAlsoNegotiates,
    ErrorCode::InsufficientStorage,
    ErrorCode::LoopDetected,
    ErrorCode::NotExtended,
    ErrorCode::NetworkAuthenticationRequired,
];

#[test]
fn status_codes_of_some_error_codes() {
    assert_eq!(ErrorCode::BadRequest.to_status_code(), 400);
    assert_eq!(ErrorCode::NotFound.to_status_code(), 404);
    assert_eq!(ErrorCode::ImATeapot.to_status_code(), 418);
    assert_eq!(ErrorCode::ClientClosedRequest.to_status_code(), 499);
    assert_eq!(ErrorCode::InternalServerError.to_status_code(), 500);
    assert_eq!(ErrorCode::NetworkAuthenticationRequired.to_status_code(), 511);
}

#[test]
fn deprecated_method_not_supported_shares_405() {
    assert_eq!(ErrorCode::MethodNotSupported.to_status_code(), 405);
    assert_eq!(ErrorCode::MethodNotAllowed.to_status_code(), 405);
    assert_eq!(ErrorCode::from_status_code(405), Some(ErrorCode::MethodNotAllowed));
}

#[test]
fn every_code_round_trips_through_its_status() {
    for code in ALL {
        if code == ErrorCode::MethodNotSupported {
            continue;
        }
        assert_eq!(ErrorCode::from_status_code(code.to_status_code()), Some(code));
    }
}

#[test]
fn unknown_status_codes_read_back_as_none() {
    for status in [0u16, 200, 302, 399, 419, 420, 427, 430, 432, 450, 452, 498, 509, 512, 600, u16::MAX] {
        assert_eq!(ErrorCode::from_status_code(status), None);
    }
}

#[test]
fn every_status_read_back_is_that_codes_status() {
    for status in 0..=u16::MAX {
        if let Some(code) = ErrorCode::from_status_code(status) {
            assert_eq!(code.to_status_code(), status);
        }
    }
}

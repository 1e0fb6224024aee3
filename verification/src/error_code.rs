use vstd::prelude::*;

verus! {

/// The HTTP-style status an rspc error is reported with.
#[derive(Debug, Clone, Copy, PartialEq, Eq, Structural)]
pub enum ErrorCode {
    BadRequest,
    Unauthorized,
    PaymentRequired,
    Forbidden,
    NotFound,
    MethodNotAllowed,
    /// Kept for compatibility: RFC 9110 names this condition `MethodNotAllowed`, which should be used instead.
    MethodNotSupported,
    NotAcceptable,
    ProxyAuthenticationRequired,
    Timeout,
    Conflict,
    Gone,
    LengthRequired,
    PreconditionFailed,
    PayloadTooLarge,
    URITooLong,
    UnsupportedMediaType,
    RangeNotSatisfiable,
    ExpectationFailed,
    ImATeapot,
    MisdirectedRequest,
    UnprocessableEntity,
    Locked,
    FailedDependency,
    TooEarly,
    UpgradeRequired,
    PreconditionRequired,
    TooManyRequests,
    RequestHeaderFieldsTooLarge,
    UnavailableForLegalReasons,
    ClientClosedRequest,
    InternalServerError,
    NotImplemented,
    BadGateway,
    ServiceUnavailable,
    GatewayTimeout,
    HTTPVersionNotSupported,
    VariantAlsoNegotiates,
    InsufficientStorage,
    LoopDetected,
    NotExtended,
    NetworkAuthenticationRequired,
}

impl ErrorCode {
    /// The numeric HTTP status code of this error code.
    pub open spec fn status(self) -> u16 {
        match self {
            ErrorCode::BadRequest => 400,
            ErrorCode::Unauthorized => 401,
            ErrorCode::PaymentRequired => 402,
            ErrorCode::Forbidden => 403,
            ErrorCode::NotFound => 404,
            ErrorCode::MethodNotAllowed => 405,
            ErrorCode::MethodNotSupported => 405,
            ErrorCode::NotAcceptable => 406,
            ErrorCode::ProxyAuthenticationRequired => 407,
            ErrorCode::Timeout => 408,
            ErrorCode::Conflict => 409,
            ErrorCode::Gone => 410,
            ErrorCode::LengthRequired => 411,
            ErrorCode::PreconditionFailed => 412,
            ErrorCode::PayloadTooLarge => 413,
            ErrorCode::URITooLong => 414,
            ErrorCode::UnsupportedMediaType => 415,
            ErrorCode::RangeNotSatisfiable => 416,
            ErrorCode::ExpectationFailed => 417,
            ErrorCode::ImATeapot => 418,
            ErrorCode::MisdirectedRequest => 421,
            ErrorCode::UnprocessableEntity => 422,
            ErrorCode::Locked => 423,
            ErrorCode::FailedDependency => 424,
            ErrorCode::TooEarly => 425,
            ErrorCode::UpgradeRequired => 426,
            ErrorCode::PreconditionRequired => 428,
            ErrorCode::TooManyRequests => 429,
            ErrorCode::RequestHeaderFieldsTooLarge => 431,
            ErrorCode::UnavailableForLegalReasons => 451,
            ErrorCode::ClientClosedRequest => 499,
            ErrorCode::InternalServerError => 500,
            ErrorCode::NotImplemented => 501,
            ErrorCode::BadGateway => 502,
            ErrorCode::ServiceUnavailable => 503,
            ErrorCode::GatewayTimeout => 504,
            ErrorCode::HTTPVersionNotSupported => 505,
            ErrorCode::VariantAlsoNegotiates => 506,
            ErrorCode::InsufficientStorage => 507,
            ErrorCode::LoopDetected => 508,
            ErrorCode::NotExtended => 510,
            ErrorCode::NetworkAuthenticationRequired => 511,
        }
    }

    /// Maps this error code to its HTTP status code.
    pub fn to_status_code(&self) -> (r: u16)
        ensures
            r == self.status(),
    {
        match self {
            ErrorCode::BadRequest => 400,
            ErrorCode::Unauthorized => 401,
            ErrorCode::PaymentRequired => 402,
            ErrorCode::Forbidden => 403,
            ErrorCode::NotFound => 404,
            ErrorCode::MethodNotAllowed => 405,
            ErrorCode::MethodNotSupported => 405,
            ErrorCode::NotAcceptable => 406,
            ErrorCode::ProxyAuthenticationRequired => 407,
            ErrorCode::Timeout => 408,
            ErrorCode::Conflict => 409,
            ErrorCode::Gone => 410,
            ErrorCode::LengthRequired => 411,
            ErrorCode::PreconditionFailed => 412,
            ErrorCode::PayloadTooLarge => 413,
            ErrorCode::URITooLong => 414,
            ErrorCode::UnsupportedMediaType => 415,
            ErrorCode::RangeNotSatisfiable => 416,
            ErrorCode::ExpectationFailed => 417,
            ErrorCode::ImATeapot => 418,
            ErrorCode::MisdirectedRequest => 421,
            ErrorCode::UnprocessableEntity => 422,
            ErrorCode::Locked => 423,
            ErrorCode::FailedDependency => 424,
            ErrorCode::TooEarly => 425,
            ErrorCode::UpgradeRequired => 426,
            ErrorCode::PreconditionRequired => 428,
            ErrorCode::TooManyRequests => 429,
            ErrorCode::RequestHeaderFieldsTooLarge => 431,
            ErrorCode::UnavailableForLegalReasons => 451,
            ErrorCode::ClientClosedRequest => 499,
            ErrorCode::InternalServerError => 500,
            ErrorCode::NotImplemented => 501,
            ErrorCode::BadGateway => 502,
            ErrorCode::ServiceUnavailable => 503,
            ErrorCode::GatewayTimeout => 504,
            ErrorCode::HTTPVersionNotSupported => 505,
            ErrorCode::VariantAlsoNegotiates => 506,
            ErrorCode::InsufficientStorage => 507,
            ErrorCode::LoopDetected => 508,
            ErrorCode::NotExtended => 510,
            ErrorCode::NetworkAuthenticationRequired => 511,
        }
    }

    /// Maps an HTTP status code back to the (non-deprecated) error code that reports it.
    pub fn from_status_code(status_code: u16) -> (r: Option<Self>)
        ensures
            r == code_for_status(status_code),
            match r {
                Some(c) => c.status() == status_code && c != ErrorCode::MethodNotSupported,
                None => forall|c: ErrorCode| #[trigger] c.status() != status_code,
            },
    {
        proof {
            lemma_code_for_status_characterized(status_code);
        }
        match status_code {
            400 => Some(ErrorCode::BadRequest),
            401 => Some(ErrorCode::Unauthorized),
            402 => Some(ErrorCode::PaymentRequired),
            403 => Some(ErrorCode::Forbidden),
            404 => Some(ErrorCode::NotFound),
            405 => Some(ErrorCode::MethodNotAllowed),
            406 => Some(ErrorCode::NotAcceptable),
            407 => Some(ErrorCode::ProxyAuthenticationRequired),
            408 => Some(ErrorCode::Timeout),
            409 => Some(ErrorCode::Conflict),
            410 => Some(ErrorCode::Gone),
            411 => Some(ErrorCode::LengthRequired),
            412 => Some(ErrorCode::PreconditionFailed),
            413 => Some(ErrorCode::PayloadTooLarge),
            414 => Some(ErrorCode::URITooLong),
            415 => Some(ErrorCode::UnsupportedMediaType),
            416 => Some(ErrorCode::RangeNotSatisfiable),
            417 => Some(ErrorCode::ExpectationFailed),
            418 => Some(ErrorCode::ImATeapot),
            421 => Some(ErrorCode::MisdirectedRequest),
            422 => Some(ErrorCode::UnprocessableEntity),
            423 => Some(ErrorCode::Locked),
            424 => Some(ErrorCode::FailedDependency),
            425 => Some(ErrorCode::TooEarly),
            426 => Some(ErrorCode::UpgradeRequired),
            428 => Some(ErrorCode::PreconditionRequired),
            429 => Some(ErrorCode::TooManyRequests),
            431 => Some(ErrorCode::RequestHeaderFieldsTooLarge),
            451 => Some(ErrorCode::UnavailableForLegalReasons),
            499 => Some(ErrorCode::ClientClosedRequest),
            500 => Some(ErrorCode::InternalServerError),
            501 => Some(ErrorCode::NotImplemented),
            502 => Some(ErrorCode::BadGateway),
            503 => Some(ErrorCode::ServiceUnavailable),
            504 => Some(ErrorCode::GatewayTimeout),
            505 => Some(ErrorCode::HTTPVersionNotSupported),
            506 => Some(ErrorCode::VariantAlsoNegotiates),
            507 => Some(ErrorCode::InsufficientStorage),
            508 => Some(ErrorCode::LoopDetected),
            510 => Some(ErrorCode::NotExtended),
            511 => Some(ErrorCode::NetworkAuthenticationRequired),
            _ => None,
        }
    }
}

/// The error code that a status code is read back as, if any.
pub open spec fn code_for_status(status_code: u16) -> Option<ErrorCode> {
    match status_code {
            400 => Some(ErrorCode::BadRequest),
            401 => Some(ErrorCode::Unauthorized),
            402 => Some(ErrorCode::PaymentRequired),
            403 => Some(ErrorCode::Forbidden),
            404 => Some(ErrorCode::NotFound),
            405 => Some(ErrorCode::MethodNotAllowed),
            406 => Some(ErrorCode::NotAcceptable),
            407 => Some(ErrorCode::ProxyAuthenticationRequired),
            408 => Some(ErrorCode::Timeout),
            409 => Some(ErrorCode::Conflict),
            410 => Some(ErrorCode::Gone),
            411 => Some(ErrorCode::LengthRequired),
            412 => Some(ErrorCode::PreconditionFailed),
            413 => Some(ErrorCode::PayloadTooLarge),
            414 => Some(ErrorCode::URITooLong),
            415 => Some(ErrorCode::UnsupportedMediaType),
            416 => Some(ErrorCode::RangeNotSatisfiable),
            417 => Some(ErrorCode::ExpectationFailed),
            418 => Some(ErrorCode::ImATeapot),
            421 => Some(ErrorCode::MisdirectedRequest),
            422 => Some(ErrorCode::UnprocessableEntity),
            423 => Some(ErrorCode::Locked),
            424 => Some(ErrorCode::FailedDependency),
            425 => Some(ErrorCode::TooEarly),
            426 => Some(ErrorCode::UpgradeRequired),
            428 => Some(ErrorCode::PreconditionRequired),
            429 => Some(ErrorCode::TooManyRequests),
            431 => Some(ErrorCode::RequestHeaderFieldsTooLarge),
            451 => Some(ErrorCode::UnavailableForLegalReasons),
            499 => Some(ErrorCode::ClientClosedRequest),
            500 => Some(ErrorCode::InternalServerError),
            501 => Some(ErrorCode::NotImplemented),
            502 => Some(ErrorCode::BadGateway),
            503 => Some(ErrorCode::ServiceUnavailable),
            504 => Some(ErrorCode::GatewayTimeout),
            505 => Some(ErrorCode::HTTPVersionNotSupported),
            506 => Some(ErrorCode::VariantAlsoNegotiates),
            507 => Some(ErrorCode::InsufficientStorage),
            508 => Some(ErrorCode::LoopDetected),
            510 => Some(ErrorCode::NotExtended),
            511 => Some(ErrorCode::NetworkAuthenticationRequired),
        _ => None,
    }
}

/// `code_for_status` picks the unique non-deprecated code with the given status,
/// and is `None` exactly when no code has that status.
pub proof fn lemma_code_for_status_characterized(status_code: u16)
    ensures
        match code_for_status(status_code) {
            Some(c) => c.status() == status_code && c != ErrorCode::MethodNotSupported,
            None => forall|c: ErrorCode| #[trigger] c.status() != status_code,
        },
{
    if code_for_status(status_code) is None {
        assert forall|c: ErrorCode| #[trigger] c.status() != status_code by {
            match c {
                ErrorCode::BadRequest => {},
                ErrorCode::Unauthorized => {},
                ErrorCode::PaymentRequired => {},
                ErrorCode::Forbidden => {},
                ErrorCode::NotFound => {},
                ErrorCode::MethodNotAllowed => {},
                ErrorCode::MethodNotSupported => {},
                ErrorCode::NotAcceptable => {},
                ErrorCode::ProxyAuthenticationRequired => {},
                ErrorCode::Timeout => {},
                ErrorCode::Conflict => {},
                ErrorCode::Gone => {},
                ErrorCode::LengthRequired => {},
                ErrorCode::PreconditionFailed => {},
                ErrorCode::PayloadTooLarge => {},
                ErrorCode::URITooLong => {},
                ErrorCode::UnsupportedMediaType => {},
                ErrorCode::RangeNotSatisfiable => {},
                ErrorCode::ExpectationFailed => {},
                ErrorCode::ImATeapot => {},
                ErrorCode::MisdirectedRequest => {},
                ErrorCode::UnprocessableEntity => {},
                ErrorCode::Locked => {},
                ErrorCode::FailedDependency => {},
                ErrorCode::TooEarly => {},
                ErrorCode::UpgradeRequired => {},
                ErrorCode::PreconditionRequired => {},
                ErrorCode::TooManyRequests => {},
                ErrorCode::RequestHeaderFieldsTooLarge => {},
                ErrorCode::UnavailableForLegalReasons => {},
                ErrorCode::ClientClosedRequest => {},
                ErrorCode::InternalServerError => {},
                ErrorCode::NotImplemented => {},
                ErrorCode::BadGateway => {},
                ErrorCode::ServiceUnavailable => {},
                ErrorCode::GatewayTimeout => {},
                ErrorCode::HTTPVersionNotSupported => {},
                ErrorCode::VariantAlsoNegotiates => {},
                ErrorCode::InsufficientStorage => {},
                ErrorCode::LoopDetected => {},
                ErrorCode::NotExtended => {},
                ErrorCode::NetworkAuthenticationRequired => {},
            }
        }
    }
}

/// Reading back the status of any error code other than the deprecated
/// `MethodNotSupported` gives that same error code.
pub proof fn law_status_code_round_trip(code: ErrorCode)
    requires
        code != ErrorCode::MethodNotSupported,
    ensures
        code_for_status(code.status()) == Some(code),
{
    match code {
        ErrorCode::BadRequest => {},
        ErrorCode::Unauthorized => {},
        ErrorCode::PaymentRequired => {},
        ErrorCode::Forbidden => {},
        ErrorCode::NotFound => {},
        ErrorCode::MethodNotAllowed => {},
        ErrorCode::MethodNotSupported => {},
        ErrorCode::NotAcceptable => {},
        ErrorCode::ProxyAuthenticationRequired => {},
        ErrorCode::Timeout => {},
        ErrorCode::Conflict => {},
        ErrorCode::Gone => {},
        ErrorCode::LengthRequired => {},
        ErrorCode::PreconditionFailed => {},
        ErrorCode::PayloadTooLarge => {},
        ErrorCode::URITooLong => {},
        ErrorCode::UnsupportedMediaType => {},
        ErrorCode::RangeNotSatisfiable => {},
        ErrorCode::ExpectationFailed => {},
        ErrorCode::ImATeapot => {},
        ErrorCode::MisdirectedRequest => {},
        ErrorCode::UnprocessableEntity => {},
        ErrorCode::Locked => {},
        ErrorCode::FailedDependency => {},
        ErrorCode::TooEarly => {},
        ErrorCode::UpgradeRequired => {},
        ErrorCode::PreconditionRequired => {},
        ErrorCode::TooManyRequests => {},
        ErrorCode::RequestHeaderFieldsTooLarge => {},
        ErrorCode::UnavailableForLegalReasons => {},
        ErrorCode::ClientClosedRequest => {},
        ErrorCode::InternalServerError => {},
        ErrorCode::NotImplemented => {},
        ErrorCode::BadGateway => {},
        ErrorCode::ServiceUnavailable => {},
        ErrorCode::GatewayTimeout => {},
        ErrorCode::HTTPVersionNotSupported => {},
        ErrorCode::VariantAlsoNegotiates => {},
        ErrorCode::InsufficientStorage => {},
        ErrorCode::LoopDetected => {},
        ErrorCode::NotExtended => {},
        ErrorCode::NetworkAuthenticationRequired => {},
    }
}

/// Every status code that is read back as an error code is that code's status.
pub proof fn law_status_of_read_back_code(status_code: u16)
    ensures
        code_for_status(status_code) matches Some(c) ==> c.status() == status_code,
{
    lemma_code_for_status_characterized(status_code);
}

/// The deprecated `MethodNotSupported` shares its status with `MethodNotAllowed`,
/// and that status is read back as `MethodNotAllowed`.
pub proof fn law_method_not_supported_reads_back_as_not_allowed()
    ensures
        ErrorCode::MethodNotSupported.status() == ErrorCode::MethodNotAllowed.status(),
        code_for_status(ErrorCode::MethodNotSupported.status()) == Some(ErrorCode::MethodNotAllowed),
{
}

/// Two distinct error codes other than the deprecated one never share a status.
pub proof fn law_status_codes_distinct(a: ErrorCode, b: ErrorCode)
    requires
        a != ErrorCode::MethodNotSupported,
        b != ErrorCode::MethodNotSupported,
        a != b,
    ensures
        a.status() != b.status(),
{
    law_status_code_round_trip(a);
    law_status_code_round_trip(b);
}

/// Every error code has its standard HTTP status: 4xx for the client errors, 5xx
/// for the server errors (the deprecated `MethodNotSupported` shares 405 with
/// `MethodNotAllowed`).
pub proof fn law_standard_http_statuses()
    ensures
        ErrorCode::BadRequest.status() == 400,
        ErrorCode::Unauthorized.status() == 401,
        ErrorCode::PaymentRequired.status() == 402,
        ErrorCode::Forbidden.status() == 403,
        ErrorCode::NotFound.status() == 404,
        ErrorCode::MethodNotAllowed.status() == 405,
        ErrorCode::MethodNotSupported.status() == 405,
        ErrorCode::NotAcceptable.status() == 406,
        ErrorCode::ProxyAuthenticationRequired.status() == 407,
        ErrorCode::Timeout.status() == 408,
        ErrorCode::Conflict.status() == 409,
        ErrorCode::Gone.status() == 410,
        ErrorCode::LengthRequired.status() == 411,
        ErrorCode::PreconditionFailed.status() == 412,
        ErrorCode::PayloadTooLarge.status() == 413,
        ErrorCode::URITooLong.status() == 414,
        ErrorCode::UnsupportedMediaType.status() == 415,
        ErrorCode::RangeNotSatisfiable.status() == 416,
        ErrorCode::ExpectationFailed.status() == 417,
        ErrorCode::ImATeapot.status() == 418,
        ErrorCode::MisdirectedRequest.status() == 421,
        ErrorCode::UnprocessableEntity.status() == 422,
        ErrorCode::Locked.status() == 423,
        ErrorCode::FailedDependency.status() == 424,
        ErrorCode::TooEarly.status() == 425,
        ErrorCode::UpgradeRequired.status() == 426,
        ErrorCode::PreconditionRequired.status() == 428,
        ErrorCode::TooManyRequests.status() == 429,
        ErrorCode::RequestHeaderFieldsTooLarge.status() == 431,
        ErrorCode::UnavailableForLegalReasons.status() == 451,
        ErrorCode::ClientClosedRequest.status() == 499,
        ErrorCode::InternalServerError.status() == 500,
        ErrorCode::NotImplemented.status() == 501,
        ErrorCode::BadGateway.status() == 502,
        ErrorCode::ServiceUnavailable.status() == 503,
        ErrorCode::GatewayTimeout.status() == 504,
        ErrorCode::HTTPVersionNotSupported.status() == 505,
        ErrorCode::VariantAlsoNegotiates.status() == 506,
        ErrorCode::InsufficientStorage.status() == 507,
        ErrorCode::LoopDetected.status() == 508,
        ErrorCode::NotExtended.status() == 510,
        ErrorCode::NetworkAuthenticationRequired.status() == 511,
{
}

/// A status code reads back as the error code whose standard status it is, and as
/// nothing where no error code has it: `from_status_code` undoes `to_status_code`.
pub proof fn law_status_reads_back_as_its_code(code: ErrorCode, status_code: u16)
    ensures
        code != ErrorCode::MethodNotSupported && code.status() == status_code ==> code_for_status(status_code)
            == Some(code),
        code_for_status(status_code) is None ==> code.status() != status_code,
{
    if code != ErrorCode::MethodNotSupported {
        law_status_code_round_trip(code);
    }
    law_status_of_read_back_code(status_code);
    lemma_code_for_status_characterized(status_code);
}

} // verus!

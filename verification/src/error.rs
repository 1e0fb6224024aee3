use vstd::prelude::*;
use vstd::string::StringExecFns;

use crate::error_code::ErrorCode;

verus! {

/// The abstract content of an [`Error`]: its code, its message and the
/// description of the error that caused it, if any.
pub struct ErrorView {
    pub code: ErrorCode,
    pub message: Seq<char>,
    pub cause: Option<Seq<char>>,
}

/// An error returned by a procedure, reported to the client with its code and message.
///
/// The cause is kept as the description of the underlying error; it is never sent
/// to the client.
#[derive(Debug, Clone)]
pub struct Error {
    pub(crate) code: ErrorCode,
    pub(crate) message: String,
    pub(crate) cause: Option<String>,
}

impl View for Error {
    type V = ErrorView;

    closed spec fn view(&self) -> ErrorView {
        ErrorView {
            code: self.code,
            message: self.message@,
            cause: match self.cause {
                Some(c) => Some(c@),
                None => None,
            },
        }
    }
}

impl Error {
    /// An error with the given code and message and no cause.
    pub fn new(code: ErrorCode, message: String) -> (r: Self)
        ensures
            r@ == (ErrorView { code, message: message@, cause: None }),
    {
        Error { code, message, cause: None }
    }

    /// An error with the given code and message, caused by the error described by `cause`.
    pub fn with_cause(code: ErrorCode, message: String, cause: String) -> (r: Self)
        ensures
            r@ == (ErrorView { code, message: message@, cause: Some(cause@) }),
    {
        Error { code, message, cause: Some(cause) }
    }

    /// The error code.
    pub fn code(&self) -> (r: ErrorCode)
        ensures
            r == self@.code,
    {
        self.code
    }

    /// The message sent to the client.
    pub fn message(&self) -> (r: &String)
        ensures
            r@ == self@.message,
    {
        &self.message
    }

    /// The description of the underlying cause, if any.
    pub fn cause(&self) -> (r: Option<&String>)
        ensures
            match r {
                Some(c) => self@.cause == Some(c@),
                None => self@.cause is None,
            },
    {
        match &self.cause {
            Some(c) => Some(c),
            None => None,
        }
    }

    /// Renders the error as `rspc::Error { code: <code>, message: <message> }`.
    pub fn to_display_string(&self) -> (r: String)
        ensures
            r@ == display_text(self@.code, self@.message),
    {
        render_error(self.code, &self.message)
    }

    /// The error as it is reported in a JSON-RPC response: its HTTP status and its message.
    pub fn into_json_rpc_error(self) -> (r: JsonRpcError)
        ensures
            r.code == self@.code.status() as i32,
            r.message@ == self@.message,
    {
        let code = self.code.to_status_code();
        JsonRpcError { code: code as i32, message: self.message }
    }

    /// Converts an execution error into the error reported to the client.
    pub fn from_exec_error(err: ExecError) -> (r: Self)
        ensures
            r@ == exec_error_report(err@),
    {
        match err {
            ExecError::OperationNotFound(_) => Error {
                code: ErrorCode::NotFound,
                message: String::from_str("the requested operation is not supported by this server"),
                cause: None,
            },
            ExecError::DeserializingArgErr(e) => Error {
                code: ErrorCode::BadRequest,
                message: String::from_str("error deserializing procedure arguments"),
                cause: Some(e),
            },
            ExecError::SerializingResultErr(e) => Error {
                code: ErrorCode::InternalServerError,
                message: String::from_str("error serializing procedure result"),
                cause: Some(e),
            },
            ExecError::AxumExtractorError => Error {
                code: ErrorCode::BadRequest,
                message: String::from_str("Error running Axum extractors on the HTTP request"),
                cause: None,
            },
            ExecError::InvalidJsonRpcVersion => Error {
                code: ErrorCode::BadRequest,
                message: String::from_str("invalid JSON-RPC version"),
                cause: None,
            },
            ExecError::ErrResolverError(e) => e,
            ExecError::UnsupportedMethod(_) => Error {
                code: ErrorCode::BadRequest,
                message: String::from_str("unsupported metho"),
                cause: None,
            },
            ExecError::ErrSubscriptionWithNullId => Error {
                code: ErrorCode::BadRequest,
                message: String::from_str("error creating subscription with null request id"),
                cause: None,
            },
            ExecError::ErrSubscriptionDuplicateId => Error {
                code: ErrorCode::BadRequest,
                message: String::from_str("error creating subscription with duplicate id"),
                cause: None,
            },
        }
    }
}

/// The debug name of an error code, as `{:?}` prints it.
pub open spec fn code_name(code: ErrorCode) -> Seq<char> {
    match code {
        ErrorCode::BadRequest => "BadRequest"@,
        ErrorCode::Unauthorized => "Unauthorized"@,
        ErrorCode::PaymentRequired => "PaymentRequired"@,
        ErrorCode::Forbidden => "Forbidden"@,
        ErrorCode::NotFound => "NotFound"@,
        ErrorCode::MethodNotAllowed => "MethodNotAllowed"@,
        ErrorCode::MethodNotSupported => "MethodNotSupported"@,
        ErrorCode::NotAcceptable => "NotAcceptable"@,
        ErrorCode::ProxyAuthenticationRequired => "ProxyAuthenticationRequired"@,
        ErrorCode::Timeout => "Timeout"@,
        ErrorCode::Conflict => "Conflict"@,
        ErrorCode::Gone => "Gone"@,
        ErrorCode::LengthRequired => "LengthRequired"@,
        ErrorCode::PreconditionFailed => "PreconditionFailed"@,
        ErrorCode::PayloadTooLarge => "PayloadTooLarge"@,
        ErrorCode::URITooLong => "URITooLong"@,
        ErrorCode::UnsupportedMediaType => "UnsupportedMediaType"@,
        ErrorCode::RangeNotSatisfiable => "RangeNotSatisfiable"@,
        ErrorCode::ExpectationFailed => "ExpectationFailed"@,
        ErrorCode::ImATeapot => "ImATeapot"@,
        ErrorCode::MisdirectedRequest => "MisdirectedRequest"@,
        ErrorCode::UnprocessableEntity => "UnprocessableEntity"@,
        ErrorCode::Locked => "Locked"@,
        ErrorCode::FailedDependency => "FailedDependency"@,
        ErrorCode::TooEarly => "TooEarly"@,
        ErrorCode::UpgradeRequired => "UpgradeRequired"@,
        ErrorCode::PreconditionRequired => "PreconditionRequired"@,
        ErrorCode::TooManyRequests => "TooManyRequests"@,
        ErrorCode::RequestHeaderFieldsTooLarge => "RequestHeaderFieldsTooLarge"@,
        ErrorCode::UnavailableForLegalReasons => "UnavailableForLegalReasons"@,
        ErrorCode::ClientClosedRequest => "ClientClosedRequest"@,
        ErrorCode::InternalServerError => "InternalServerError"@,
        ErrorCode::NotImplemented => "NotImplemented"@,
        ErrorCode::BadGateway => "BadGateway"@,
        ErrorCode::ServiceUnavailable => "ServiceUnavailable"@,
        ErrorCode::GatewayTimeout => "GatewayTimeout"@,
        ErrorCode::HTTPVersionNotSupported => "HTTPVersionNotSupported"@,
        ErrorCode::VariantAlsoNegotiates => "VariantAlsoNegotiates"@,
        ErrorCode::InsufficientStorage => "InsufficientStorage"@,
        ErrorCode::LoopDetected => "LoopDetected"@,
        ErrorCode::NotExtended => "NotExtended"@,
        ErrorCode::NetworkAuthenticationRequired => "NetworkAuthenticationRequired"@,
    }
}

/// The text an error is displayed as.
pub open spec fn display_text(code: ErrorCode, message: Seq<char>) -> Seq<char> {
    "rspc::Error { code: "@ + code_name(code) + ", message: "@ + message + " }"@
}

/// The debug name of an error code.
pub fn code_name_str(code: ErrorCode) -> (r: &'static str)
    ensures
        r@ == code_name(code),
{
    match code {
        ErrorCode::BadRequest => "BadRequest",
        ErrorCode::Unauthorized => "Unauthorized",
        ErrorCode::PaymentRequired => "PaymentRequired",
        ErrorCode::Forbidden => "Forbidden",
        ErrorCode::NotFound => "NotFound",
        ErrorCode::MethodNotAllowed => "MethodNotAllowed",
        ErrorCode::MethodNotSupported => "MethodNotSupported",
        ErrorCode::NotAcceptable => "NotAcceptable",
        ErrorCode::ProxyAuthenticationRequired => "ProxyAuthenticationRequired",
        ErrorCode::Timeout => "Timeout",
        ErrorCode::Conflict => "Conflict",
        ErrorCode::Gone => "Gone",
        ErrorCode::LengthRequired => "LengthRequired",
        ErrorCode::PreconditionFailed => "PreconditionFailed",
        ErrorCode::PayloadTooLarge => "PayloadTooLarge",
        ErrorCode::URITooLong => "URITooLong",
        ErrorCode::UnsupportedMediaType => "UnsupportedMediaType",
        ErrorCode::RangeNotSatisfiable => "RangeNotSatisfiable",
        ErrorCode::ExpectationFailed => "ExpectationFailed",
        ErrorCode::ImATeapot => "ImATeapot",
        ErrorCode::MisdirectedRequest => "MisdirectedRequest",
        ErrorCode::UnprocessableEntity => "UnprocessableEntity",
        ErrorCode::Locked => "Locked",
        ErrorCode::FailedDependency => "FailedDependency",
        ErrorCode::TooEarly => "TooEarly",
        ErrorCode::UpgradeRequired => "UpgradeRequired",
        ErrorCode::PreconditionRequired => "PreconditionRequired",
        ErrorCode::TooManyRequests => "TooManyRequests",
        ErrorCode::RequestHeaderFieldsTooLarge => "RequestHeaderFieldsTooLarge",
        ErrorCode::UnavailableForLegalReasons => "UnavailableForLegalReasons",
        ErrorCode::ClientClosedRequest => "ClientClosedRequest",
        ErrorCode::InternalServerError => "InternalServerError",
        ErrorCode::NotImplemented => "NotImplemented",
        ErrorCode::BadGateway => "BadGateway",
        ErrorCode::ServiceUnavailable => "ServiceUnavailable",
        ErrorCode::GatewayTimeout => "GatewayTimeout",
        ErrorCode::HTTPVersionNotSupported => "HTTPVersionNotSupported",
        ErrorCode::VariantAlsoNegotiates => "VariantAlsoNegotiates",
        ErrorCode::InsufficientStorage => "InsufficientStorage",
        ErrorCode::LoopDetected => "LoopDetected",
        ErrorCode::NotExtended => "NotExtended",
        ErrorCode::NetworkAuthenticationRequired => "NetworkAuthenticationRequired",
    }
}

/// Renders an error's code and message as its display text.
pub fn render_error(code: ErrorCode, message: &String) -> (r: String)
    ensures
        r@ == display_text(code, message@),
{
    let mut s = String::from_str("rspc::Error { code: ");
    s.append(code_name_str(code));
    s.append(", message: ");
    s.append(message.as_str());
    s.append(" }");
    s
}

/// An error in the JSON-RPC form: a numeric code and a message.
pub struct JsonRpcError {
    pub code: i32,
    pub message: String,
}

/// The abstract content of an [`ExecError`].
pub enum ExecErrorView {
    OperationNotFound(Seq<char>),
    DeserializingArgErr(Seq<char>),
    SerializingResultErr(Seq<char>),
    AxumExtractorError,
    InvalidJsonRpcVersion,
    UnsupportedMethod(Seq<char>),
    ErrResolverError(ErrorView),
    ErrSubscriptionWithNullId,
    ErrSubscriptionDuplicateId,
}

/// An error that occurred while executing an operation.
///
/// The (de)serialisation variants carry the description of the JSON error.
#[derive(Debug)]
pub enum ExecError {
    OperationNotFound(String),
    DeserializingArgErr(String),
    SerializingResultErr(String),
    AxumExtractorError,
    InvalidJsonRpcVersion,
    UnsupportedMethod(String),
    ErrResolverError(Error),
    ErrSubscriptionWithNullId,
    ErrSubscriptionDuplicateId,
}

impl View for ExecError {
    type V = ExecErrorView;

    open spec fn view(&self) -> ExecErrorView {
        match self {
            ExecError::OperationNotFound(s) => ExecErrorView::OperationNotFound(s@),
            ExecError::DeserializingArgErr(s) => ExecErrorView::DeserializingArgErr(s@),
            ExecError::SerializingResultErr(s) => ExecErrorView::SerializingResultErr(s@),
            ExecError::AxumExtractorError => ExecErrorView::AxumExtractorError,
            ExecError::InvalidJsonRpcVersion => ExecErrorView::InvalidJsonRpcVersion,
            ExecError::UnsupportedMethod(s) => ExecErrorView::UnsupportedMethod(s@),
            ExecError::ErrResolverError(e) => ExecErrorView::ErrResolverError(e@),
            ExecError::ErrSubscriptionWithNullId => ExecErrorView::ErrSubscriptionWithNullId,
            ExecError::ErrSubscriptionDuplicateId => ExecErrorView::ErrSubscriptionDuplicateId,
        }
    }
}

/// The error a client is told about for an execution error: a resolver's own error
/// is passed on as it is, every other kind gets a fixed code and message.
pub open spec fn exec_error_report(e: ExecErrorView) -> ErrorView {
    match e {
        ExecErrorView::OperationNotFound(_) => ErrorView {
            code: ErrorCode::NotFound,
            message: "the requested operation is not supported by this server"@,
            cause: None,
        },
        ExecErrorView::DeserializingArgErr(c) => ErrorView {
            code: ErrorCode::BadRequest,
            message: "error deserializing procedure arguments"@,
            cause: Some(c),
        },
        ExecErrorView::SerializingResultErr(c) => ErrorView {
            code: ErrorCode::InternalServerError,
            message: "error serializing procedure result"@,
            cause: Some(c),
        },
        ExecErrorView::AxumExtractorError => ErrorView {
            code: ErrorCode::BadRequest,
            message: "Error running Axum extractors on the HTTP request"@,
            cause: None,
        },
        ExecErrorView::InvalidJsonRpcVersion => ErrorView {
            code: ErrorCode::BadRequest,
            message: "invalid JSON-RPC version"@,
            cause: None,
        },
        ExecErrorView::ErrResolverError(e) => e,
        ExecErrorView::UnsupportedMethod(_) => ErrorView {
            code: ErrorCode::BadRequest,
            message: "unsupported metho"@,
            cause: None,
        },
        ExecErrorView::ErrSubscriptionWithNullId => ErrorView {
            code: ErrorCode::BadRequest,
            message: "error creating subscription with null request id"@,
            cause: None,
        },
        ExecErrorView::ErrSubscriptionDuplicateId => ErrorView {
            code: ErrorCode::BadRequest,
            message: "error creating subscription with duplicate id"@,
            cause: None,
        },
    }
}

/// The text an execution error is displayed as.
pub open spec fn exec_error_text(e: ExecErrorView) -> Seq<char> {
    match e {
        ExecErrorView::OperationNotFound(key) => "the requested operation '"@ + key
            + "' is not supported by this server"@,
        ExecErrorView::DeserializingArgErr(c) => "error deserializing procedure arguments: "@ + c,
        ExecErrorView::SerializingResultErr(c) => "error serializing procedure result: "@ + c,
        ExecErrorView::AxumExtractorError => "error in axum extractor"@,
        ExecErrorView::InvalidJsonRpcVersion => "invalid JSON-RPC version"@,
        ExecErrorView::UnsupportedMethod(m) => "method '"@ + m + "' is not supported by this endpoint."@,
        ExecErrorView::ErrResolverError(_) => "resolver threw error"@,
        ExecErrorView::ErrSubscriptionWithNullId => "error creating subscription with null id"@,
        ExecErrorView::ErrSubscriptionDuplicateId => "error creating subscription with duplicate id"@,
    }
}

impl ExecError {
    /// The text the error is displayed as (see [`exec_error_text`]).
    pub fn to_display_string(&self) -> (r: String)
        ensures
            r@ == exec_error_text(self@),
    {
        match self {
            ExecError::OperationNotFound(key) => {
                let mut s = String::from_str("the requested operation '");
                s.append(key.as_str());
                s.append("' is not supported by this server");
                s
            },
            ExecError::DeserializingArgErr(c) => {
                let mut s = String::from_str("error deserializing procedure arguments: ");
                s.append(c.as_str());
                s
            },
            ExecError::SerializingResultErr(c) => {
                let mut s = String::from_str("error serializing procedure result: ");
                s.append(c.as_str());
                s
            },
            ExecError::AxumExtractorError => String::from_str("error in axum extractor"),
            ExecError::InvalidJsonRpcVersion => String::from_str("invalid JSON-RPC version"),
            ExecError::UnsupportedMethod(m) => {
                let mut s = String::from_str("method '");
                s.append(m.as_str());
                s.append("' is not supported by this endpoint.");
                s
            },
            ExecError::ErrResolverError(_) => String::from_str("resolver threw error"),
            ExecError::ErrSubscriptionWithNullId => String::from_str(
                "error creating subscription with null id",
            ),
            ExecError::ErrSubscriptionDuplicateId => String::from_str(
                "error creating subscription with duplicate id",
            ),
        }
    }
}

/// Converts an execution error straight into its JSON-RPC form.
pub fn exec_error_into_json_rpc_error(err: ExecError) -> (r: JsonRpcError)
    ensures
        r.code == exec_error_report(err@).code.status() as i32,
        r.message@ == exec_error_report(err@).message,
{
    Error::from_exec_error(err).into_json_rpc_error()
}

/// An error raised while exporting the TypeScript bindings: the description of the
/// underlying I/O error.
#[derive(Debug)]
pub enum ExportError {
    IOErr(String),
}

impl ExportError {
    /// The text the error is displayed as: `IO error exporting bindings: ` and the
    /// description of the I/O error.
    pub fn to_display_string(&self) -> (r: String)
        ensures
            r@ == (match self {
                ExportError::IOErr(c) => "IO error exporting bindings: "@ + c@,
            }),
    {
        match self {
            ExportError::IOErr(c) => {
                let mut s = String::from_str("IO error exporting bindings: ");
                s.append(c.as_str());
                s
            },
        }
    }
}

/// Only a resolver's own error reaches the client with a code other than the fixed
/// ones, and it reaches it unchanged.
pub proof fn law_resolver_error_passes_through(e: ErrorView)
    ensures
        exec_error_report(ExecErrorView::ErrResolverError(e)) == e,
{
}

/// The error a client is told about for an unknown operation or an unsupported
/// method does not repeat the name the request gave: it is the same for every name.
pub proof fn law_reports_do_not_echo_request_names(a: Seq<char>, b: Seq<char>)
    ensures
        exec_error_report(ExecErrorView::OperationNotFound(a)) == exec_error_report(
            ExecErrorView::OperationNotFound(b),
        ),
        exec_error_report(ExecErrorView::UnsupportedMethod(a)) == exec_error_report(
            ExecErrorView::UnsupportedMethod(b),
        ),
{
}

/// Errors the server raises itself, other than (de)serialisation failures, carry no cause.
pub proof fn law_server_errors_have_no_cause(e: ExecErrorView)
    requires
        !(e is ErrResolverError),
        !(e is DeserializingArgErr),
        !(e is SerializingResultErr),
    ensures
        exec_error_report(e).cause is None,
{
}

} // verus!

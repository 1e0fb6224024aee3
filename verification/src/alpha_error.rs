use vstd::prelude::*;
use vstd::string::StringExecFns;

use crate::error::{
    Error, ErrorView, ExecErrorView, JsonRpcError, display_text, exec_error_report, exec_error_text,
    render_error,
};
use crate::error_code::ErrorCode;

verus! {

/// An error returned by a procedure built with the alpha API.
#[derive(Debug, Clone)]
pub struct AlphaError {
    pub(crate) code: ErrorCode,
    pub(crate) message: String,
    pub(crate) cause: Option<String>,
}

impl View for AlphaError {
    type V = ErrorView;

    closed spec fn view(&self) -> ErrorView {
        ErrorView {
            code: self.code,
            message: self.message@,
            cause: match self.cause {
                Some(c) => Some(c@),
                None => None,
            },
        }
    }
}

impl AlphaError {
    /// An error with the given code and message and no cause.
    pub fn new(code: ErrorCode, message: String) -> (r: Self)
        ensures
            r@ == (ErrorView { code, message: message@, cause: None }),
    {
        AlphaError { code, message, cause: None }
    }

    /// An error with the given code and message, caused by the error described by `cause`.
    pub fn with_cause(code: ErrorCode, message: String, cause: String) -> (r: Self)
        ensures
            r@ == (ErrorView { code, message: message@, cause: Some(cause@) }),
    {
        AlphaError { code, message, cause: Some(cause) }
    }

    /// The error code.
    pub fn code(&self) -> (r: ErrorCode)
        ensures
            r == self@.code,
    {
        self.code
    }

    /// The message sent to the client.
    pub fn message(&self) -> (r: &String)
        ensures
            r@ == self@.message,
    {
        &self.message
    }

    /// Renders the error as `rspc::Error { code: <code>, message: <message> }`.
    pub fn to_display_string(&self) -> (r: String)
        ensures
            r@ == display_text(self@.code, self@.message),
    {
        render_error(self.code, &self.message)
    }

    /// The error as it is reported in a JSON-RPC response.
    pub fn into_json_rpc_error(self) -> (r: JsonRpcError)
        ensures
            r.code == self@.code.status() as i32,
            r.message@ == self@.message,
    {
        let code = self.code.to_status_code();
        JsonRpcError { code: code as i32, message: self.message }
    }

    /// The legacy error with the same code and message; the cause is dropped.
    pub fn into_error(self) -> (r: Error)
        ensures
            r@ == (ErrorView { code: self@.code, message: self@.message, cause: None }),
    {
        Error::new(self.code, self.message)
    }

    /// The error that any `anyhow` error is reported as: an internal server error
    /// without a cause.
    pub fn for_anyhow_error() -> (r: Self)
        ensures
            r@ == (ErrorView {
                code: ErrorCode::InternalServerError,
                message: "internal server error"@,
                cause: None,
            }),
    {
        AlphaError {
            code: ErrorCode::InternalServerError,
            message: String::from_str("internal server error"),
            cause: None,
        }
    }

    /// Converts an execution error into the error reported to the client.
    pub fn from_exec_error(err: AlphaExecError) -> (r: Self)
        ensures
            r@ == exec_error_report(err@),
    {
        match err {
            AlphaExecError::OperationNotFound(_) => AlphaError {
                code: ErrorCode::NotFound,
                message: String::from_str("the requested operation is not supported by this server"),
                cause: None,
            },
            AlphaExecError::DeserializingArgErr(e) => AlphaError {
                code: ErrorCode::BadRequest,
                message: String::from_str("error deserializing procedure arguments"),
                cause: Some(e),
            },
            AlphaExecError::SerializingResultErr(e) => AlphaError {
                code: ErrorCode::InternalServerError,
                message: String::from_str("error serializing procedure result"),
                cause: Some(e),
            },
            AlphaExecError::AxumExtractorError => AlphaError {
                code: ErrorCode::BadRequest,
                message: String::from_str("Error running Axum extractors on the HTTP request"),
                cause: None,
            },
            AlphaExecError::InvalidJsonRpcVersion => AlphaError {
                code: ErrorCode::BadRequest,
                message: String::from_str("invalid JSON-RPC version"),
                cause: None,
            },
            AlphaExecError::ErrResolverError(e) => e,
            AlphaExecError::UnsupportedMethod(_) => AlphaError {
                code: ErrorCode::BadRequest,
                message: String::from_str("unsupported metho"),
                cause: None,
            },
            AlphaExecError::ErrSubscriptionWithNullId => AlphaError {
                code: ErrorCode::BadRequest,
                message: String::from_str("error creating subscription with null request id"),
                cause: None,
            },
            AlphaExecError::ErrSubscriptionDuplicateId => AlphaError {
                code: ErrorCode::BadRequest,
                message: String::from_str("error creating subscription with duplicate id"),
                cause: None,
            },
        }
    }
}

/// An error that occurred while executing an alpha-API operation.
///
/// The (de)serialisation variants carry the description of the JSON error.
#[derive(Debug)]
pub enum AlphaExecError {
    OperationNotFound(String),
    DeserializingArgErr(String),
    SerializingResultErr(String),
    AxumExtractorError,
    InvalidJsonRpcVersion,
    UnsupportedMethod(String),
    ErrResolverError(AlphaError),
    ErrSubscriptionWithNullId,
    ErrSubscriptionDuplicateId,
}

impl View for AlphaExecError {
    type V = ExecErrorView;

    open spec fn view(&self) -> ExecErrorView {
        match self {
            AlphaExecError::OperationNotFound(s) => ExecErrorView::OperationNotFound(s@),
            AlphaExecError::DeserializingArgErr(s) => ExecErrorView::DeserializingArgErr(s@),
            AlphaExecError::SerializingResultErr(s) => ExecErrorView::SerializingResultErr(s@),
            AlphaExecError::AxumExtractorError => ExecErrorView::AxumExtractorError,
            AlphaExecError::InvalidJsonRpcVersion => ExecErrorView::InvalidJsonRpcVersion,
            AlphaExecError::UnsupportedMethod(s) => ExecErrorView::UnsupportedMethod(s@),
            AlphaExecError::ErrResolverError(e) => ExecErrorView::ErrResolverError(e@),
            AlphaExecError::ErrSubscriptionWithNullId => ExecErrorView::ErrSubscriptionWithNullId,
            AlphaExecError::ErrSubscriptionDuplicateId => ExecErrorView::ErrSubscriptionDuplicateId,
        }
    }
}

impl AlphaExecError {
    /// The text the error is displayed as (see [`exec_error_text`]).
    pub fn to_display_string(&self) -> (r: String)
        ensures
            r@ == exec_error_text(self@),
    {
        match self {
            AlphaExecError::OperationNotFound(key) => {
                let mut s = String::from_str("the requested operation '");
                s.append(key.as_str());
                s.append("' is not supported by this server");
                s
            },
            AlphaExecError::DeserializingArgErr(c) => {
                let mut s = String::from_str("error deserializing procedure arguments: ");
                s.append(c.as_str());
                s
            },
            AlphaExecError::SerializingResultErr(c) => {
                let mut s = String::from_str("error serializing procedure result: ");
                s.append(c.as_str());
                s
            },
            AlphaExecError::AxumExtractorError => String::from_str("error in axum extractor"),
            AlphaExecError::InvalidJsonRpcVersion => String::from_str("invalid JSON-RPC version"),
            AlphaExecError::UnsupportedMethod(m) => {
                let mut s = String::from_str("method '");
                s.append(m.as_str());
                s.append("' is not supported by this endpoint.");
                s
            },
            AlphaExecError::ErrResolverError(_) => String::from_str("resolver threw error"),
            AlphaExecError::ErrSubscriptionWithNullId => String::from_str(
                "error creating subscription with null id",
            ),
            AlphaExecError::ErrSubscriptionDuplicateId => String::from_str(
                "error creating subscription with duplicate id",
            ),
        }
    }
}

/// Converts an alpha execution error straight into its JSON-RPC form.
pub fn alpha_exec_error_into_json_rpc_error(err: AlphaExecError) -> (r: JsonRpcError)
    ensures
        r.code == exec_error_report(err@).code.status() as i32,
        r.message@ == exec_error_report(err@).message,
{
    AlphaError::from_exec_error(err).into_json_rpc_error()
}

} // verus!

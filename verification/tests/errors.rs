use rspc::error::exec_error_into_json_rpc_error;
use rspc::{AlphaError, AlphaExecError, Error, ErrorCode, ExecError, ExportError};

#[test]
fn error_new_has_no_cause() {
    let e = Error::new(ErrorCode::Forbidden, "nope".to_string());
    assert_eq!(e.code(), ErrorCode::Forbidden);
    assert_eq!(e.message(), "nope");
    assert!(e.cause().is_none());
}

#[test]
fn error_with_cause_keeps_the_cause() {
    let e = Error::with_cause(ErrorCode::Conflict, "clash".to_string(), "db said no".to_string());
    assert_eq!(e.code(), ErrorCode::Conflict);
    assert_eq!(e.message(), "clash");
    assert_eq!(e.cause().map(|c| c.as_str()), Some("db said no"));
}

#[test]
fn error_display_text() {
    let e = Error::new(ErrorCode::NotFound, "missing".to_string());
    assert_eq!(e.to_display_string(), "rspc::Error { code: NotFound, message: missing }");
    let a = AlphaError::new(ErrorCode::HTTPVersionNotSupported, "old".to_string());
    assert_eq!(a.to_display_string(), "rspc::Error { code: HTTPVersionNotSupported, message: old }");
}

#[test]
fn error_into_json_rpc_error() {
    let r = Error::new(ErrorCode::TooManyRequests, "slow down".to_string()).into_json_rpc_error();
    assert_eq!(r.code, 429);
    assert_eq!(r.message, "slow down");
}

fn report(e: ExecError) -> (ErrorCode, String, Option<String>) {
    let e = Error::from_exec_error(e);
    (e.code(), e.message().clone(), e.cause().cloned())
}

#[test]
fn each_exec_error_is_reported() {
    assert_eq!(
        report(ExecError::OperationNotFound("x".into())),
        (ErrorCode::NotFound, "the requested operation is not supported by this server".into(), None)
    );
    assert_eq!(
        report(ExecError::DeserializingArgErr("bad json".into())),
        (ErrorCode::BadRequest, "error deserializing procedure arguments".into(), Some("bad json".into()))
    );
    assert_eq!(
        report(ExecError::SerializingResultErr("nan".into())),
        (ErrorCode::InternalServerError, "error serializing procedure result".into(), Some("nan".into()))
    );
    assert_eq!(
        report(ExecError::AxumExtractorError),
        (ErrorCode::BadRequest, "Error running Axum extractors on the HTTP request".into(), None)
    );
    assert_eq!(
        report(ExecError::InvalidJsonRpcVersion),
        (ErrorCode::BadRequest, "invalid JSON-RPC version".into(), None)
    );
    assert_eq!(
        report(ExecError::UnsupportedMethod("PUT".into())),
        (ErrorCode::BadRequest, "unsupported metho".into(), None)
    );
    assert_eq!(
        report(ExecError::ErrSubscriptionWithNullId),
        (ErrorCode::BadRequest, "error creating subscription with null request id".into(), None)
    );
    assert_eq!(
        report(ExecError::ErrSubscriptionDuplicateId),
        (ErrorCode::BadRequest, "error creating subscription with duplicate id".into(), None)
    );
}

#[test]
fn resolver_errors_pass_through_unchanged() {
    let inner = Error::with_cause(ErrorCode::Unauthorized, "who?".into(), "no token".into());
    assert_eq!(
        report(ExecError::ErrResolverError(inner)),
        (ErrorCode::Unauthorized, "who?".into(), Some("no token".into()))
    );
}

#[test]
fn exec_error_straight_to_json_rpc() {
    let r = exec_error_into_json_rpc_error(ExecError::OperationNotFound("q".into()));
    assert_eq!(r.code, 404);
    assert_eq!(r.message, "the requested operation is not supported by this server");
}

#[test]
fn alpha_errors() {
    let a = AlphaError::with_cause(ErrorCode::Gone, "gone".into(), "moved".into());
    assert_eq!(a.code(), ErrorCode::Gone);
    assert_eq!(a.message(), "gone");
    let legacy = a.into_error();
    assert_eq!(legacy.code(), ErrorCode::Gone);
    assert_eq!(legacy.message(), "gone");
    assert!(legacy.cause().is_none());

    let any = AlphaError::for_anyhow_error();
    assert_eq!(any.code(), ErrorCode::InternalServerError);
    assert_eq!(any.message(), "internal server error");

    let e = AlphaError::from_exec_error(AlphaExecError::InvalidJsonRpcVersion);
    assert_eq!(e.code(), ErrorCode::BadRequest);
    assert_eq!(e.message(), "invalid JSON-RPC version");
    let e = AlphaError::from_exec_error(AlphaExecError::ErrResolverError(AlphaError::new(ErrorCode::Locked, "l".into())));
    assert_eq!(e.code(), ErrorCode::Locked);
    let j = AlphaError::new(ErrorCode::BadGateway, "bg".into()).into_json_rpc_error();
    assert_eq!(j.code, 502);
}

#[test]
fn exec_error_texts() {
    assert_eq!(
        ExecError::OperationNotFound("users.get".into()).to_display_string(),
        "the requested operation 'users.get' is not supported by this server"
    );
    assert_eq!(
        ExecError::DeserializingArgErr("EOF while parsing".into()).to_display_string(),
        "error deserializing procedure arguments: EOF while parsing"
    );
    assert_eq!(
        ExecError::SerializingResultErr("bad key".into()).to_display_string(),
        "error serializing procedure result: bad key"
    );
    assert_eq!(ExecError::AxumExtractorError.to_display_string(), "error in axum extractor");
    assert_eq!(ExecError::InvalidJsonRpcVersion.to_display_string(), "invalid JSON-RPC version");
    assert_eq!(
        ExecError::UnsupportedMethod("PUT".into()).to_display_string(),
        "method 'PUT' is not supported by this endpoint."
    );
    assert_eq!(
        ExecError::ErrResolverError(Error::new(ErrorCode::Gone, "x".into())).to_display_string(),
        "resolver threw error"
    );
    assert_eq!(
        ExecError::ErrSubscriptionWithNullId.to_display_string(),
        "error creating subscription with null id"
    );
    assert_eq!(
        ExecError::ErrSubscriptionDuplicateId.to_display_string(),
        "error creating subscription with duplicate id"
    );
    assert_eq!(
        ExportError::IOErr("permission denied".into()).to_display_string(),
        "IO error exporting bindings: permission denied"
    );
}

#[test]
fn alpha_exec_error_texts() {
    assert_eq!(
        AlphaExecError::OperationNotFound("a.b".into()).to_display_string(),
        "the requested operation 'a.b' is not supported by this server"
    );
    assert_eq!(
        AlphaExecError::UnsupportedMethod("x".into()).to_display_string(),
        "method 'x' is not supported by this endpoint."
    );
    assert_eq!(
        AlphaExecError::ErrResolverError(AlphaError::new(ErrorCode::Gone, "g".into())).to_display_string(),
        "resolver threw error"
    );
    assert_eq!(
        AlphaExecError::DeserializingArgErr("bad".into()).to_display_string(),
        "error deserializing procedure arguments: bad"
    );
}

#[test]
fn unknown_names_are_reported_alike() {
    let a = Error::from_exec_error(ExecError::OperationNotFound("a".into()));
    let b = Error::from_exec_error(ExecError::OperationNotFound("admin.secret".into()));
    assert_eq!(a.code(), b.code());
    assert_eq!(a.message(), b.message());
    assert!(!b.message().contains("admin.secret"));
    let c = Error::from_exec_error(ExecError::UnsupportedMethod("PUT".into()));
    let d = Error::from_exec_error(ExecError::UnsupportedMethod("DELETE".into()));
    assert_eq!(c.code(), d.code());
    assert_eq!(c.message(), d.message());
}

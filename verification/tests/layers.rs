use rspc::layer_result::{handler_result, handler_step, resolver_result, serialized_result, HandlerStep};
use rspc::{Error, ErrorCode, ExecError, JsonValue};

#[test]
fn resolver_results() {
    assert!(matches!(resolver_result(Ok(Ok(JsonValue::Bool(true)))), Ok(JsonValue::Bool(true))));
    match resolver_result(Ok(Err("key must be a string".into()))) {
        Err(ExecError::SerializingResultErr(t)) => assert_eq!(t, "key must be a string"),
        other => panic!("unexpected {:?}", other),
    }
    match resolver_result(Err(Error::new(ErrorCode::Forbidden, "no".into()))) {
        Err(ExecError::ErrResolverError(e)) => assert_eq!(e.code(), ErrorCode::Forbidden),
        other => panic!("unexpected {:?}", other),
    }
    assert!(matches!(serialized_result(Ok(JsonValue::Null)), Ok(JsonValue::Null)));
    assert!(matches!(serialized_result(Err("x".into())), Err(ExecError::SerializingResultErr(_))));
}

#[test]
fn response_handler_steps() {
    assert!(matches!(handler_step(Ok(JsonValue::Null)), HandlerStep::Apply(JsonValue::Null)));
    assert!(matches!(
        handler_step(Err(ExecError::InvalidJsonRpcVersion)),
        HandlerStep::PassThrough(ExecError::InvalidJsonRpcVersion)
    ));
    assert!(matches!(handler_result(Ok(JsonValue::String("ok".into()))), Ok(JsonValue::String(_))));
    match handler_result(Err(Error::new(ErrorCode::Locked, "busy".into()))) {
        Err(ExecError::ErrResolverError(e)) => assert_eq!(e.message(), "busy"),
        other => panic!("unexpected {:?}", other),
    }
}

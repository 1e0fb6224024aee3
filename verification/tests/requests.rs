use rspc::handle_request::{
    endpoint_answer, endpoint_get, endpoint_post, socket_message, EndpointBody, EndpointStep, RequestAction,
    SocketMessageStep,
};
use rspc::handle_request::{
    mutation_request, query_request, remove_subscription, socket_context_failure,
    start_subscription, subscription_added_response, subscription_event,
    unreadable_request_response, value_response,
};
use rspc::ids::new_subscription_id;
use rspc::json::split_batch;
use rspc::message::{self, Dispatch, MessageMethod, ResponseResult};
use rspc::{ClientContext, Error, ErrorCode, ExecError, JsonValue, OperationKey, OperationKind, Request, Response};

fn safe(c: char) -> bool {
    c == '_' || c == '-' || c.is_ascii_alphanumeric()
}

#[test]
fn subscription_ids_are_21_url_safe_chars() {
    let a = new_subscription_id();
    let b = new_subscription_id();
    assert_eq!(a.chars().count(), 21);
    assert!(a.chars().all(safe));
    assert!(b.chars().all(safe));
    assert_ne!(a, b);
}

#[test]
fn operation_kind_names() {
    assert_eq!(OperationKind::Query.to_string(), "query");
    assert_eq!(OperationKind::Mutation.to_string(), "mutation");
    assert_eq!(OperationKind::SubscriptionAdd.to_string(), "subscriptionAdd");
    assert_eq!(OperationKind::SubscriptionRemove.to_string(), "subscriptionRemove");
}

#[test]
fn value_responses() {
    match value_response(Some("1".into()), Ok(JsonValue::Bool(true))) {
        Response::Response { id, result: JsonValue::Bool(true) } => assert_eq!(id.as_deref(), Some("1")),
        other => panic!("unexpected {:?}", other),
    }
    match value_response(None, Err(ExecError::OperationNotFound("x".into()))) {
        Response::Error { id: None, error } => {
            assert_eq!(error.code(), ErrorCode::NotFound);
        }
        other => panic!("unexpected {:?}", other),
    }
}

#[test]
fn subscriptions_are_registered_and_answered_with_their_id() {
    let mut client: ClientContext<u8> = ClientContext::new();
    let req = Request {
        id: Some("7".into()),
        operation: OperationKind::SubscriptionAdd,
        key: OperationKey("pings".into(), None),
    };
    let sid = start_subscription(&mut client, &req, 9);
    assert_eq!(sid.len(), 21);
    match subscription_added_response(req.id.clone(), sid.clone(), Ok(()), true) {
        Response::Response { id, result: JsonValue::String(s) } => {
            assert_eq!(id.as_deref(), Some("7"));
            assert_eq!(s, sid);
        }
        other => panic!("unexpected {:?}", other),
    }
    match subscription_added_response(req.id.clone(), sid.clone(), Ok(()), false) {
        Response::Error { id, error } => {
            assert_eq!(id.as_deref(), Some("7"));
            assert_eq!(error.code(), ErrorCode::InternalServerError);
            assert_eq!(error.message(), "Can't add subscription without event sender");
        }
        other => panic!("unexpected {:?}", other),
    }
    match subscription_added_response(None, sid.clone(), Err(ExecError::ErrSubscriptionDuplicateId), true) {
        Response::Error { error, .. } => assert_eq!(error.code(), ErrorCode::BadRequest),
        other => panic!("unexpected {:?}", other),
    }
    assert_eq!(client.unregister("subscriptionAdd".into(), "pings".into(), sid.clone()), Some(9));
}

#[test]
fn subscription_events() {
    let sid = "abc".to_string();
    let key = "pings".to_string();
    match subscription_event(&sid, &key, Ok(JsonValue::String("ping".into()))) {
        Response::Event { id, key, result: JsonValue::String(v) } => {
            assert_eq!(id, "abc");
            assert_eq!(key, "pings");
            assert_eq!(v, "ping");
        }
        other => panic!("unexpected {:?}", other),
    }
    let e = Error::new(ErrorCode::Timeout, "late".into());
    match subscription_event(&sid, &key, Err(ExecError::ErrResolverError(e))) {
        Response::Error { id, error } => {
            assert_eq!(id.as_deref(), Some("abc"));
            assert_eq!(error.code(), ErrorCode::Timeout);
        }
        other => panic!("unexpected {:?}", other),
    }
}

#[test]
fn removal_looks_under_the_removal_kind() {
    let mut client: ClientContext<u8> = ClientContext::new();
    client.register("subscriptionRemove".into(), "k".into(), "k".into(), 3);
    client.register("subscriptionAdd".into(), "k".into(), "k".into(), 4);
    let req = Request { id: None, operation: OperationKind::SubscriptionRemove, key: OperationKey("k".into(), None) };
    let (removed, resp) = remove_subscription(&mut client, &req);
    assert_eq!(removed, Some(3));
    assert!(matches!(resp, Response::Empty));
    let (removed, _) = remove_subscription(&mut client, &req);
    assert_eq!(removed, None);
}

#[test]
fn message_dispatch() {
    let req = message::Request {
        id: Some("1".into()),
        method: MessageMethod::Query,
        operation: "version".into(),
        arg: Some(JsonValue::Object(vec![])),
    };
    match req.dispatch(false) {
        (id, Dispatch::Query { operation, arg: JsonValue::Null }) => {
            assert_eq!(id.as_deref(), Some("1"));
            assert_eq!(operation, "version");
        }
        other => panic!("unexpected {:?}", other),
    }
    let req = message::Request {
        id: None,
        method: MessageMethod::Mutation,
        operation: "set".into(),
        arg: Some(JsonValue::Number("3".into())),
    };
    match req.dispatch(false) {
        (None, Dispatch::Mutation { arg: JsonValue::Number(n), .. }) => assert_eq!(n, "3"),
        other => panic!("unexpected {:?}", other),
    }
    let sub = |has| message::Request {
        id: None,
        method: MessageMethod::SubscriptionAdd,
        operation: "pings".into(),
        arg: None,
    }
    .dispatch(has);
    assert!(matches!(sub(true), (None, Dispatch::Subscribe { arg: JsonValue::Null, .. })));
    assert!(matches!(sub(false), (None, Dispatch::Reply(message::Response::Response(ResponseResult::Error)))));
}

#[test]
fn message_responses() {
    match message::query_response(Some("2".into()), Ok(JsonValue::Null)) {
        message::Response::Response(ResponseResult::Success { id, result: JsonValue::Null }) => {
            assert_eq!(id.as_deref(), Some("2"))
        }
        other => panic!("unexpected {:?}", other),
    }
    assert!(matches!(
        message::query_response(None, Err(ExecError::InvalidJsonRpcVersion)),
        message::Response::Response(ResponseResult::Error)
    ));
    assert!(matches!(message::subscription_response(Ok(())), message::Response::Empty));
    assert!(matches!(
        message::subscription_response(Err(ExecError::AxumExtractorError)),
        message::Response::Response(ResponseResult::Error)
    ));
    let op = "pings".to_string();
    match message::forward_event(&op, Ok(JsonValue::Bool(false))) {
        Some(message::Response::Event(e)) => assert_eq!(e.key, "pings"),
        other => panic!("unexpected {:?}", other),
    }
    assert!(message::forward_event(&op, Err(ExecError::ErrSubscriptionWithNullId)).is_none());
}

#[test]
fn batches() {
    let v = split_batch(JsonValue::Array(vec![JsonValue::Null, JsonValue::Bool(true)]));
    assert_eq!(v.len(), 2);
    let v = split_batch(JsonValue::Object(vec![("a".into(), JsonValue::Null)]));
    assert_eq!(v.len(), 1);
    assert!(matches!(v[0], JsonValue::Object(_)));
    let v = split_batch(JsonValue::Array(vec![]));
    assert_eq!(v.len(), 0);
}

#[test]
fn endpoint_requests() {
    let q = query_request("version".into(), None);
    assert!(q.id.is_none());
    assert_eq!(q.operation, OperationKind::Query);
    assert_eq!(q.key.0, "version");
    assert!(matches!(q.key.1, Some(JsonValue::Null)));
    let q = query_request("echo".into(), Some(JsonValue::Bool(true)));
    assert!(matches!(q.key.1, Some(JsonValue::Bool(true))));
    let m = mutation_request("set".into(), None);
    assert!(m.id.is_none());
    assert_eq!(m.operation, OperationKind::Mutation);
    assert_eq!(m.key.0, "set");
    assert!(m.key.1.is_none());
    let m = mutation_request("set".into(), Some(JsonValue::Number("4".into())));
    assert!(matches!(m.key.1, Some(JsonValue::Number(ref n)) if n == "4"));
}

#[test]
fn socket_failures() {
    match unreadable_request_response("expected value".into()) {
        Response::Error { id: None, error } => {
            assert_eq!(error.code(), ErrorCode::BadRequest);
            assert_eq!(error.message(), "error deserializing procedure arguments");
            assert_eq!(error.cause().map(|c| c.as_str()), Some("expected value"));
        }
        other => panic!("unexpected {:?}", other),
    }
    match socket_context_failure(Some("5".into()), ExecError::AxumExtractorError, false) {
        Response::Error { id, error } => {
            assert_eq!(id.as_deref(), Some("5"));
            assert_eq!(error.code(), ErrorCode::BadRequest);
            assert_eq!(error.message(), "Error running Axum extractors on the HTTP request");
        }
        other => panic!("unexpected {:?}", other),
    }
    match socket_context_failure(Some("6".into()), ExecError::AxumExtractorError, true) {
        Response::Error { id, error } => {
            assert_eq!(id.as_deref(), Some("6"));
            assert_eq!(error.code(), ErrorCode::InternalServerError);
            assert_eq!(error.message(), "error in axum extractor");
            assert!(error.cause().is_none());
        }
        other => panic!("unexpected {:?}", other),
    }
}

#[test]
fn endpoint_steps() {
    match endpoint_get("v".into(), Some(Err("bad".into()))) {
        EndpointStep::Reply(r) => {
            assert_eq!(r.status, 400);
            assert!(matches!(r.body, EndpointBody::Answers(ref v) if v.is_empty()));
        }
        _ => panic!("unreadable input must not run"),
    }
    match endpoint_get("v".into(), None) {
        EndpointStep::Run(r) => {
            assert_eq!(r.operation, OperationKind::Query);
            assert!(matches!(r.key.1, Some(JsonValue::Null)));
        }
        _ => panic!("a missing input runs with null"),
    }
    match endpoint_post("set".into(), Err("EOF while parsing".into())) {
        EndpointStep::Reply(r) => {
            assert_eq!(r.status, 400);
            assert!(matches!(r.body, EndpointBody::Rejection(ref t) if t == "EOF while parsing"));
        }
        _ => panic!("a rejected body must not run"),
    }
    match endpoint_post("set".into(), Ok(None)) {
        EndpointStep::Run(r) => {
            assert_eq!(r.operation, OperationKind::Mutation);
            assert!(r.key.1.is_none());
        }
        _ => panic!("a readable body runs"),
    }
    let ok = endpoint_answer(Ok(Response::Empty));
    assert_eq!(ok.status, 200);
    assert!(matches!(ok.body, EndpointBody::Answers(ref v) if v.len() == 1));
    let failed = endpoint_answer(Err(ExecError::AxumExtractorError));
    assert_eq!(failed.status, 200);
    match failed.body {
        EndpointBody::Answers(v) => match &v[0] {
            Response::Error { id: None, error } => assert_eq!(error.code(), ErrorCode::BadRequest),
            other => panic!("unexpected {:?}", other),
        },
        _ => panic!("answers expected"),
    }
}

#[test]
fn socket_messages_and_actions() {
    match socket_message(Err("oops".into())) {
        SocketMessageStep::Send(Response::Error { id: None, error }) => {
            assert_eq!(error.code(), ErrorCode::BadRequest)
        }
        _ => panic!("an unreadable message is answered with an error"),
    }
    let req = Request { id: None, operation: OperationKind::SubscriptionRemove, key: OperationKey("k".into(), None) };
    assert_eq!(req.action(), RequestAction::RemoveSubscription);
    match socket_message(Ok(req)) {
        SocketMessageStep::Run(r) => assert_eq!(r.key.0, "k"),
        _ => panic!("a request runs"),
    }
    let q = Request { id: None, operation: OperationKind::Query, key: OperationKey("q".into(), None) };
    assert_eq!(q.action(), RequestAction::RunQuery);
    let m = Request { id: None, operation: OperationKind::Mutation, key: OperationKey("m".into(), None) };
    assert_eq!(m.action(), RequestAction::RunMutation);
    let a = Request { id: None, operation: OperationKind::SubscriptionAdd, key: OperationKey("a".into(), None) };
    assert_eq!(a.action(), RequestAction::AddSubscription);
}

//! Answering a request of the legacy router: queries and mutations are run and
//! answered with their value; subscriptions are registered with the client, run, and
//! answered with their id while their events are forwarded.

use vstd::prelude::*;
use vstd::string::StringExecFns;

use crate::error::{Error, ErrorView, ExecError, ExecErrorView, exec_error_report, exec_error_text};
use crate::error_code::ErrorCode;
use crate::ids::{SUBSCRIPTION_ID_LEN, is_url_safe_char, new_subscription_id};
use crate::json::JsonValue;
use crate::subscriptions::ClientContext;

verus! {

/// The kind of an operation a request asks for.
#[derive(Debug, Clone, Copy, PartialEq, Eq, Structural)]
pub enum OperationKind {
    Query,
    Mutation,
    SubscriptionAdd,
    SubscriptionRemove,
}

impl OperationKind {
    /// The name of the kind, as subscriptions are registered under it.
    pub open spec fn name(self) -> Seq<char> {
        match self {
            OperationKind::Query => "query"@,
            OperationKind::Mutation => "mutation"@,
            OperationKind::SubscriptionAdd => "subscriptionAdd"@,
            OperationKind::SubscriptionRemove => "subscriptionRemove"@,
        }
    }

    /// The name of the kind.
    pub fn to_string(&self) -> (r: String)
        ensures
            r@ == self.name(),
    {
        match self {
            OperationKind::Query => String::from_str("query"),
            OperationKind::Mutation => String::from_str("mutation"),
            OperationKind::SubscriptionAdd => String::from_str("subscriptionAdd"),
            OperationKind::SubscriptionRemove => String::from_str("subscriptionRemove"),
        }
    }
}

/// The key of an operation and the argument it is called with.
#[derive(Debug)]
pub struct OperationKey(pub String, pub Option<JsonValue>);

/// A request to the legacy router.
#[derive(Debug)]
pub struct Request {
    pub id: Option<String>,
    pub operation: OperationKind,
    pub key: OperationKey,
}

/// A message sent back to the client.
#[derive(Debug)]
pub enum Response {
    /// An event of the subscription `id` for the operation `key`.
    Event { id: String, key: String, result: JsonValue },
    /// The result of the request `id`.
    Response { id: Option<String>, result: JsonValue },
    /// The request `id` failed.
    Error { id: Option<String>, error: Error },
    /// Nothing is sent back.
    Empty,
}

impl Error {
    /// The message that reports this error as the answer to the request `id`.
    pub fn into_response(self, id: Option<String>) -> (r: Response)
        ensures
            r matches Response::Error { id: rid, error } && rid == id && error@ == self@,
    {
        Response::Error { id, error: self }
    }
}

impl ExecError {
    /// The error reported to the client for this execution error.
    pub fn into_rspc_err(self) -> (r: Error)
        ensures
            r@ == exec_error_report(self@),
    {
        Error::from_exec_error(self)
    }
}

impl Response {
    /// Whether the message is sent to the client at all.
    pub fn is_sent(&self) -> (r: bool)
        ensures
            r == !(self is Empty),
    {
        match self {
            Response::Empty => false,
            _ => true,
        }
    }
}

/// The answer to a query or mutation once the router ran it: its value, or the
/// error it failed with.
pub fn value_response(id: Option<String>, outcome: Result<JsonValue, ExecError>) -> (r: Response)
    ensures
        match outcome {
            Ok(v) => r == Response::Response { id, result: v },
            Err(e) => r matches Response::Error { id: rid, error } && rid == id && error@
                == exec_error_report(e@),
        },
{
    match outcome {
        Ok(result) => Response::Response { id, result },
        Err(err) => err.into_rspc_err().into_response(id),
    }
}

/// Registers a new subscription for `request` with the client, under the request's
/// kind, its operation key and a fresh random id, and returns that id.
pub fn start_subscription<S>(client: &mut ClientContext<S>, request: &Request, shutdown: S) -> (r: String)
    ensures
        r@.len() == SUBSCRIPTION_ID_LEN,
        forall|i: int| 0 <= i < r@.len() ==> is_url_safe_char(#[trigger] r@[i]),
        final(client).view() == old(client).view().insert(
            (request.operation.name(), request.key.0@, r@),
            shutdown,
        ),
{
    let subscription_id = new_subscription_id();
    client.register(request.operation.to_string(), request.key.0.clone(), subscription_id.clone(), shutdown);
    subscription_id
}

/// The message reporting that a subscription cannot be added without a channel for its events.
pub open spec fn no_event_sender_error() -> ErrorView {
    ErrorView {
        code: ErrorCode::InternalServerError,
        message: "Can't add subscription without event sender"@,
        cause: None,
    }
}

/// The answer to a request that added a subscription once the router started it:
/// the subscription's id when its events have a channel to go to, an error when
/// they have none or when the subscription failed to start.
pub fn subscription_added_response(
    id: Option<String>,
    subscription_id: String,
    outcome: Result<(), ExecError>,
    has_event_sender: bool,
) -> (r: Response)
    ensures
        match outcome {
            Ok(()) => if has_event_sender {
                r matches Response::Response { id: rid, result: JsonValue::String(s) } && rid == id
                    && s@ == subscription_id@
            } else {
                r matches Response::Error { id: rid, error } && rid == id && error@
                    == no_event_sender_error()
            },
            Err(e) => r matches Response::Error { id: rid, error } && rid == id && error@
                == exec_error_report(e@),
        },
{
    match outcome {
        Ok(()) => {
            if has_event_sender {
                Response::Response { id, result: JsonValue::String(subscription_id) }
            } else {
                Error::new(
                    ErrorCode::InternalServerError,
                    String::from_str("Can't add subscription without event sender"),
                ).into_response(id)
            }
        },
        Err(err) => err.into_rspc_err().into_response(id),
    }
}

/// The message forwarded for the next item of a running subscription: an event
/// carrying its value, or the error it failed with, both under the subscription's id.
pub fn subscription_event(subscription_id: &String, key: &String, item: Result<JsonValue, ExecError>) -> (r: Response)
    ensures
        match item {
            Ok(v) => r matches Response::Event { id, key: k, result } && id@ == subscription_id@
                && k@ == key@ && result == v,
            Err(e) => r matches Response::Error { id: Some(rid), error } && rid@ == subscription_id@
                && error@ == exec_error_report(e@),
        },
{
    match item {
        Ok(result) => Response::Event { id: subscription_id.clone(), key: key.clone(), result },
        Err(err) => err.into_rspc_err().into_response(Some(subscription_id.clone())),
    }
}

/// Removes the subscription a `SubscriptionRemove` request names: the one registered
/// under the request's kind with the operation key as both method and id. Hands back
/// its shutdown handle, if there was one; the request itself gets no answer.
pub fn remove_subscription<S>(client: &mut ClientContext<S>, request: &Request) -> (r: (Option<S>, Response))
    ensures
        r.1 is Empty,
        final(client).view() == old(client).view().remove(
            (request.operation.name(), request.key.0@, request.key.0@),
        ),
        r.0 == (if old(client).view().contains_key((request.operation.name(), request.key.0@, request.key.0@)) {
            Some(old(client).view()[(request.operation.name(), request.key.0@, request.key.0@)])
        } else {
            None
        }),
{
    let removed = client.unregister(request.operation.to_string(), request.key.0.clone(), request.key.0.clone());
    (removed, Response::Empty)
}

/// The request a `GET` to the router's endpoint makes: a query of the procedure
/// the path names, called with the input read from the query string, or with `null`
/// when there is none. It has no id.
pub fn query_request(key: String, input: Option<JsonValue>) -> (r: Request)
    ensures
        r.id is None,
        r.operation == OperationKind::Query,
        r.key.0@ == key@,
        r.key.1 == Some(
            match input {
                Some(v) => v,
                None => JsonValue::Null,
            },
        ),
{
    let arg = match input {
        Some(v) => v,
        None => JsonValue::Null,
    };
    Request { id: None, operation: OperationKind::Query, key: OperationKey(key, Some(arg)) }
}

/// The request a `POST` to the router's endpoint makes: a mutation of the procedure
/// the path names, called with the body's JSON value, if any. It has no id.
pub fn mutation_request(key: String, input: Option<JsonValue>) -> (r: Request)
    ensures
        r.id is None,
        r.operation == OperationKind::Mutation,
        r.key.0@ == key@,
        r.key.1 == input,
{
    Request { id: None, operation: OperationKind::Mutation, key: OperationKey(key, input) }
}

/// The answer to a websocket message that could not be read as a request: the
/// deserialisation error, caused by the JSON error described by `cause`, with no id.
pub fn unreadable_request_response(cause: String) -> (r: Response)
    ensures
        r matches Response::Error { id: None, error } && error@ == exec_error_report(
            ExecErrorView::DeserializingArgErr(cause@),
        ),
{
    ExecError::DeserializingArgErr(cause).into_rspc_err().into_response(None)
}

/// The answer to a websocket request `id` whose context function failed with `err`.
/// A context built directly reports the error as any execution error is reported;
/// one built by awaiting a future reports an internal server error whose message is
/// the error's text.
pub fn socket_context_failure(id: Option<String>, err: ExecError, awaited: bool) -> (r: Response)
    ensures
        r matches Response::Error { id: rid, error } && rid == id && error@ == (if awaited {
            ErrorView {
                code: ErrorCode::InternalServerError,
                message: exec_error_text(err@),
                cause: None,
            }
        } else {
            exec_error_report(err@)
        }),
{
    if awaited {
        let message = err.to_display_string();
        Error::new(ErrorCode::InternalServerError, message).into_response(id)
    } else {
        err.into_rspc_err().into_response(id)
    }
}

/// What answering a request takes.
#[derive(Debug, Clone, Copy, PartialEq, Eq, Structural)]
pub enum RequestAction {
    /// Run the query and answer with [`value_response`].
    RunQuery,
    /// Run the mutation and answer with [`value_response`].
    RunMutation,
    /// Register the subscription with [`start_subscription`], start it and answer
    /// with [`subscription_added_response`].
    AddSubscription,
    /// Remove the subscription with [`remove_subscription`].
    RemoveSubscription,
}

impl Request {
    /// What answering the request takes, by the kind of operation it asks for.
    pub fn action(&self) -> (r: RequestAction)
        ensures
            r == match self.operation {
                OperationKind::Query => RequestAction::RunQuery,
                OperationKind::Mutation => RequestAction::RunMutation,
                OperationKind::SubscriptionAdd => RequestAction::AddSubscription,
                OperationKind::SubscriptionRemove => RequestAction::RemoveSubscription,
            },
    {
        match self.operation {
            OperationKind::Query => RequestAction::RunQuery,
            OperationKind::Mutation => RequestAction::RunMutation,
            OperationKind::SubscriptionAdd => RequestAction::AddSubscription,
            OperationKind::SubscriptionRemove => RequestAction::RemoveSubscription,
        }
    }
}

/// The body of a reply of the router's HTTP endpoint.
#[derive(Debug)]
pub enum EndpointBody {
    /// The answers, as a JSON list.
    Answers(Vec<Response>),
    /// The text with which the body was rejected.
    Rejection(String),
}

/// A reply of the router's HTTP endpoint: its status and body.
#[derive(Debug)]
pub struct EndpointReply {
    pub status: u16,
    pub body: EndpointBody,
}

/// What the router's HTTP endpoint does with a request before its context function
/// would run: reply at once, or run the context function and then the request.
#[derive(Debug)]
pub enum EndpointStep {
    Reply(EndpointReply),
    Run(Request),
}

/// A `GET` to the router's endpoint for the procedure `key`, with the `input` query
/// parameter, if any, read as JSON (or the reason it could not be). An input that is
/// not JSON is answered with `400` and no answers, without running the context
/// function; otherwise the query runs, with `null` for a missing input.
pub fn endpoint_get(key: String, input: Option<Result<JsonValue, String>>) -> (r: EndpointStep)
    ensures
        match input {
            Some(Err(_)) => r matches EndpointStep::Reply(reply) && reply.status == 400
                && (reply.body matches EndpointBody::Answers(v) && v@.len() == 0),
            Some(Ok(v)) => r matches EndpointStep::Run(req) && req.id is None && req.operation
                == OperationKind::Query && req.key.0@ == key@ && req.key.1 == Some(v),
            None => r matches EndpointStep::Run(req) && req.id is None && req.operation
                == OperationKind::Query && req.key.0@ == key@ && req.key.1 == Some(JsonValue::Null),
        },
{
    match input {
        Some(Err(_)) => {
            let answers: Vec<Response> = Vec::new();
            EndpointStep::Reply(EndpointReply { status: 400, body: EndpointBody::Answers(answers) })
        },
        Some(Ok(v)) => EndpointStep::Run(query_request(key, Some(v))),
        None => EndpointStep::Run(query_request(key, None)),
    }
}

/// A `POST` to the router's endpoint for the procedure `key`, with its body read as
/// JSON (`None` for `null`), or the text with which the body was rejected. A
/// rejected body is answered with `400` and that text, without running the context
/// function; otherwise the mutation runs with the body's value.
pub fn endpoint_post(key: String, body: Result<Option<JsonValue>, String>) -> (r: EndpointStep)
    ensures
        match body {
            Err(text) => r matches EndpointStep::Reply(reply) && reply.status == 400
                && (reply.body matches EndpointBody::Rejection(t) && t@ == text@),
            Ok(arg) => r matches EndpointStep::Run(req) && req.id is None && req.operation
                == OperationKind::Mutation && req.key.0@ == key@ && req.key.1 == arg,
        },
{
    match body {
        Err(text) => EndpointStep::Reply(EndpointReply { status: 400, body: EndpointBody::Rejection(text) }),
        Ok(arg) => EndpointStep::Run(mutation_request(key, arg)),
    }
}

/// The reply of the router's HTTP endpoint once the context function ran: `200` and
/// the one answer to the request, or, when the context function failed, the error it
/// failed with as the one answer, with no id.
pub fn endpoint_answer(outcome: Result<Response, ExecError>) -> (r: EndpointReply)
    ensures
        r.status == 200,
        match outcome {
            Ok(resp) => r.body matches EndpointBody::Answers(v) && v@ == seq![resp],
            Err(e) => r.body matches EndpointBody::Answers(v) && v@.len() == 1 && (v@[0] matches Response::Error {
                id: None,
                error,
            } && error@ == exec_error_report(e@)),
        },
{
    let resp = match outcome {
        Ok(resp) => resp,
        Err(e) => e.into_rspc_err().into_response(None),
    };
    let mut answers: Vec<Response> = Vec::new();
    answers.push(resp);
    EndpointReply { status: 200, body: EndpointBody::Answers(answers) }
}

/// What the legacy socket handler does with a text message once read: send the
/// error for a message that is not a request (see [`unreadable_request_response`]),
/// or run the one request it is, after running the context function once.
#[derive(Debug)]
pub enum SocketMessageStep {
    Send(Response),
    Run(Request),
}

/// What the legacy socket handler does with a text message, read as a request or
/// with the reason it could not be.
pub fn socket_message(parsed: Result<Request, String>) -> (r: SocketMessageStep)
    ensures
        match parsed {
            Ok(req) => r == SocketMessageStep::Run(req),
            Err(text) => r matches SocketMessageStep::Send(Response::Error { id: None, error })
                && error@ == exec_error_report(ExecErrorView::DeserializingArgErr(text@)),
        },
{
    match parsed {
        Ok(req) => SocketMessageStep::Run(req),
        Err(text) => SocketMessageStep::Send(unreadable_request_response(text)),
    }
}

/// A subscription is registered under the name of the kind of request that added it,
/// and a removal looks it up under the name of its own kind; the two names differ,
/// so a removal request never finds a subscription by the kind it was added with.
pub proof fn law_add_and_remove_use_distinct_kind_names()
    ensures
        OperationKind::SubscriptionAdd.name() != OperationKind::SubscriptionRemove.name(),
{
    reveal_strlit("subscriptionAdd");
    reveal_strlit("subscriptionRemove");
    assert(OperationKind::SubscriptionAdd.name().len() != OperationKind::SubscriptionRemove.name().len());
}

} // verus!

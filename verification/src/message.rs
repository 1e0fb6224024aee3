//! The message protocol spoken over a socket or an event channel: each request
//! names a method, an operation and an argument, and is answered with a response,
//! with events for subscriptions, or not at all.

use vstd::prelude::*;

use crate::error::ExecError;
use crate::json::{JsonValue, is_empty_object};

verus! {

/// The kind of a request.
#[derive(Debug, Clone, Copy, PartialEq, Eq, Structural)]
pub enum MessageMethod {
    Query,
    Mutation,
    SubscriptionAdd,
    SubscriptionRemove,
}

/// A request: which method to run on which operation, with what argument.
#[derive(Debug)]
pub struct Request {
    pub id: Option<String>,
    pub method: MessageMethod,
    pub operation: String,
    pub arg: Option<JsonValue>,
}

/// An event of a subscription: the operation it belongs to and the value it carries.
#[derive(Debug)]
pub struct EventResult {
    pub key: String,
    pub result: JsonValue,
}

/// The outcome of a request.
#[derive(Debug)]
pub enum ResponseResult {
    Success { id: Option<String>, result: JsonValue },
    Error,
}

/// What is sent back to the client.
#[derive(Debug)]
pub enum Response {
    Event(EventResult),
    Response(ResponseResult),
    /// No reply is sent.
    Empty,
}

/// What has to be done to answer a request.
#[derive(Debug)]
pub enum Dispatch {
    /// Run the query `operation` with `arg`, then answer with [`query_response`].
    Query { operation: String, arg: JsonValue },
    /// Run the mutation `operation` with `arg`, then answer with [`query_response`].
    Mutation { operation: String, arg: JsonValue },
    /// Start the subscription `operation` with `arg`, answer with [`subscription_response`]
    /// and forward its events with [`forward_event`].
    Subscribe { operation: String, arg: JsonValue },
    /// Answer at once with this response; nothing is run.
    Reply(Response),
}

/// The argument an operation is run with: an empty object counts as `null`,
/// and so does a missing argument.
pub open spec fn effective_arg(arg: Option<JsonValue>) -> JsonValue {
    match arg {
        Some(v) => if is_empty_object(v) { JsonValue::Null } else { v },
        None => JsonValue::Null,
    }
}

/// The argument an operation is run with.
pub fn effective_argument(arg: Option<JsonValue>) -> (r: JsonValue)
    ensures
        r == effective_arg(arg),
{
    match arg {
        Some(v) => {
            if v.is_empty_object() {
                JsonValue::Null
            } else {
                v
            }
        },
        None => JsonValue::Null,
    }
}

impl Request {
    /// Decides how a request is answered. A subscription can only be started where
    /// there is a channel to send its events on; otherwise the request is answered
    /// with an error at once.
    ///
    /// Removing a subscription is not supported, so such a request is not accepted.
    pub fn dispatch(self, has_event_sender: bool) -> (r: (Option<String>, Dispatch))
        requires
            self.method != MessageMethod::SubscriptionRemove,
        ensures
            r.0 == self.id,
            match self.method {
                MessageMethod::Query => r.1 matches Dispatch::Query { operation, arg }
                    && operation@ == self.operation@ && arg == effective_arg(self.arg),
                MessageMethod::Mutation => r.1 matches Dispatch::Mutation { operation, arg }
                    && operation@ == self.operation@ && arg == effective_arg(self.arg),
                MessageMethod::SubscriptionAdd => if has_event_sender {
                    r.1 matches Dispatch::Subscribe { operation, arg }
                        && operation@ == self.operation@ && arg == effective_arg(self.arg)
                } else {
                    r.1 matches Dispatch::Reply(Response::Response(ResponseResult::Error))
                },
                MessageMethod::SubscriptionRemove => false,
            },
    {
        let arg = effective_argument(self.arg);
        let d = match self.method {
            MessageMethod::Query => Dispatch::Query { operation: self.operation, arg },
            MessageMethod::Mutation => Dispatch::Mutation { operation: self.operation, arg },
            MessageMethod::SubscriptionAdd => {
                if has_event_sender {
                    Dispatch::Subscribe { operation: self.operation, arg }
                } else {
                    Dispatch::Reply(Response::Response(ResponseResult::Error))
                }
            },
            MessageMethod::SubscriptionRemove => Dispatch::Reply(Response::Empty),
        };
        (self.id, d)
    }
}

/// The answer to a query or mutation once it has run: its result, or an error.
pub fn query_response(id: Option<String>, outcome: Result<JsonValue, ExecError>) -> (r: Response)
    ensures
        match outcome {
            Ok(v) => r == Response::Response(ResponseResult::Success { id, result: v }),
            Err(_) => r == Response::Response(ResponseResult::Error),
        },
{
    match outcome {
        Ok(result) => Response::Response(ResponseResult::Success { id, result }),
        Err(_) => Response::Response(ResponseResult::Error),
    }
}

/// The answer to a subscription request once the subscription was started or failed
/// to start: nothing when it runs (its events follow), an error otherwise.
pub fn subscription_response(outcome: Result<(), ExecError>) -> (r: Response)
    ensures
        outcome is Ok ==> r is Empty,
        outcome is Err ==> r == Response::Response(ResponseResult::Error),
{
    match outcome {
        Ok(()) => Response::Empty,
        Err(_) => Response::Response(ResponseResult::Error),
    }
}

/// What a running subscription sends for the next item of its stream: an event for
/// a value; nothing, which ends the subscription, for an error.
pub fn forward_event(operation: &String, item: Result<JsonValue, ExecError>) -> (r: Option<Response>)
    ensures
        match item {
            Ok(v) => r matches Some(Response::Event(e)) && e.key@ == operation@ && e.result == v,
            Err(_) => r is None,
        },
{
    match item {
        Ok(result) => Some(Response::Event(EventResult { key: operation.clone(), result })),
        Err(_) => None,
    }
}

/// An argument reaches the operation unchanged, with two exceptions that both
/// become `null`: a missing argument, and the empty object `{}`. In particular an
/// object with members is passed on as it is.
pub proof fn law_arguments_pass_unchanged(v: JsonValue)
    ensures
        (v matches JsonValue::Object(members) && members@.len() > 0) ==> effective_arg(Some(v)) == v,
        !(v is Object) ==> effective_arg(Some(v)) == v,
        (v matches JsonValue::Object(members) && members@.len() == 0) ==> effective_arg(Some(v))
            == JsonValue::Null,
        effective_arg(None) == JsonValue::Null,
{
}

} // verus!

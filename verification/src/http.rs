//! How the HTTP endpoint treats a request: which handler a method and path go to,
//! which procedure a path names, where a procedure's input is read from, what status
//! an answer carries, and what each websocket message is taken as.

use vstd::prelude::*;

use crate::handle_request::{OperationKey, OperationKind, Request};
use crate::json::JsonValue;
use crate::procedure_store::str_eq;

verus! {

/// The HTTP methods the endpoint is registered for.
#[derive(Debug, Clone, Copy, PartialEq, Eq, Structural)]
pub enum HttpMethod {
    Get,
    Post,
}

/// The kind of a procedure: a query, a mutation or a subscription.
#[derive(Debug, Clone, Copy, PartialEq, Eq, Structural)]
pub enum ProcedureKind {
    Query,
    Mutation,
    Subscription,
}

/// The handler a request goes to.
#[derive(Debug, Clone, Copy, PartialEq, Eq, Structural)]
pub enum Route {
    /// Upgrade to a websocket.
    Websocket,
    /// Run one procedure of the given kind.
    Procedure(ProcedureKind),
    /// Run a batch of requests given in the body.
    Batch,
}

/// The procedure name a request path names: the path without its leading `/`.
pub open spec fn path_name(path: Seq<char>) -> Seq<char> {
    path.drop_first()
}

/// Where a request goes. `GET /ws` opens a websocket, any other `GET` runs a query;
/// `POST /_batch` runs a batch where batches are supported, any other `POST` runs a
/// mutation.
pub open spec fn route_of(method: HttpMethod, path: Seq<char>, batches: bool) -> Route {
    match method {
        HttpMethod::Get => if path_name(path) == "ws"@ {
            Route::Websocket
        } else {
            Route::Procedure(ProcedureKind::Query)
        },
        HttpMethod::Post => if batches && path_name(path) == "_batch"@ {
            Route::Batch
        } else {
            Route::Procedure(ProcedureKind::Mutation)
        },
    }
}

/// The name of the procedure a request path names. The path is not empty and starts
/// with a one-byte character, as the path of a request URI does (`/`).
pub fn procedure_name(path: &str) -> (r: String)
    requires
        path@.len() > 0,
        (path@[0] as u32) < 128,
    ensures
        r@ == path_name(path@),
{
    let n = path.unicode_len();
    let s = path.substring_char(1, n);
    assert(path@.subrange(1, n as int) =~= path@.drop_first());
    s.to_string()
}

/// The handler a request goes to (see [`route_of`]).
pub fn route_request(method: HttpMethod, path: &str, batches: bool) -> (r: Route)
    requires
        path@.len() > 0,
        (path@[0] as u32) < 128,
    ensures
        r == route_of(method, path@, batches),
{
    let name = procedure_name(path);
    match method {
        HttpMethod::Get => {
            if str_eq(name.as_str(), "ws") {
                Route::Websocket
            } else {
                Route::Procedure(ProcedureKind::Query)
            }
        },
        HttpMethod::Post => {
            if batches && str_eq(name.as_str(), "_batch") {
                Route::Batch
            } else {
                Route::Procedure(ProcedureKind::Mutation)
            }
        },
    }
}

/// The raw input of a `GET` request: the value of its first `input` query parameter.
pub fn query_input(pairs: &Vec<(String, String)>) -> (r: Option<&String>)
    ensures
        match r {
            Some(v) => exists|i: int|
                0 <= i < pairs@.len() && (#[trigger] pairs@[i]).0@ == "input"@ && pairs@[i].1 == *v
                    && forall|j: int| 0 <= j < i ==> (#[trigger] pairs@[j]).0@ != "input"@,
            None => forall|i: int| 0 <= i < pairs@.len() ==> (#[trigger] pairs@[i]).0@ != "input"@,
        },
{
    let mut i: usize = 0;
    while i < pairs.len()
        invariant
            i <= pairs@.len(),
            forall|j: int| 0 <= j < i ==> (#[trigger] pairs@[j]).0@ != "input"@,
        decreases pairs@.len() - i,
    {
        if str_eq(pairs[i].0.as_str(), "input") {
            return Some(&pairs[i].1);
        }
        i = i + 1;
    }
    None
}

/// Whether a `POST` request carries an input: only a non-empty body does.
pub fn body_has_input(body: &[u8]) -> (r: bool)
    ensures
        r == (body@.len() > 0),
{
    body.len() > 0
}

/// How answering an HTTP request ended.
#[derive(Debug, Clone, Copy, PartialEq, Eq, Structural)]
pub enum HttpOutcome {
    /// The procedure ran and its answer was serialised.
    Answered,
    /// The input could not be read as JSON.
    InvalidInput,
    /// The body of a batch could not be read as a list of requests.
    InvalidBatch,
    /// The context function failed.
    ContextFailed,
    /// A subscription was asked for over HTTP.
    SubscriptionOverHttp,
    /// The server the endpoint runs on cannot upgrade to a websocket.
    WebsocketsUnsupported,
    /// The context function failed for a websocket request.
    SocketContextFailed,
    /// The answer could not be serialised.
    SerializationFailed,
}

/// The status code of the HTTP reply.
pub open spec fn status_of(outcome: HttpOutcome) -> u16 {
    match outcome {
        HttpOutcome::Answered => 200,
        HttpOutcome::InvalidInput => 404,
        _ => 500,
    }
}

/// The status code of the HTTP reply.
pub fn reply_status(outcome: HttpOutcome) -> (r: u16)
    ensures
        r == status_of(outcome),
{
    match outcome {
        HttpOutcome::Answered => 200,
        HttpOutcome::InvalidInput => 404,
        _ => 500,
    }
}

/// Whether the reply is a JSON reply: every reply is, but the bare replies refusing a
/// websocket.
pub open spec fn is_json_reply(outcome: HttpOutcome) -> bool {
    !(outcome == HttpOutcome::WebsocketsUnsupported || outcome == HttpOutcome::SocketContextFailed)
}

/// The `Content-Type` header of the reply: `application/json` for a JSON reply
/// (see [`is_json_reply`]), none otherwise.
pub fn reply_content_type(outcome: HttpOutcome) -> (r: Option<&'static str>)
    ensures
        r is Some <==> is_json_reply(outcome),
        r matches Some(t) ==> t@ == "application/json"@,
{
    match outcome {
        HttpOutcome::WebsocketsUnsupported => None,
        HttpOutcome::SocketContextFailed => None,
        _ => Some("application/json"),
    }
}

/// The body of a reply that carries no answer: an empty JSON list for a JSON reply,
/// an empty body otherwise.
pub open spec fn failure_body_of(outcome: HttpOutcome) -> Seq<u8> {
    if is_json_reply(outcome) {
        seq![91u8, 93u8]
    } else {
        Seq::empty()
    }
}

/// The body of a reply that carries no answer (see [`failure_body_of`]); an answer's
/// body is the serialised answer itself.
pub fn failure_body(outcome: HttpOutcome) -> (r: Vec<u8>)
    requires
        outcome != HttpOutcome::Answered,
    ensures
        r@ == failure_body_of(outcome),
{
    match outcome {
        HttpOutcome::WebsocketsUnsupported => Vec::new(),
        HttpOutcome::SocketContextFailed => Vec::new(),
        _ => {
            let v: Vec<u8> = vec![91u8, 93u8];
            v
        },
    }
}

/// Which cookies a reply sends back.
#[derive(Debug, Clone, Copy, PartialEq, Eq, Structural)]
pub enum ReplyCookies {
    /// The jar as the context function and the procedures left it.
    Jar,
    /// The cookies the request came with; changes made by the context function are dropped.
    Request,
    /// No cookies.
    Without,
}

/// The cookies a reply sends back: the jar's once the procedure ran (whether or not
/// its answer could be serialised), the request's own when the request was refused,
/// and none with the bare replies refusing a websocket.
pub open spec fn cookies_of(outcome: HttpOutcome) -> ReplyCookies {
    match outcome {
        HttpOutcome::Answered | HttpOutcome::SerializationFailed => ReplyCookies::Jar,
        HttpOutcome::WebsocketsUnsupported | HttpOutcome::SocketContextFailed => ReplyCookies::Without,
        _ => ReplyCookies::Request,
    }
}

/// The cookies a reply sends back (see [`cookies_of`]).
pub fn reply_cookies(outcome: HttpOutcome) -> (r: ReplyCookies)
    ensures
        r == cookies_of(outcome),
{
    match outcome {
        HttpOutcome::Answered => ReplyCookies::Jar,
        HttpOutcome::SerializationFailed => ReplyCookies::Jar,
        HttpOutcome::WebsocketsUnsupported => ReplyCookies::Without,
        HttpOutcome::SocketContextFailed => ReplyCookies::Without,
        _ => ReplyCookies::Request,
    }
}

/// What the endpoint does with a request once it knows where the request goes,
/// whether its input could be read and whether the context function succeeded.
#[derive(Debug, Clone, Copy, PartialEq, Eq, Structural)]
pub enum HttpPlan {
    /// Reply at once, without running anything.
    Reply(HttpOutcome),
    /// Upgrade the connection to a websocket.
    Upgrade,
    /// Run one procedure of the given kind.
    Run(ProcedureKind),
    /// Run every request of the batch.
    RunBatch,
}

/// The reply a request gets before the context function would run, if any; the
/// context function runs only where there is none. A websocket is refused where
/// the server does not support it; a procedure whose input is not JSON is answered
/// with `404`, a batch whose body is not a list of requests with `500`.
pub open spec fn pre_context_of(route: Route, websockets: bool, input_ok: bool) -> Option<HttpOutcome> {
    match route {
        Route::Websocket => if websockets {
            None
        } else {
            Some(HttpOutcome::WebsocketsUnsupported)
        },
        Route::Procedure(_) => if input_ok {
            None
        } else {
            Some(HttpOutcome::InvalidInput)
        },
        Route::Batch => if input_ok {
            None
        } else {
            Some(HttpOutcome::InvalidBatch)
        },
    }
}

/// The plan once the context function ran: a failed context function is answered
/// with `500` (a bare reply for a websocket), and so is a subscription, which HTTP
/// cannot carry. Anything else runs, or is upgraded.
pub open spec fn post_context_of(route: Route, ctx_ok: bool) -> HttpPlan {
    match route {
        Route::Websocket => if ctx_ok {
            HttpPlan::Upgrade
        } else {
            HttpPlan::Reply(HttpOutcome::SocketContextFailed)
        },
        Route::Procedure(kind) => if !ctx_ok {
            HttpPlan::Reply(HttpOutcome::ContextFailed)
        } else if kind == ProcedureKind::Subscription {
            HttpPlan::Reply(HttpOutcome::SubscriptionOverHttp)
        } else {
            HttpPlan::Run(kind)
        },
        Route::Batch => if ctx_ok {
            HttpPlan::RunBatch
        } else {
            HttpPlan::Reply(HttpOutcome::ContextFailed)
        },
    }
}

/// The whole plan for a request: the reply before the context function, if any,
/// else the plan once it ran.
pub open spec fn plan_of(route: Route, websockets: bool, input_ok: bool, ctx_ok: bool) -> HttpPlan {
    match pre_context_of(route, websockets, input_ok) {
        Some(outcome) => HttpPlan::Reply(outcome),
        None => post_context_of(route, ctx_ok),
    }
}

/// The reply a request gets before the context function would run (see
/// [`pre_context_of`]); `None` means the context function is to run. `input_ok`
/// says whether the input (for a batch: the body) could be read.
pub fn pre_context_plan(route: Route, websockets: bool, input_ok: bool) -> (r: Option<HttpOutcome>)
    ensures
        r == pre_context_of(route, websockets, input_ok),
{
    match route {
        Route::Websocket => {
            if websockets {
                None
            } else {
                Some(HttpOutcome::WebsocketsUnsupported)
            }
        },
        Route::Procedure(_) => {
            if input_ok {
                None
            } else {
                Some(HttpOutcome::InvalidInput)
            }
        },
        Route::Batch => {
            if input_ok {
                None
            } else {
                Some(HttpOutcome::InvalidBatch)
            }
        },
    }
}

/// The plan once the context function ran (see [`post_context_of`]).
pub fn post_context_plan(route: Route, ctx_ok: bool) -> (r: HttpPlan)
    ensures
        r == post_context_of(route, ctx_ok),
{
    match route {
        Route::Websocket => {
            if ctx_ok {
                HttpPlan::Upgrade
            } else {
                HttpPlan::Reply(HttpOutcome::SocketContextFailed)
            }
        },
        Route::Procedure(kind) => {
            if !ctx_ok {
                HttpPlan::Reply(HttpOutcome::ContextFailed)
            } else {
                match kind {
                    ProcedureKind::Subscription => HttpPlan::Reply(HttpOutcome::SubscriptionOverHttp),
                    _ => HttpPlan::Run(kind),
                }
            }
        },
        Route::Batch => {
            if ctx_ok {
                HttpPlan::RunBatch
            } else {
                HttpPlan::Reply(HttpOutcome::ContextFailed)
            }
        },
    }
}

/// The whole plan for a request (see [`plan_of`]), for callers that know both
/// whether the input could be read and whether the context function succeeded.
pub fn plan_request(route: Route, websockets: bool, input_ok: bool, ctx_ok: bool) -> (r: HttpPlan)
    ensures
        r == plan_of(route, websockets, input_ok, ctx_ok),
{
    match pre_context_plan(route, websockets, input_ok) {
        Some(outcome) => HttpPlan::Reply(outcome),
        None => post_context_plan(route, ctx_ok),
    }
}

/// The request an HTTP request runs: a query or mutation of the procedure the path
/// names, with the input it carried (none when it carried none), and no id.
pub fn http_request(kind: ProcedureKind, path: &str, input: Option<JsonValue>) -> (r: Request)
    requires
        path@.len() > 0,
        (path@[0] as u32) < 128,
        kind != ProcedureKind::Subscription,
    ensures
        r.id is None,
        r.operation == (if kind == ProcedureKind::Query {
            OperationKind::Query
        } else {
            OperationKind::Mutation
        }),
        r.key.0@ == path_name(path@),
        r.key.1 == input,
{
    let operation = match kind {
        ProcedureKind::Query => OperationKind::Query,
        _ => OperationKind::Mutation,
    };
    Request { id: None, operation, key: OperationKey(procedure_name(path), input) }
}

/// The kinds of websocket messages.
#[derive(Debug, Clone, Copy, PartialEq, Eq, Structural)]
pub enum WsMessageKind {
    Text,
    Binary,
    Ping,
    Pong,
    Close,
    Frame,
}

/// What happened on a websocket connection.
#[derive(Debug, Clone, Copy, PartialEq, Eq, Structural)]
pub enum SocketEvent {
    /// A message of this kind arrived.
    Received(WsMessageKind),
    /// Reading the next message failed.
    ReceiveFailed,
    /// The client's stream ended.
    Ended,
    /// Sending to the client failed.
    SendFailed,
}

/// What a socket handler does after an event.
#[derive(Debug, Clone, Copy, PartialEq, Eq, Structural)]
pub enum SocketStep {
    /// Read the message's payload as requests and answer them.
    Handle,
    /// Report that the kind of message is not supported, and go on.
    ReportUnsupported,
    /// Go on with the next event.
    Ignore,
    /// Close the connection.
    Stop,
}

/// What the router's socket handler does: text and binary messages carry requests;
/// pings, pongs and close messages, failed reads and failed sends are passed over;
/// the connection ends when the client's stream ends. Raw frames never reach it.
pub open spec fn socket_step_of(event: SocketEvent) -> SocketStep {
    match event {
        SocketEvent::Received(WsMessageKind::Text) | SocketEvent::Received(WsMessageKind::Binary) => SocketStep::Handle,
        SocketEvent::Ended => SocketStep::Stop,
        _ => SocketStep::Ignore,
    }
}

/// What the router's socket handler does after an event (see [`socket_step_of`]).
pub fn socket_step(event: SocketEvent) -> (r: SocketStep)
    requires
        event != SocketEvent::Received(WsMessageKind::Frame),
    ensures
        r == socket_step_of(event),
{
    match event {
        SocketEvent::Received(WsMessageKind::Text) => SocketStep::Handle,
        SocketEvent::Received(WsMessageKind::Binary) => SocketStep::Handle,
        SocketEvent::Ended => SocketStep::Stop,
        _ => SocketStep::Ignore,
    }
}

/// What the legacy socket handler does: text carries a request; binary messages,
/// pings and pongs are reported as unsupported; a close message is ignored; and the
/// connection ends when reading fails or ends, or a send fails. Raw frames never
/// reach it.
pub open spec fn legacy_socket_step_of(event: SocketEvent) -> SocketStep {
    match event {
        SocketEvent::Received(WsMessageKind::Text) => SocketStep::Handle,
        SocketEvent::Received(WsMessageKind::Close) => SocketStep::Ignore,
        SocketEvent::Received(_) => SocketStep::ReportUnsupported,
        _ => SocketStep::Stop,
    }
}

/// What the legacy socket handler does after an event (see [`legacy_socket_step_of`]).
pub fn legacy_socket_step(event: SocketEvent) -> (r: SocketStep)
    requires
        event != SocketEvent::Received(WsMessageKind::Frame),
    ensures
        r == legacy_socket_step_of(event),
{
    match event {
        SocketEvent::Received(WsMessageKind::Text) => SocketStep::Handle,
        SocketEvent::Received(WsMessageKind::Close) => SocketStep::Ignore,
        SocketEvent::Received(_) => SocketStep::ReportUnsupported,
        _ => SocketStep::Stop,
    }
}

/// Nothing runs and no connection is upgraded unless the context function
/// succeeded; nothing runs unless its input was read; a subscription never runs
/// over HTTP; and every request that does not run is answered with an error status.
pub proof fn law_only_sound_requests_run(route: Route, websockets: bool, input_ok: bool, ctx_ok: bool)
    ensures
        (plan_of(route, websockets, input_ok, ctx_ok) is Run || plan_of(route, websockets, input_ok, ctx_ok) is RunBatch)
            ==> input_ok && ctx_ok,
        plan_of(route, websockets, input_ok, ctx_ok) is Upgrade ==> websockets && ctx_ok,
        plan_of(route, websockets, input_ok, ctx_ok) != HttpPlan::Run(ProcedureKind::Subscription),
        plan_of(route, websockets, input_ok, ctx_ok) matches HttpPlan::Reply(o) ==> status_of(o) >= 400,
{
}

/// The context function never runs for a request whose input (or batch body) could
/// not be read, nor for a websocket the server cannot open; and a reply to such a
/// request sends back the request's own cookies, or none.
pub proof fn law_context_runs_only_for_readable_requests(route: Route, websockets: bool, input_ok: bool)
    ensures
        !(route is Websocket) && !input_ok ==> pre_context_of(route, websockets, input_ok) is Some,
        route is Websocket && !websockets ==> pre_context_of(route, websockets, input_ok) is Some,
        pre_context_of(route, websockets, input_ok) matches Some(o) ==> cookies_of(o) != ReplyCookies::Jar,
{
}

/// A `GET` never runs a mutation and a `POST` never runs a query or opens a websocket.
pub proof fn law_methods_select_kind(path: Seq<char>, batches: bool)
    ensures
        route_of(HttpMethod::Get, path, batches) != Route::Procedure(ProcedureKind::Mutation),
        route_of(HttpMethod::Get, path, batches) != Route::Batch,
        route_of(HttpMethod::Post, path, batches) != Route::Procedure(ProcedureKind::Query),
        route_of(HttpMethod::Post, path, batches) != Route::Websocket,
{
}

/// A `POST` runs a batch only for the path `/_batch` (and only where batches are
/// taken); every other `POST` runs a mutation. A `GET` opens a websocket only for
/// the path `/ws`; every other `GET` runs a query. The name is the path without its
/// first character.
pub proof fn law_routes_by_name(path: Seq<char>, batches: bool)
    requires
        path.len() > 0,
    ensures
        route_of(HttpMethod::Post, path, batches) == Route::Batch <==> (batches && path.subrange(1, path.len() as int)
            == "_batch"@),
        route_of(HttpMethod::Post, path, batches) != Route::Batch ==> route_of(HttpMethod::Post, path, batches)
            == Route::Procedure(ProcedureKind::Mutation),
        route_of(HttpMethod::Get, path, batches) == Route::Websocket <==> path.subrange(1, path.len() as int)
            == "ws"@,
        route_of(HttpMethod::Get, path, batches) != Route::Websocket ==> route_of(HttpMethod::Get, path, batches)
            == Route::Procedure(ProcedureKind::Query),
{
    assert(path.subrange(1, path.len() as int) =~= path.drop_first());
}

} // verus!

//! How a middleware layer runs: first the middleware itself, then the next layer
//! with the context, input and request the middleware produced, then, if the
//! middleware asked for one, its response handler on the next layer's value.

use vstd::prelude::*;

verus! {

/// Which future of the layer is running.
#[derive(Debug)]
pub enum MwStage<H> {
    /// The middleware runs.
    Middleware,
    /// The next layer runs; `resp` is the response handler the middleware gave, if any.
    Next { resp: Option<H> },
    /// The response handler runs on the next layer's value.
    Resp,
    /// The layer has produced its result.
    Done,
}

/// What a layer produces: a single value or a stream of them.
#[derive(Debug)]
pub enum LayerOutput<V, S> {
    Value(V),
    Stream(S),
}

/// What polling the running future gave. `M` is what the middleware hands on to
/// the next layer (its context, input and request), `H` its response handler, and
/// `V`, `S` and `E` the value, stream and error a layer can end with.
#[derive(Debug)]
pub enum PollEvent<M, H, V, S, E> {
    /// The running future is not ready.
    Pending,
    /// The middleware finished: what it hands on, and its response handler, if any.
    MiddlewareReady { call: M, resp: Option<H> },
    /// The next layer finished with this result.
    NextReady(Result<LayerOutput<V, S>, E>),
    /// The response handler finished with this value.
    RespReady(V),
}

/// What the layer does after a poll of its running future.
#[derive(Debug)]
pub enum PollAction<M, H, V, S, E> {
    /// Report that the layer is not ready.
    Wait,
    /// Call the next layer with what the middleware handed on, and poll it at once.
    CallNext(M),
    /// Call the response handler on the next layer's value, and poll it at once.
    CallResp { handler: H, value: V },
    /// Finish with this result.
    Return(Result<LayerOutput<V, S>, E>),
}

/// The events that can happen in a stage, and that the layer handles: a finished
/// layer is never polled again, and a response handler only ever gets a value
/// (the layer does not support handlers on streams or on failed results).
pub open spec fn handled<M, H, V, S, E>(stage: MwStage<H>, event: PollEvent<M, H, V, S, E>) -> bool {
    match (stage, event) {
        (MwStage::Done, _) => false,
        (_, PollEvent::Pending) => true,
        (MwStage::Middleware, PollEvent::MiddlewareReady { .. }) => true,
        (MwStage::Next { resp }, PollEvent::NextReady(result)) => resp is None || result matches Ok(
            LayerOutput::Value(_),
        ),
        (MwStage::Resp, PollEvent::RespReady(_)) => true,
        _ => false,
    }
}

/// The stage after an event, and what the layer does. The next layer gets exactly
/// what the middleware handed on; without a response handler the layer ends with
/// the next layer's result unchanged, with one it ends with the handler's value.
pub open spec fn step<M, H, V, S, E>(stage: MwStage<H>, event: PollEvent<M, H, V, S, E>) -> (
    MwStage<H>,
    PollAction<M, H, V, S, E>,
) {
    match event {
        PollEvent::Pending => (stage, PollAction::Wait),
        PollEvent::MiddlewareReady { call, resp } => (MwStage::Next { resp }, PollAction::CallNext(call)),
        PollEvent::NextReady(result) => match stage {
            MwStage::Next { resp } => match resp {
                None => (MwStage::Done, PollAction::Return(result)),
                Some(handler) => match result {
                    Ok(LayerOutput::Value(value)) => (MwStage::Resp, PollAction::CallResp { handler, value }),
                    _ => (MwStage::Next { resp: Some(handler) }, PollAction::Wait),
                },
            },
            _ => (stage, PollAction::Wait),
        },
        PollEvent::RespReady(value) => (MwStage::Done, PollAction::Return(Ok(LayerOutput::Value(value)))),
    }
}

/// Advances the layer by one poll of its running future.
pub fn poll_step<M, H, V, S, E>(stage: MwStage<H>, event: PollEvent<M, H, V, S, E>) -> (r: (
    MwStage<H>,
    PollAction<M, H, V, S, E>,
))
    requires
        handled(stage, event),
    ensures
        r == step(stage, event),
{
    match event {
        PollEvent::Pending => (stage, PollAction::Wait),
        PollEvent::MiddlewareReady { call, resp } => (MwStage::Next { resp }, PollAction::CallNext(call)),
        PollEvent::NextReady(result) => match stage {
            MwStage::Next { resp } => match resp {
                None => (MwStage::Done, PollAction::Return(result)),
                Some(handler) => match result {
                    Ok(LayerOutput::Value(value)) => (MwStage::Resp, PollAction::CallResp { handler, value }),
                    _ => (MwStage::Next { resp: Some(handler) }, PollAction::Wait),
                },
            },
            other => (other, PollAction::Wait),
        },
        PollEvent::RespReady(value) => (MwStage::Done, PollAction::Return(Ok(LayerOutput::Value(value)))),
    }
}

/// Waiting never changes the stage, and a layer finishes exactly when it returns.
pub proof fn law_step_finishes_only_by_returning<M, H, V, S, E>(
    stage: MwStage<H>,
    event: PollEvent<M, H, V, S, E>,
)
    requires
        handled(stage, event),
    ensures
        event is Pending ==> step(stage, event).0 == stage && step(stage, event).1 is Wait,
        (step(stage, event).0 is Done) <==> (step(stage, event).1 is Return),
{
}

/// The middleware's context, input and request reach the next layer unchanged.
/// Without a response handler the layer ends with the next layer's result as it
/// is; with one, the handler gets the next layer's value and the layer ends with
/// the handler's value.
pub proof fn law_layer_passes_values_on<M, H, V, S, E>(event: PollEvent<M, H, V, S, E>, handler: H)
    ensures
        event matches PollEvent::MiddlewareReady { call, resp } ==> step(MwStage::Middleware, event) matches (
            MwStage::Next { resp: r },
            PollAction::CallNext(c),
        ) && r == resp && c == call,
        event matches PollEvent::NextReady(result) ==> step(MwStage::Next { resp: None }, event) matches (
            MwStage::Done,
            PollAction::Return(r),
        ) && r == result,
        event matches PollEvent::NextReady(Ok(LayerOutput::Value(value))) ==> step(
            MwStage::Next { resp: Some(handler) },
            event,
        ) matches (MwStage::Resp, PollAction::CallResp { handler: h, value: v }) && h == handler && v == value,
        event matches PollEvent::RespReady(value) ==> step(MwStage::Resp, event) matches (
            MwStage::Done,
            PollAction::Return(Ok(LayerOutput::Value(v))),
        ) && v == value,
{
}

} // verus!

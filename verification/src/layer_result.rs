//! How the outcome of a resolver or a middleware becomes the result of a layer:
//! a resolver's own error is passed on as a resolver error, a value that cannot
//! be serialised becomes a serialisation error, and a response handler runs on
//! each value a layer produces while errors pass it by.

use vstd::prelude::*;

use crate::error::{Error, ExecError, ExecErrorView};
use crate::json::JsonValue;

verus! {

/// The result of a layer from a resolver's outcome: the resolver's error becomes a
/// resolver error; otherwise the outcome of serialising its value decides, a
/// failure (described by its text) becoming a serialisation error.
pub fn resolver_result(outcome: Result<Result<JsonValue, String>, Error>) -> (r: Result<JsonValue, ExecError>)
    ensures
        match outcome {
            Err(e) => r matches Err(x) && x@ == ExecErrorView::ErrResolverError(e@),
            Ok(Ok(v)) => r == Ok::<JsonValue, ExecError>(v),
            Ok(Err(text)) => r matches Err(x) && x@ == ExecErrorView::SerializingResultErr(text@),
        },
{
    match outcome {
        Err(e) => Err(ExecError::ErrResolverError(e)),
        Ok(Ok(v)) => Ok(v),
        Ok(Err(text)) => Err(ExecError::SerializingResultErr(text)),
    }
}

/// The result of a layer from a serialised value alone.
pub fn serialized_result(serialized: Result<JsonValue, String>) -> (r: Result<JsonValue, ExecError>)
    ensures
        match serialized {
            Ok(v) => r == Ok::<JsonValue, ExecError>(v),
            Err(text) => r matches Err(x) && x@ == ExecErrorView::SerializingResultErr(text@),
        },
{
    match serialized {
        Ok(v) => Ok(v),
        Err(text) => Err(ExecError::SerializingResultErr(text)),
    }
}

/// What a middleware's response handler does with an item its layer produced.
#[derive(Debug)]
pub enum HandlerStep {
    /// Run the handler on the value.
    Apply(JsonValue),
    /// Pass the error on without running the handler.
    PassThrough(ExecError),
}

/// What the response handler does with an item: it runs on values; errors pass it by.
pub fn handler_step(item: Result<JsonValue, ExecError>) -> (r: HandlerStep)
    ensures
        match item {
            Ok(v) => r == HandlerStep::Apply(v),
            Err(e) => r == HandlerStep::PassThrough(e),
        },
{
    match item {
        Ok(v) => HandlerStep::Apply(v),
        Err(e) => HandlerStep::PassThrough(e),
    }
}

/// The result of a response handler (or of a middleware's own handler): its error
/// becomes a resolver error.
pub fn handler_result(result: Result<JsonValue, Error>) -> (r: Result<JsonValue, ExecError>)
    ensures
        match result {
            Ok(v) => r == Ok::<JsonValue, ExecError>(v),
            Err(e) => r matches Err(x) && x@ == ExecErrorView::ErrResolverError(e@),
        },
{
    match result {
        Ok(v) => Ok(v),
        Err(e) => Err(ExecError::ErrResolverError(e)),
    }
}

} // verus!

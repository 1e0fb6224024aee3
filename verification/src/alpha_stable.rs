//! Building blocks of the alpha API that the legacy router relies on: the kind of
//! a request procedure and the markers that select how a resolver's result is
//! turned into a response.

use core::marker::PhantomData;
use vstd::prelude::*;

verus! {

/// Whether a request procedure is a query or a mutation.
#[derive(Debug, Clone, Copy, PartialEq, Eq, Structural)]
pub enum RequestKind {
    Query,
    Mutation,
}

/// Marks a procedure that answers a single request, and records its kind.
pub struct RequestLayerMarker<T>(RequestKind, PhantomData<T>);

impl<T> RequestLayerMarker<T> {
    /// A marker for a request procedure of the given kind.
    pub fn new(kind: RequestKind) -> (r: Self)
        ensures
            r.spec_kind() == kind,
    {
        RequestLayerMarker(kind, PhantomData)
    }

    /// The kind of the procedure.
    pub closed spec fn spec_kind(&self) -> RequestKind {
        self.0
    }

    /// The kind of the procedure.
    pub fn kind(&self) -> (r: RequestKind)
        ensures
            r == self.spec_kind(),
    {
        self.0
    }
}

/// Marks a procedure that answers with a stream of events (a subscription).
pub struct StreamLayerMarker<T>(PhantomData<T>);

impl<T> StreamLayerMarker<T> {
    /// A marker for a subscription procedure.
    pub fn new() -> Self {
        StreamLayerMarker(PhantomData)
    }
}

/// Ties together the argument, result, result marker and context types of a resolver.
pub struct Marker<A, B, C, D>(PhantomData<(A, B, C, D)>);

/// The resolver of a procedure whose resolver has not been given yet.
pub struct MissingResolver<TLayerCtx> {
    phantom: PhantomData<TLayerCtx>,
}

impl<TLayerCtx> MissingResolver<TLayerCtx> {
    /// The placeholder resolver.
    pub fn new() -> Self {
        MissingResolver { phantom: PhantomData }
    }
}

/// A resolver result that is a serialisable value.
pub struct AlphaSerializeMarker;

/// A resolver result that is a `Result` of a serialisable value.
pub struct AlphaResultMarker;

/// A resolver result that is a future of a serialisable value.
pub struct AlphaFutureSerializeMarker;

/// A resolver result that is a future of a `Result` of a serialisable value.
pub struct AlphaFutureResultMarker;

/// A subscription resolver result that is a stream of serialisable values.
pub struct AlphaStreamMarker;

/// A subscription resolver result that is a `Result` of a stream.
pub struct AlphaResultStreamMarker;

/// A subscription resolver result that is a future of a stream.
pub struct AlphaFutureStreamMarker;

/// A subscription resolver result that is a future of a `Result` of a stream.
pub struct AlphaFutureResultStreamMarker;

} // verus!

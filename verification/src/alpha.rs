//! The alpha API for building routers: `Rspc` starts a router or a procedure, the
//! router collects procedures under their keys, and `compat` builds them into the
//! stores of a legacy router.

use core::marker::PhantomData;
use vstd::prelude::*;

use crate::config::Config;
use crate::http::ProcedureKind;
use crate::procedure_store::{
    PendingProcedure,
    ProcedureStore,
    build_stores,
    first_unregistrable,
    procedures_of_kind,
    registrable,
};

verus! {

/// The starting point for building routers and procedures for the context `TCtx`.
pub struct Rspc<TCtx> {
    phantom: PhantomData<TCtx>,
}

impl<TCtx> Rspc<TCtx> {
    /// The starting point for the context `TCtx`.
    pub fn new() -> Self {
        Rspc { phantom: PhantomData }
    }

    /// A router with no procedures.
    pub fn router<P>(&self) -> (r: AlphaRouter<TCtx, P>)
        ensures
            r.procedures() == Seq::<PendingProcedure<P>>::empty(),
    {
        AlphaRouter::new()
    }

    /// A procedure that starts with the middleware `mw`; its resolver is still to come.
    pub fn with<M, R>(&self, mw: M) -> (r: AlphaProcedure<M, R>)
        ensures
            r.middleware() == seq![mw],
            r.resolver() is None,
    {
        let mut middleware = Vec::new();
        middleware.push(mw);
        AlphaProcedure { middleware, resolver: None }
    }

    /// A query answered by `resolver`, with no middleware.
    pub fn query<M, R>(&self, resolver: R) -> (r: AlphaProcedure<M, R>)
        ensures
            r.middleware().len() == 0,
            r.resolver() == Some((ProcedureKind::Query, resolver)),
    {
        AlphaProcedure { middleware: Vec::new(), resolver: Some((ProcedureKind::Query, resolver)) }
    }

    /// A mutation answered by `resolver`, with no middleware.
    pub fn mutation<M, R>(&self, resolver: R) -> (r: AlphaProcedure<M, R>)
        ensures
            r.middleware().len() == 0,
            r.resolver() == Some((ProcedureKind::Mutation, resolver)),
    {
        AlphaProcedure { middleware: Vec::new(), resolver: Some((ProcedureKind::Mutation, resolver)) }
    }

    /// A subscription whose events `resolver` produces, with no middleware.
    pub fn subscription<M, R>(&self, resolver: R) -> (r: AlphaProcedure<M, R>)
        ensures
            r.middleware().len() == 0,
            r.resolver() == Some((ProcedureKind::Subscription, resolver)),
    {
        AlphaProcedure { middleware: Vec::new(), resolver: Some((ProcedureKind::Subscription, resolver)) }
    }
}

/// A procedure being built: the middleware it runs, in the order they were added
/// (each gets the context the one before it handed on), and, once given, its
/// resolver with the kind of procedure it makes.
pub struct AlphaProcedure<M, R> {
    middleware: Vec<M>,
    resolver: Option<(ProcedureKind, R)>,
}

impl<M, R> AlphaProcedure<M, R> {
    /// The middleware, in the order they run.
    pub closed spec fn middleware(&self) -> Seq<M> {
        self.middleware@
    }

    /// The resolver and the kind of procedure it makes, once given.
    pub closed spec fn resolver(&self) -> Option<(ProcedureKind, R)> {
        self.resolver
    }

    /// Adds the middleware `mw`, which runs after those already added. Middleware
    /// can only be added before the resolver is given.
    pub fn with(self, mw: M) -> (r: Self)
        requires
            self.resolver() is None,
        ensures
            r.middleware() == self.middleware().push(mw),
            r.resolver() is None,
    {
        let mut middleware = self.middleware;
        middleware.push(mw);
        AlphaProcedure { middleware, resolver: None }
    }

    /// Makes the procedure a query answered by `resolver`.
    pub fn query(self, resolver: R) -> (r: Self)
        requires
            self.resolver() is None,
        ensures
            r.middleware() == self.middleware(),
            r.resolver() == Some((ProcedureKind::Query, resolver)),
    {
        AlphaProcedure { middleware: self.middleware, resolver: Some((ProcedureKind::Query, resolver)) }
    }

    /// Makes the procedure a mutation answered by `resolver`.
    pub fn mutation(self, resolver: R) -> (r: Self)
        requires
            self.resolver() is None,
        ensures
            r.middleware() == self.middleware(),
            r.resolver() == Some((ProcedureKind::Mutation, resolver)),
    {
        AlphaProcedure { middleware: self.middleware, resolver: Some((ProcedureKind::Mutation, resolver)) }
    }

    /// Makes the procedure a subscription whose events `resolver` produces.
    pub fn subscription(self, resolver: R) -> (r: Self)
        requires
            self.resolver() is None,
        ensures
            r.middleware() == self.middleware(),
            r.resolver() == Some((ProcedureKind::Subscription, resolver)),
    {
        AlphaProcedure {
            middleware: self.middleware,
            resolver: Some((ProcedureKind::Subscription, resolver)),
        }
    }

    /// The kind of procedure the resolver makes.
    pub fn kind(&self) -> (r: ProcedureKind)
        requires
            self.resolver() is Some,
        ensures
            self.resolver() matches Some((k, _)) && r == k,
    {
        match &self.resolver {
            Some((kind, _)) => *kind,
            None => ProcedureKind::Query,
        }
    }

    /// The number of middleware the procedure runs.
    pub fn middleware_count(&self) -> (r: usize)
        ensures
            r == self.middleware().len(),
    {
        self.middleware.len()
    }
}

/// The middleware a procedure starts from: it passes the context on unchanged.
pub struct AlphaBaseMiddleware<TCtx>(PhantomData<TCtx>);

impl<TCtx> AlphaBaseMiddleware<TCtx> {
    /// The base middleware.
    pub fn new() -> Self {
        AlphaBaseMiddleware(PhantomData)
    }
}

/// A router under construction: the procedures added so far, in order.
pub struct AlphaRouter<TCtx, P> {
    procedures: Vec<PendingProcedure<P>>,
    phantom: PhantomData<TCtx>,
}

/// A router built from an [`AlphaRouter`]: its configuration and its procedures by kind.
pub struct Router<P> {
    pub config: Config,
    pub queries: ProcedureStore<P>,
    pub mutations: ProcedureStore<P>,
    pub subscriptions: ProcedureStore<P>,
}

impl<TCtx, P> AlphaRouter<TCtx, P> {
    /// The procedures added so far, in order.
    pub closed spec fn procedures(&self) -> Seq<PendingProcedure<P>> {
        self.procedures@
    }

    /// A router with no procedures. Prefer [`Rspc::router`], which fixes the context type.
    pub fn new() -> (r: Self)
        ensures
            r.procedures() == Seq::<PendingProcedure<P>>::empty(),
    {
        AlphaRouter { procedures: Vec::new(), phantom: PhantomData }
    }

    /// Adds a procedure of the given kind under `key`.
    pub fn procedure(self, key: &'static str, kind: ProcedureKind, procedure: P) -> (r: Self)
        ensures
            r.procedures() == self.procedures().push(PendingProcedure { key, kind, procedure }),
    {
        let mut procedures = self.procedures;
        procedures.push(PendingProcedure { key, kind, procedure });
        AlphaRouter { procedures, phantom: PhantomData }
    }

    /// The position of the first procedure that cannot be registered, if any (see
    /// [`first_unregistrable`]); building the router requires that there is none.
    pub fn first_invalid_procedure(&self) -> (r: Option<usize>)
        ensures
            match r {
                Some(i) => i < self.procedures().len() && registrable(self.procedures().subrange(0, i as int))
                    && !registrable(self.procedures().subrange(0, i + 1)),
                None => registrable(self.procedures()),
            },
    {
        first_unregistrable(&self.procedures)
    }

    /// Builds the router: every query, mutation and subscription is registered under
    /// its key in the store of its kind.
    /// No key may be reserved or given twice to procedures of the same kind.
    pub fn compat(self) -> (r: Router<P>)
        requires
            registrable(self.procedures()),
        ensures
            r.queries.view() == procedures_of_kind(self.procedures(), ProcedureKind::Query),
            r.mutations.view() == procedures_of_kind(self.procedures(), ProcedureKind::Mutation),
            r.subscriptions.view() == procedures_of_kind(self.procedures(), ProcedureKind::Subscription),
            r.queries.kind_name() == "queries"@,
            r.mutations.kind_name() == "mutations"@,
            r.subscriptions.kind_name() == "subscriptions"@,
            r.config.export_path() is None,
    {
        let (queries, mutations, subscriptions) = build_stores(self.procedures);
        Router { config: Config::new(), queries, mutations, subscriptions }
    }
}

/// Passes a middleware's argument through unchanged, with no state.
pub struct MiddlewareArgMapperPassthrough;

/// A middleware without a response handler.
#[derive(Clone)]
pub struct MiddlewareNoResponseMarker;

/// A middleware with the response handler `THandlerFunc`.
#[derive(Clone)]
pub struct MiddlewareResponseMarker<THandlerFunc>(pub THandlerFunc);

/// Ties a middleware function to its future and result types.
pub struct MwV2Marker<A, B>(PhantomData<(A, B)>);

/// Stands in for a response handler where a middleware has none.
pub struct Executable2Placeholder {}

/// The plugin that leaves what it wraps unchanged.
pub struct BasePlugin;

/// The plugin a router starts from, for the context `TBCtx`.
pub struct BasePluginFor<TBCtx>(PhantomData<TBCtx>);

/// A resolver function wrapped to be run by plugins.
pub struct ResolverPluginExecutable<TBCtx, TRet, TFut, TFunc>(pub TFunc, PhantomData<(TBCtx, TRet, TFut)>);

/// The future of a wrapped resolver function.
pub struct ResolverPluginFut<TRet, TFut>(pub TFut, PhantomData<TRet>);

/// A context function that takes no argument.
pub struct NoArgMarker(PhantomData<()>);

/// A context function that takes one extractor argument.
pub struct OneArgAxumRequestMarker<T1>(PhantomData<T1>);

/// A context function that takes two extractor arguments.
pub struct TwoArgAxumRequestMarker<T1, T2>(PhantomData<(T1, T2)>);

/// A context function that takes three extractor arguments.
pub struct ThreeArgAxumRequestMarker<T1, T2, T3>(PhantomData<(T1, T2, T3)>);

/// A context function that takes four extractor arguments.
pub struct FourArgAxumRequestMarker<T1, T2, T3, T4>(PhantomData<(T1, T2, T3, T4)>);

/// A context function that takes five extractor arguments.
pub struct FiveArgAxumRequestMarker<T1, T2, T3, T4, T5>(PhantomData<(T1, T2, T3, T4, T5)>);

} // verus!

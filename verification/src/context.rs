//! The context a procedure runs with.

use vstd::prelude::*;

verus! {

/// The context a procedure runs with; it dereferences to the user's context value.
pub struct Context<TCtx> {
    pub(crate) ctx: TCtx,
}

impl<TCtx> Context<TCtx> {
    /// The context value.
    pub closed spec fn value(&self) -> TCtx {
        self.ctx
    }

    /// Wraps a context value.
    pub fn new(ctx: TCtx) -> (r: Self)
        ensures
            r.value() == ctx,
    {
        Context { ctx }
    }

    /// The context value.
    pub fn get(&self) -> (r: &TCtx)
        ensures
            *r == self.value(),
    {
        &self.ctx
    }
}

impl<TCtx> core::ops::Deref for Context<TCtx> {
    type Target = TCtx;

    fn deref(&self) -> (r: &TCtx)
        ensures
            *r == self.value(),
    {
        &self.ctx
    }
}

} // verus!

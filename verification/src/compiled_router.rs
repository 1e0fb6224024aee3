//! A router compiled for execution: its procedures of each kind, by key, and how a
//! call finds the procedure it runs.

use vstd::prelude::*;

use crate::error::{ExecError, ExecErrorView};
use crate::procedure_store::ProcedureStore;

verus! {

/// The procedures of a compiled router, by kind and key.
pub struct CompiledRouter<P> {
    pub query: ProcedureStore<P>,
    pub mutation: ProcedureStore<P>,
    pub subscription: ProcedureStore<P>,
}

impl<P> CompiledRouter<P> {
    /// The query a call of `key` runs, or the error reporting that there is none.
    pub fn query_definition(&self, key: &String) -> (r: Result<&P, ExecError>)
        ensures
            match r {
                Ok(p) => self.query.view().contains_key(key@) && *p == self.query.view()[key@],
                Err(e) => !self.query.view().contains_key(key@) && e@
                    == ExecErrorView::OperationNotFound(key@),
            },
    {
        self.query.find(key)
    }

    /// The mutation a call of `key` runs, or the error reporting that there is none.
    pub fn mutation_definition(&self, key: &String) -> (r: Result<&P, ExecError>)
        ensures
            match r {
                Ok(p) => self.mutation.view().contains_key(key@) && *p == self.mutation.view()[key@],
                Err(e) => !self.mutation.view().contains_key(key@) && e@
                    == ExecErrorView::OperationNotFound(key@),
            },
    {
        self.mutation.find(key)
    }
}

} // verus!

//! The command capability consumed by the exclusive-access engine.

use vstd::prelude::*;

verus! {

/// A reversible unit of work that mutates a context through a unique handle.
///
/// The engine never inspects the context: it only runs the callbacks and keeps
/// the bookkeeping. `undo` is expected to reverse the effect of the most
/// recent `execute`/`redo` on the context; the engine does not (and cannot)
/// check this, so no contract is placed on the callbacks.
pub trait MutableCommand: Sized {
    type Context;

    /// Executes the command in the given context.
    fn execute(&self, ctx: &mut Self::Context);

    /// Undoes the command in the given context.
    fn undo(&self, ctx: &mut Self::Context);

    /// Redoes the command; by default this re-runs `execute`.
    fn redo(&self, ctx: &mut Self::Context) {
        self.execute(ctx);
    }

    /// A description of the command, for display only; the default is a fixed
    /// placeholder.
    fn description(&self) -> String {
        "Unknown command".to_string()
    }
}

} // verus!

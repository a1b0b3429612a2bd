//! The command capability consumed by the concurrent engine.

use vstd::prelude::*;

verus! {

/// A reversible unit of work that mutates a context through a shared handle.
///
/// The context is synchronized by the caller (commands lock it themselves), so
/// every callback takes it by shared reference. `undo` is expected to reverse
/// the effect of the most recent `execute`/`redo` on the context; the engine
/// does not (and cannot) check this, so no contract is placed on the
/// callbacks.
pub trait Command: Sized {
    type Context;

    /// Executes the command with the given context.
    fn execute(&self, ctx: &Self::Context);

    /// Undoes the command with the given context.
    fn undo(&self, ctx: &Self::Context);

    /// Redoes the command; by default this re-runs `execute`.
    fn redo(&self, ctx: &Self::Context) {
        self.execute(ctx);
    }

    /// A description of the command, for display only; the default is a fixed
    /// placeholder.
    fn description(&self) -> String {
        "Unknown command".to_string()
    }
}

} // verus!

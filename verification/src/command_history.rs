//! The protocol of a shared-handle history engine.

use crate::command::Command;
use vstd::prelude::*;

verus! {

/// Bounded undo/redo bookkeeping behind a shared handle.
///
/// Every method takes `&self`: an implementor synchronizes internally, so the
/// stacks are interior state that a caller-facing contract cannot observe.
/// The operations follow the same discipline as
/// [`crate::mutable_command_history::MutableCommandHistory`]; an implementor
/// is expected to keep both stacks within the positive history limit at every
/// point where another thread could look, for instance by carrying that bound
/// as a lock invariant.
pub trait CommandHistory<C: Command>: Sized {
    /// Runs `command.execute(ctx)`, then pushes the command onto the undo
    /// stack (evicting the oldest entry when at capacity), then clears the
    /// redo stack if the policy is enabled.
    fn execute_command(&self, command: C, ctx: &C::Context);

    /// Pops the most recent command off the undo stack, runs its `undo`
    /// callback, and pushes it onto the redo stack; a no-op when the undo
    /// stack is empty.
    fn undo(&self, ctx: &C::Context);

    /// Pops the most recent command off the redo stack, runs its `redo`
    /// callback, and pushes it back onto the undo stack; a no-op when the
    /// redo stack is empty.
    fn redo(&self, ctx: &C::Context);

    /// Replaces the history limit and immediately trims both stacks from the
    /// oldest end until they fit. A zero limit is a contract violation and is
    /// excluded.
    fn set_history_limit(&self, limit: usize)
        requires
            1 <= limit,
    ;

    /// Executes each command in the given order; by default one
    /// `execute_command` call per command.
    fn batch_execute(&self, commands: Vec<C>, ctx: &C::Context) {
        let mut commands = commands;
        while commands.len() > 0
            decreases commands@.len(),
        {
            let command = commands.remove(0);
            self.execute_command(command, ctx);
        }
    }
}

} // verus!

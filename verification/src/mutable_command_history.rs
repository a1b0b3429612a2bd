//! The protocol of an exclusive-access history engine, with its full
//! functional contract.

use crate::bounded_stack::{batch_push, keep_newest, push_evict};
use crate::mutable_command::MutableCommand;
use vstd::prelude::*;

verus! {

/// Bounded undo/redo bookkeeping over commands that mutate their context
/// through a unique handle.
///
/// The four spec observers give the abstract state of an engine: the two
/// stacks as most-recent-first sequences, the history limit, and the
/// clear-redo-on-execute policy. Every operation's contract is stated over
/// them, so an implementor proves the whole protocol: capacity is never
/// exceeded, eviction takes the oldest entry, and the redo stack is emptied
/// by a new execution exactly when the policy says so.
pub trait MutableCommandHistory<C: MutableCommand>: Sized {
    /// The undo stack, most recent first.
    spec fn undo_commands(&self) -> Seq<C>;

    /// The redo stack, most recent first.
    spec fn redo_commands(&self) -> Seq<C>;

    /// The bound both stacks must stay within; always positive.
    spec fn history_limit(&self) -> nat;

    /// Whether executing a new command empties the redo stack.
    spec fn clears_redo_on_execute(&self) -> bool;

    /// The engine's invariant: a positive limit that bounds both stacks.
    open spec fn inv(&self) -> bool {
        &&& 1 <= self.history_limit()
        &&& self.undo_commands().len() <= self.history_limit()
        &&& self.redo_commands().len() <= self.history_limit()
    }

    /// Runs `command.execute(ctx)`, then pushes the command onto the undo
    /// stack (evicting the oldest entry when at capacity), then clears the
    /// redo stack if the policy is enabled.
    fn execute_command(&mut self, command: C, ctx: &mut C::Context)
        requires
            old(self).inv(),
        ensures
            final(self).inv(),
            final(self).undo_commands() == push_evict(
                old(self).undo_commands(),
                command,
                old(self).history_limit(),
            ),
            old(self).clears_redo_on_execute() ==> final(self).redo_commands()
                == Seq::<C>::empty(),
            !old(self).clears_redo_on_execute() ==> final(self).redo_commands()
                == old(self).redo_commands(),
            final(self).history_limit() == old(self).history_limit(),
            final(self).clears_redo_on_execute() == old(self).clears_redo_on_execute(),
    ;

    /// Pops the most recent command off the undo stack, runs its `undo`
    /// callback, and pushes it onto the redo stack; a silent no-op, with the
    /// context untouched, when the undo stack is empty.
    fn undo(&mut self, ctx: &mut C::Context)
        requires
            old(self).inv(),
        ensures
            final(self).inv(),
            final(self).history_limit() == old(self).history_limit(),
            final(self).clears_redo_on_execute() == old(self).clears_redo_on_execute(),
            old(self).undo_commands().len() == 0 ==> final(self).undo_commands()
                == old(self).undo_commands(),
            old(self).undo_commands().len() == 0 ==> final(self).redo_commands()
                == old(self).redo_commands(),
            old(self).undo_commands().len() == 0 ==> *final(ctx) == *old(ctx),
            old(self).undo_commands().len() > 0 ==> final(self).undo_commands()
                == old(self).undo_commands().skip(1),
            old(self).undo_commands().len() > 0 ==> final(self).redo_commands() == push_evict(
                old(self).redo_commands(),
                old(self).undo_commands()[0],
                old(self).history_limit(),
            ),
    ;

    /// Pops the most recent command off the redo stack, runs its `redo`
    /// callback, and pushes it back onto the undo stack; a silent no-op,
    /// with the context untouched, when the redo stack is empty.
    fn redo(&mut self, ctx: &mut C::Context)
        requires
            old(self).inv(),
        ensures
            final(self).inv(),
            final(self).history_limit() == old(self).history_limit(),
            final(self).clears_redo_on_execute() == old(self).clears_redo_on_execute(),
            old(self).redo_commands().len() == 0 ==> final(self).undo_commands()
                == old(self).undo_commands(),
            old(self).redo_commands().len() == 0 ==> final(self).redo_commands()
                == old(self).redo_commands(),
            old(self).redo_commands().len() == 0 ==> *final(ctx) == *old(ctx),
            old(self).redo_commands().len() > 0 ==> final(self).redo_commands()
                == old(self).redo_commands().skip(1),
            old(self).redo_commands().len() > 0 ==> final(self).undo_commands() == push_evict(
                old(self).undo_commands(),
                old(self).redo_commands()[0],
                old(self).history_limit(),
            ),
    ;

    /// Replaces the history limit and immediately trims both stacks from the
    /// oldest end until they fit; the front ordering is preserved. A zero
    /// limit is a contract violation and is excluded.
    fn set_history_limit(&mut self, limit: usize)
        requires
            old(self).inv(),
            1 <= limit,
        ensures
            final(self).inv(),
            final(self).history_limit() == limit as nat,
            final(self).clears_redo_on_execute() == old(self).clears_redo_on_execute(),
            final(self).undo_commands() == keep_newest(old(self).undo_commands(), limit as nat),
            final(self).redo_commands() == keep_newest(old(self).redo_commands(), limit as nat),
    ;

    /// Executes each command in the given order, pushing each onto the undo
    /// stack as it commits; with the clear-redo policy enabled a non-empty
    /// batch empties the redo stack. An empty batch is a silent no-op that
    /// leaves the context untouched.
    fn batch_execute(&mut self, commands: Vec<C>, ctx: &mut C::Context)
        requires
            old(self).inv(),
        ensures
            final(self).inv(),
            final(self).history_limit() == old(self).history_limit(),
            final(self).clears_redo_on_execute() == old(self).clears_redo_on_execute(),
            final(self).undo_commands() == batch_push(
                old(self).undo_commands(),
                commands@,
                old(self).history_limit(),
            ),
            commands@.len() == 0 ==> final(self).redo_commands() == old(self).redo_commands(),
            commands@.len() == 0 ==> *final(ctx) == *old(ctx),
            commands@.len() > 0 && old(self).clears_redo_on_execute()
                ==> final(self).redo_commands() == Seq::<C>::empty(),
            !old(self).clears_redo_on_execute() ==> final(self).redo_commands()
                == old(self).redo_commands(),
    {
        if commands.len() == 0 {
            return;
        }
        let mut commands = commands;
        let ghost orig_cmds = commands@;
        while commands.len() > 0
            invariant
                self.inv(),
                self.history_limit() == old(self).history_limit(),
                self.clears_redo_on_execute() == old(self).clears_redo_on_execute(),
                commands@.len() <= orig_cmds.len(),
                batch_push(self.undo_commands(), commands@, self.history_limit()) == batch_push(
                    old(self).undo_commands(),
                    orig_cmds,
                    old(self).history_limit(),
                ),
                commands@.len() == orig_cmds.len() ==> self.undo_commands()
                    == old(self).undo_commands(),
                commands@.len() == orig_cmds.len() ==> self.redo_commands()
                    == old(self).redo_commands(),
                commands@.len() < orig_cmds.len() && old(self).clears_redo_on_execute()
                    ==> self.redo_commands() == Seq::<C>::empty(),
                !old(self).clears_redo_on_execute() ==> self.redo_commands()
                    == old(self).redo_commands(),
            decreases commands@.len(),
        {
            let command = commands.remove(0);
            self.execute_command(command, ctx);
        }
    }
}

} // verus!

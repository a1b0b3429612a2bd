//! The exclusive-access history engine: one logical owner, no internal
//! locking.

use crate::bounded_stack::{push_evict, push_evict_front, trim_back};
use crate::mutable_command::MutableCommand;
use crate::mutable_command_history::MutableCommandHistory;
use std::collections::VecDeque;
use vstd::prelude::*;

verus! {

/// Bounded undo/redo bookkeeping for a caller that holds the only mutable
/// handle; every operation is one atomic step from the caller's point of
/// view.
///
/// Both stacks are most-recent-first sequences that never exceed the (always
/// positive) history limit; the full contract of each operation is stated on
/// [`MutableCommandHistory`].
pub struct SimpleCommandHistory<C: MutableCommand> {
    undo: VecDeque<C>,
    redo: VecDeque<C>,
    history_limit: usize,
    clear_redo_on_execute: bool,
}

impl<C: MutableCommand> SimpleCommandHistory<C> {
    /// Creates an empty engine with the given positive history limit and
    /// clear-redo-on-execute policy.
    pub fn new(history_limit: usize, clear_redo_on_execute: bool) -> (h: Self)
        requires
            1 <= history_limit,
        ensures
            h.inv(),
            h.undo_commands() == Seq::<C>::empty(),
            h.redo_commands() == Seq::<C>::empty(),
            h.history_limit() == history_limit as nat,
            h.clears_redo_on_execute() == clear_redo_on_execute,
    {
        Self {
            undo: VecDeque::with_capacity(history_limit),
            redo: VecDeque::with_capacity(history_limit),
            history_limit,
            clear_redo_on_execute,
        }
    }

    /// A read-only snapshot of the undo stack, most recent first, or `None`
    /// when there is no history to show.
    pub fn undo_history(&self) -> (r: Option<Vec<&C>>)
        ensures
            r is None <==> self.undo_commands().len() == 0,
            r matches Some(v) ==> v@.len() == self.undo_commands().len(),
            r matches Some(v) ==> forall|i: int|
                0 <= i < v@.len() ==> v@[i] == self.undo_commands()[i],
    {
        if self.undo.len() == 0 {
            None
        } else {
            Some(collect_refs(&self.undo))
        }
    }

    /// A read-only snapshot of the redo stack, most recent first, or `None`
    /// when there is no history to show.
    pub fn redo_history(&self) -> (r: Option<Vec<&C>>)
        ensures
            r is None <==> self.redo_commands().len() == 0,
            r matches Some(v) ==> v@.len() == self.redo_commands().len(),
            r matches Some(v) ==> forall|i: int|
                0 <= i < v@.len() ==> v@[i] == self.redo_commands()[i],
    {
        if self.redo.len() == 0 {
            None
        } else {
            Some(collect_refs(&self.redo))
        }
    }

    /// The history limit currently in force.
    pub fn current_limit(&self) -> (l: usize)
        ensures
            l as nat == self.history_limit(),
    {
        self.history_limit
    }

    fn push_undo(&mut self, command: C)
        requires
            1 <= old(self).history_limit,
        ensures
            final(self).undo@ == push_evict(
                old(self).undo@,
                command,
                old(self).history_limit as nat,
            ),
            final(self).undo@.len() <= old(self).history_limit,
            final(self).redo@ == old(self).redo@,
            final(self).history_limit == old(self).history_limit,
            final(self).clear_redo_on_execute == old(self).clear_redo_on_execute,
    {
        push_evict_front(&mut self.undo, command, self.history_limit);
    }

    fn push_redo(&mut self, command: C)
        requires
            1 <= old(self).history_limit,
        ensures
            final(self).redo@ == push_evict(
                old(self).redo@,
                command,
                old(self).history_limit as nat,
            ),
            final(self).redo@.len() <= old(self).history_limit,
            final(self).undo@ == old(self).undo@,
            final(self).history_limit == old(self).history_limit,
            final(self).clear_redo_on_execute == old(self).clear_redo_on_execute,
    {
        push_evict_front(&mut self.redo, command, self.history_limit);
    }
}

/// The commands of a stack as a vector of references, front first.
fn collect_refs<C>(items: &VecDeque<C>) -> (r: Vec<&C>)
    ensures
        r@.len() == items@.len(),
        forall|i: int| 0 <= i < r@.len() ==> r@[i] == items@[i],
{
    let mut out: Vec<&C> = Vec::new();
    let mut i: usize = 0;
    while i < items.len()
        invariant
            i <= items@.len(),
            out@.len() == i,
            forall|j: int| 0 <= j < i ==> out@[j] == items@[j],
        decreases items@.len() - i,
    {
        out.push(&items[i]);
        i = i + 1;
    }
    out
}

impl<C: MutableCommand> MutableCommandHistory<C> for SimpleCommandHistory<C> {
    closed spec fn undo_commands(&self) -> Seq<C> {
        self.undo@
    }

    closed spec fn redo_commands(&self) -> Seq<C> {
        self.redo@
    }

    closed spec fn history_limit(&self) -> nat {
        self.history_limit as nat
    }

    closed spec fn clears_redo_on_execute(&self) -> bool {
        self.clear_redo_on_execute
    }

    fn execute_command(&mut self, command: C, ctx: &mut C::Context) {
        command.execute(ctx);
        self.push_undo(command);
        if self.clear_redo_on_execute {
            self.redo.clear();
        }
    }

    fn undo(&mut self, ctx: &mut C::Context) {
        if let Some(command) = self.undo.pop_front() {
            command.undo(ctx);
            self.push_redo(command);
        }
    }

    fn redo(&mut self, ctx: &mut C::Context) {
        if let Some(command) = self.redo.pop_front() {
            command.redo(ctx);
            self.push_undo(command);
        }
    }

    fn set_history_limit(&mut self, limit: usize) {
        self.history_limit = limit;
        trim_back(&mut self.undo, limit);
        trim_back(&mut self.redo, limit);
    }
}

} // verus!

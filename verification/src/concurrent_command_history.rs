//! The concurrent shared history engine: many threads, one engine, small
//! critical sections.

use crate::bounded_stack::{push_evict, push_evict_front, trim_back};
use crate::command::Command;
use crate::command_history::CommandHistory;
use std::collections::VecDeque;
use std::sync::Arc;
use vstd::prelude::*;
use vstd::rwlock::{RwLock, RwLockPredicate};

verus! {

/// One history stack together with its copy of the history limit, protected
/// as a unit by one reader-writer lock.
struct StackCell<C> {
    items: VecDeque<Arc<C>>,
    limit: usize,
}

/// The invariant each stack's lock enforces on every release: a positive
/// limit that bounds the stack.
struct StackBound;

impl<C> RwLockPredicate<StackCell<C>> for StackBound {
    closed spec fn inv(self, v: StackCell<C>) -> bool {
        &&& 1 <= v.limit
        &&& v.items@.len() <= v.limit
    }
}

/// The policy flag carries no invariant of its own.
struct AnyFlag;

impl RwLockPredicate<bool> for AnyFlag {
    closed spec fn inv(self, v: bool) -> bool {
        true
    }
}

/// Bounded undo/redo bookkeeping safe for simultaneous use by multiple
/// threads holding a shared handle to one engine.
///
/// Each stack sits behind its own reader-writer lock, so snapshots of one
/// stack can be taken while the other is being written; the lock's invariant
/// ([`StackBound`]) is re-checked at every release, so no interleaving of
/// operations can leave a stack over its limit. Each stack keeps its own copy
/// of the limit under its lock, and `set_history_limit` updates the two in
/// turn; a push racing with a limit change uses whichever value its stack
/// currently holds. The clear-redo policy flag sits behind a third small
/// lock of its own, so reading or flipping it never contends with the
/// stacks.
///
/// Command callbacks never run while a stack lock is held: a command is
/// executed before its stack's lock is acquired, and a popped command runs
/// its callback between the release of one stack's lock and the acquisition
/// of the other's. Between those two lock sections a concurrent snapshot may
/// observe the command in neither stack; per-stack consistency is the
/// guarantee, not atomicity across the pair.
pub struct ConcurrentCommandHistory<C: Command + Send + Sync> {
    undo: RwLock<StackCell<C>, StackBound>,
    redo: RwLock<StackCell<C>, StackBound>,
    clear_redo_on_execute: RwLock<bool, AnyFlag>,
}

impl<C> ConcurrentCommandHistory<C> where C: Command + Send + Sync {
    /// Creates an empty shared engine with the given positive history limit
    /// and clear-redo-on-execute policy.
    pub fn new(history_limit: usize, clear_redo_on_execute: bool) -> (h: Arc<Self>)
        requires
            1 <= history_limit,
    {
        let undo_cell = StackCell {
            items: VecDeque::with_capacity(history_limit),
            limit: history_limit,
        };
        let redo_cell = StackCell {
            items: VecDeque::with_capacity(history_limit),
            limit: history_limit,
        };
        Arc::new(
            Self {
                undo: RwLock::new(undo_cell, Ghost(StackBound)),
                redo: RwLock::new(redo_cell, Ghost(StackBound)),
                clear_redo_on_execute: RwLock::new(clear_redo_on_execute, Ghost(AnyFlag)),
            },
        )
    }

    /// A snapshot of the undo stack, most recent first, or `None` when it
    /// held no history at the moment of the read; the shared handles let the
    /// caller inspect the commands without holding the lock.
    pub fn undo_history(&self) -> (r: Option<Vec<Arc<C>>>)
        ensures
            r matches Some(v) ==> v@.len() >= 1,
    {
        let handle = self.undo.acquire_read();
        let r = {
            let cell = handle.borrow();
            if cell.items.len() == 0 {
                None
            } else {
                Some(clone_snapshot(&cell.items))
            }
        };
        handle.release_read();
        r
    }

    /// A snapshot of the redo stack, most recent first, or `None` when it
    /// held no history at the moment of the read.
    pub fn redo_history(&self) -> (r: Option<Vec<Arc<C>>>)
        ensures
            r matches Some(v) ==> v@.len() >= 1,
    {
        let handle = self.redo.acquire_read();
        let r = {
            let cell = handle.borrow();
            if cell.items.len() == 0 {
                None
            } else {
                Some(clone_snapshot(&cell.items))
            }
        };
        handle.release_read();
        r
    }

    /// Sets the clear-redo-on-execute policy; takes effect on the next
    /// `execute_command`/`batch_execute` call.
    pub fn set_clear_redo_on_execute(&self, clear: bool) {
        let (_, handle) = self.clear_redo_on_execute.acquire_write();
        handle.release_write(clear);
    }

    fn push_undo(cell: &mut StackCell<C>, command: Arc<C>)
        requires
            1 <= old(cell).limit,
        ensures
            final(cell).items@ == push_evict(
                old(cell).items@,
                command,
                old(cell).limit as nat,
            ),
            final(cell).items@.len() <= final(cell).limit,
            final(cell).limit == old(cell).limit,
    {
        push_evict_front(&mut cell.items, command, cell.limit);
    }

    fn push_redo(cell: &mut StackCell<C>, command: Arc<C>)
        requires
            1 <= old(cell).limit,
        ensures
            final(cell).items@ == push_evict(
                old(cell).items@,
                command,
                old(cell).limit as nat,
            ),
            final(cell).items@.len() <= final(cell).limit,
            final(cell).limit == old(cell).limit,
    {
        push_evict_front(&mut cell.items, command, cell.limit);
    }

    /// The clear-redo policy as of this moment.
    fn read_clear_flag(&self) -> bool {
        let handle = self.clear_redo_on_execute.acquire_read();
        let clear = *handle.borrow();
        handle.release_read();
        clear
    }

    /// Empties the redo stack under its write lock.
    fn clear_redo(&self) {
        let (mut cell, handle) = self.redo.acquire_write();
        cell.items.clear();
        handle.release_write(cell);
    }
}

/// The commands of a stack as a vector of shared handles, front first.
fn clone_snapshot<C>(items: &VecDeque<Arc<C>>) -> (r: Vec<Arc<C>>)
    ensures
        r@.len() == items@.len(),
        forall|i: int| 0 <= i < r@.len() ==> r@[i] == items@[i],
{
    let mut out: Vec<Arc<C>> = Vec::new();
    let mut i: usize = 0;
    while i < items.len()
        invariant
            i <= items@.len(),
            out@.len() == i,
            forall|j: int| 0 <= j < i ==> out@[j] == items@[j],
        decreases items@.len() - i,
    {
        out.push(items[i].clone());
        i = i + 1;
    }
    out
}

impl<C> CommandHistory<C> for ConcurrentCommandHistory<C> where C: Command + Send + Sync {
    fn execute_command(&self, command: C, ctx: &C::Context) {
        command.execute(ctx);
        let command = Arc::new(command);

        let (mut cell, handle) = self.undo.acquire_write();
        Self::push_undo(&mut cell, command);
        handle.release_write(cell);

        if self.read_clear_flag() {
            self.clear_redo();
        }
    }

    fn undo(&self, ctx: &C::Context) {
        let (mut cell, handle) = self.undo.acquire_write();
        let popped = cell.items.pop_front();
        handle.release_write(cell);

        if let Some(command) = popped {
            command.undo(ctx);

            let (mut rcell, rhandle) = self.redo.acquire_write();
            Self::push_redo(&mut rcell, command);
            rhandle.release_write(rcell);
        }
    }

    fn redo(&self, ctx: &C::Context) {
        let (mut cell, handle) = self.redo.acquire_write();
        let popped = cell.items.pop_front();
        handle.release_write(cell);

        if let Some(command) = popped {
            command.redo(ctx);

            let (mut ucell, uhandle) = self.undo.acquire_write();
            Self::push_undo(&mut ucell, command);
            uhandle.release_write(ucell);
        }
    }

    fn set_history_limit(&self, limit: usize) {
        let (mut cell, handle) = self.undo.acquire_write();
        cell.limit = limit;
        trim_back(&mut cell.items, limit);
        handle.release_write(cell);

        let (mut rcell, rhandle) = self.redo.acquire_write();
        rcell.limit = limit;
        trim_back(&mut rcell.items, limit);
        rhandle.release_write(rcell);
    }

    /// An empty batch is a no-op. Otherwise every command is executed (and
    /// wrapped in its shared handle) before the undo lock is taken, so no
    /// callback runs while the lock is held; one write-lock section then
    /// covers the whole batch's bookkeeping, so another thread's operations
    /// cannot interleave with it element by element.
    fn batch_execute(&self, commands: Vec<C>, ctx: &C::Context) {
        if commands.len() == 0 {
            return;
        }
        let mut commands = commands;
        let mut executed: Vec<Arc<C>> = Vec::new();
        while commands.len() > 0
            decreases commands@.len(),
        {
            let command = commands.remove(0);
            command.execute(ctx);
            executed.push(Arc::new(command));
        }

        let (mut cell, handle) = self.undo.acquire_write();
        while executed.len() > 0
            invariant
                1 <= cell.limit,
                cell.items@.len() <= cell.limit,
            decreases executed@.len(),
        {
            let command = executed.remove(0);
            Self::push_undo(&mut cell, command);
        }
        handle.release_write(cell);

        if self.read_clear_flag() {
            self.clear_redo();
        }
    }
}

} // verus!

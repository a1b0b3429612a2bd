//! A generic command-history engine: bounded undo/redo bookkeeping for
//! reversible operations ("commands"), offered under two ownership models.
//!
//! [`simple_command_history::SimpleCommandHistory`] serves a single logical
//! owner holding the only mutable handle; every operation carries a full
//! functional contract over the two stacks, stated on
//! [`mutable_command_history::MutableCommandHistory`].
//! [`concurrent_command_history::ConcurrentCommandHistory`] serves many
//! threads sharing one handle; each stack sits behind a reader-writer lock
//! whose invariant keeps the stack within its limit at every release.
//!
//! Both engines follow one bounded-stack discipline, stated and proved once
//! in [`bounded_stack`]: insertion at the front, eviction from the back when
//! the history limit is reached, and trimming from the back when the limit
//! shrinks.

pub mod bounded_stack;
pub mod command;
pub mod command_history;
pub mod concurrent_command_history;
pub mod mutable_command;
pub mod mutable_command_history;
pub mod simple_command_history;

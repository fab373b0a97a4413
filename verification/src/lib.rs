//! A benchmark plan for block-oriented file I/O.
//!
//! The crate decides *what* a benchmark run does: which operation comes
//! next, at which byte offset, with which freshly generated block. It never
//! touches a real file. A driver performs each [`action::Action`] on the
//! backend of its choice and reports back whether it succeeded; the
//! [`runner::Runner`] then names the next one.
//!
//! - [`plan`]: the backends, the scenarios and the size of the workload.
//! - [`workload`]: the random source of blocks and block indices.
//! - [`runner`]: the state machine that plans a run.
//! - [`harness`]: the order of the backends' runs.
//! - [`store`]: a file in memory with the semantics that the backends share.
//! - [`script`], [`layout`], [`replay`]: a run replayed on a file in memory
//!   with a workload written down in advance, and what the file then holds.
//! - [`schedule`]: every action of a run, in order, as one sequence.
//! - [`laws`]: what holds of every replayed run: the size of the file, what
//!   is read back, no failure, a fresh start, agreement between backends.
//! - [`block`]: copies of blocks.

pub mod block;
pub mod plan;
pub mod action;
pub mod store;
pub mod workload;
pub mod runner;
pub mod script;
pub mod layout;
pub mod replay;
pub mod schedule;
pub mod laws;
pub mod harness;

//! What a runner asks its driver to do next.

use vstd::prelude::*;
use crate::block::copy_block;
use crate::plan::{Backend, Scenario};

verus! {

/// One step of a run. The driver performs it on its backend and tells the
/// runner whether it succeeded.
///
/// A block to be written travels inside the action: whoever performs the
/// write owns the buffer from then on.
#[derive(Debug, PartialEq, Eq)]
pub enum Action {
    /// Delete the file if it is there, then create it empty and open it for
    /// reading and writing.
    Create,
    /// Start the clock for a scenario.
    Begin(Scenario),
    /// Move the cursor to the end of the file.
    SeekEnd,
    /// Move the cursor to a byte offset from the start of the file.
    SeekStart { offset: u64 },
    /// Write the whole block at the cursor.
    Write { block: Vec<u8> },
    /// Read exactly `len` bytes at the cursor.
    Read { len: usize },
    /// Write the whole block at a byte offset, whatever the cursor.
    WriteAt { block: Vec<u8>, offset: u64 },
    /// Read exactly `len` bytes at a byte offset, whatever the cursor.
    ReadAt { len: usize, offset: u64 },
    /// Make what was written durable.
    Sync,
    /// Stop the clock for a scenario and report the time it took.
    Finish(Scenario),
    /// The run is complete; nothing is left to do.
    Done,
    /// An operation failed; the run is over and no further operation follows.
    Abort,
}

/// An [`Action`] with its block as a sequence of bytes.
pub enum ActionView {
    Create,
    Begin(Scenario),
    SeekEnd,
    SeekStart { offset: u64 },
    Write { block: Seq<u8> },
    Read { len: usize },
    WriteAt { block: Seq<u8>, offset: u64 },
    ReadAt { len: usize, offset: u64 },
    Sync,
    Finish(Scenario),
    Done,
    Abort,
}

impl View for Action {
    type V = ActionView;

    open spec fn view(&self) -> ActionView {
        match *self {
            Action::Create => ActionView::Create,
            Action::Begin(s) => ActionView::Begin(s),
            Action::SeekEnd => ActionView::SeekEnd,
            Action::SeekStart { offset } => ActionView::SeekStart { offset },
            Action::Write { block } => ActionView::Write { block: block@ },
            Action::Read { len } => ActionView::Read { len },
            Action::WriteAt { block, offset } => ActionView::WriteAt { block: block@, offset },
            Action::ReadAt { len, offset } => ActionView::ReadAt { len, offset },
            Action::Sync => ActionView::Sync,
            Action::Finish(s) => ActionView::Finish(s),
            Action::Done => ActionView::Done,
            Action::Abort => ActionView::Abort,
        }
    }
}

impl Clone for Action {
    fn clone(&self) -> (r: Action)
        ensures
            r@ == self@,
    {
        match self {
            Action::Create => Action::Create,
            Action::Begin(s) => Action::Begin(*s),
            Action::SeekEnd => Action::SeekEnd,
            Action::SeekStart { offset } => Action::SeekStart { offset: *offset },
            Action::Write { block } => Action::Write { block: copy_block(block) },
            Action::Read { len } => Action::Read { len: *len },
            Action::WriteAt { block, offset } => Action::WriteAt {
                block: copy_block(block),
                offset: *offset,
            },
            Action::ReadAt { len, offset } => Action::ReadAt { len: *len, offset: *offset },
            Action::Sync => Action::Sync,
            Action::Finish(s) => Action::Finish(*s),
            Action::Done => Action::Done,
            Action::Abort => Action::Abort,
        }
    }
}

impl ActionView {
    /// Whether the action reaches the file at all; the others concern only
    /// the clock or end the run.
    pub open spec fn touches_file(self) -> bool {
        !(self is Begin || self is Finish || self is Done || self is Abort)
    }

    /// Whether the action ends the run.
    pub open spec fn is_final(self) -> bool {
        self is Done || self is Abort
    }

    /// Whether `backend` has an operation for the action: a cursor backend
    /// seeks and transfers at its cursor, a positional backend transfers at
    /// explicit offsets, and only a backend with a sync step of its own syncs.
    pub open spec fn suits(self, backend: Backend) -> bool {
        match self {
            ActionView::SeekEnd
            | ActionView::SeekStart { .. }
            | ActionView::Write { .. }
            | ActionView::Read { .. } => backend.has_cursor(),
            ActionView::WriteAt { .. } | ActionView::ReadAt { .. } => !backend.has_cursor(),
            ActionView::Sync => backend.distinguishes_sync(),
            _ => true,
        }
    }
}

impl Action {
    /// Whether the action reaches the file at all; the others concern only
    /// the clock or end the run.
    pub fn touches_file(&self) -> (r: bool)
        ensures
            r == self@.touches_file(),
    {
        match self {
            Action::Begin(_) | Action::Finish(_) | Action::Done | Action::Abort => false,
            _ => true,
        }
    }

    /// Whether the action ends the run.
    pub fn is_final(&self) -> (r: bool)
        ensures
            r == self@.is_final(),
    {
        match self {
            Action::Done | Action::Abort => true,
            _ => false,
        }
    }

    /// Whether `backend` has an operation for the action.
    pub fn suits(&self, backend: Backend) -> (r: bool)
        ensures
            r == self@.suits(backend),
    {
        match self {
            Action::SeekEnd
            | Action::SeekStart { .. }
            | Action::Write { .. }
            | Action::Read { .. } => backend.has_cursor(),
            Action::WriteAt { .. } | Action::ReadAt { .. } => !backend.has_cursor(),
            Action::Sync => backend.distinguishes_sync(),
            _ => true,
        }
    }
}

} // verus!

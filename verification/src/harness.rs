//! The harness driver: one run per backend, in a fixed order, ended by the
//! first run that fails.

use vstd::prelude::*;
use crate::plan::Backend;

verus! {

impl Backend {
    pub open spec fn spec_successor(self) -> Option<Backend> {
        match self {
            Backend::CursorSync => Some(Backend::PositionalSync),
            Backend::PositionalSync => Some(Backend::CursorAsync),
            Backend::CursorAsync => Some(Backend::QueueAsync),
            Backend::QueueAsync => None,
        }
    }

    /// The backend that the harness runs after this one, if any.
    #[verifier::when_used_as_spec(spec_successor)]
    pub fn successor(self) -> (r: Option<Backend>)
        ensures
            r == self.spec_successor(),
    {
        match self {
            Backend::CursorSync => Some(Backend::PositionalSync),
            Backend::PositionalSync => Some(Backend::CursorAsync),
            Backend::CursorAsync => Some(Backend::QueueAsync),
            Backend::QueueAsync => None,
        }
    }
}

/// Where the harness stands.
#[derive(Clone, Copy, Debug, PartialEq, Eq, Structural)]
pub enum Harness {
    /// The run of a backend is under way.
    Running(Backend),
    /// Every backend has completed its run.
    Completed,
    /// The run of a backend failed; the backends after it were not run.
    Failed(Backend),
}

impl Harness {
    pub open spec fn spec_start() -> Harness {
        Harness::Running(Backend::CursorSync)
    }

    /// The harness before its first run.
    #[verifier::when_used_as_spec(spec_start)]
    pub fn start() -> (r: Harness)
        ensures
            r == Harness::spec_start(),
    {
        Harness::Running(Backend::CursorSync)
    }

    pub open spec fn spec_current(self) -> Option<Backend> {
        match self {
            Harness::Running(b) => Some(b),
            _ => None,
        }
    }

    /// The backend to run now; none once the harness is over.
    #[verifier::when_used_as_spec(spec_current)]
    pub fn current(self) -> (r: Option<Backend>)
        ensures
            r == self.spec_current(),
    {
        match self {
            Harness::Running(b) => Some(b),
            _ => None,
        }
    }

    pub open spec fn spec_settle(self, ok: bool) -> Harness {
        match self {
            Harness::Running(b) => if !ok {
                Harness::Failed(b)
            } else {
                match b.successor() {
                    Some(n) => Harness::Running(n),
                    None => Harness::Completed,
                }
            },
            _ => self,
        }
    }

    /// Takes the outcome of the current run: on success the next backend is
    /// up, or the harness is complete; on failure the harness is over and no
    /// further backend is run.
    #[verifier::when_used_as_spec(spec_settle)]
    pub fn settle(self, ok: bool) -> (r: Harness)
        ensures
            r == self.spec_settle(ok),
    {
        match self {
            Harness::Running(b) => {
                if !ok {
                    Harness::Failed(b)
                } else {
                    match b.successor() {
                        Some(n) => Harness::Running(n),
                        None => Harness::Completed,
                    }
                }
            },
            _ => self,
        }
    }

    pub open spec fn spec_exit_code(self) -> u8 {
        match self {
            Harness::Failed(_) => 1,
            _ => 0,
        }
    }

    /// The exit code of the process: zero unless a run failed.
    #[verifier::when_used_as_spec(spec_exit_code)]
    pub fn exit_code(self) -> (r: u8)
        ensures
            r == self.spec_exit_code(),
    {
        match self {
            Harness::Failed(_) => 1,
            _ => 0,
        }
    }
}

/// Four successful runs complete the harness, and they are the runs of the
/// cursor-synchronous, positional-synchronous, cursor-asynchronous and
/// queue-asynchronous backend, in this order.
pub proof fn law_harness_order()
    ensures
        Harness::start() == Harness::Running(Backend::CursorSync),
        Harness::start().settle(true) == Harness::Running(Backend::PositionalSync),
        Harness::start().settle(true).settle(true) == Harness::Running(Backend::CursorAsync),
        Harness::start().settle(true).settle(true).settle(true) == Harness::Running(
            Backend::QueueAsync,
        ),
        Harness::start().settle(true).settle(true).settle(true).settle(true) == Harness::Completed,
{
}

/// A failed run ends the harness: whatever is reported afterwards, no
/// backend is run any more and the exit code stays nonzero.
pub proof fn law_failure_is_final(harness: Harness, ok: bool)
    requires
        harness is Running,
    ensures
        harness.settle(false) == Harness::Failed(harness->Running_0),
        harness.settle(false).settle(ok) == harness.settle(false),
        harness.settle(false).current() is None,
        harness.settle(false).exit_code() != 0,
{
}

} // verus!

//! The fixed shape of a benchmark: backends, scenarios and the workload size.

use vstd::prelude::*;

verus! {

/// One of the four I/O strategies under benchmark.
#[derive(Clone, Copy, Debug, PartialEq, Eq, Structural)]
pub enum Backend {
    /// Blocking calls on a handle with a shared cursor; seek before each access.
    CursorSync,
    /// Blocking calls that take an explicit offset; no cursor is involved.
    PositionalSync,
    /// Cursor semantics, each call a suspension point of a cooperative scheduler.
    CursorAsync,
    /// Positional semantics, each call submitted to a kernel completion queue;
    /// buffers are handed over to the operation and handed back on completion.
    QueueAsync,
}

impl Backend {
    pub open spec fn spec_has_cursor(self) -> bool {
        self is CursorSync || self is CursorAsync
    }

    /// Whether the backend works through a shared cursor that must be
    /// positioned by a seek before a read or write.
    #[verifier::when_used_as_spec(spec_has_cursor)]
    pub fn has_cursor(self) -> (r: bool)
        ensures
            r == self.spec_has_cursor(),
    {
        match self {
            Backend::CursorSync | Backend::CursorAsync => true,
            Backend::PositionalSync | Backend::QueueAsync => false,
        }
    }

    pub open spec fn spec_is_async(self) -> bool {
        self is CursorAsync || self is QueueAsync
    }

    /// Whether each operation of the backend is a suspension point.
    #[verifier::when_used_as_spec(spec_is_async)]
    pub fn is_async(self) -> (r: bool)
        ensures
            r == self.spec_is_async(),
    {
        match self {
            Backend::CursorAsync | Backend::QueueAsync => true,
            Backend::CursorSync | Backend::PositionalSync => false,
        }
    }

    pub open spec fn spec_distinguishes_sync(self) -> bool {
        self is CursorSync || self is CursorAsync
    }

    /// Whether the backend tells a completed write from a durable one, that
    /// is, whether it has a sync step of its own.
    #[verifier::when_used_as_spec(spec_distinguishes_sync)]
    pub fn distinguishes_sync(self) -> (r: bool)
        ensures
            r == self.spec_distinguishes_sync(),
    {
        match self {
            Backend::CursorSync | Backend::CursorAsync => true,
            Backend::PositionalSync | Backend::QueueAsync => false,
        }
    }

    pub open spec fn spec_label(self) -> Seq<char> {
        match self {
            Backend::CursorSync => "std"@,
            Backend::PositionalSync => "std-ext"@,
            Backend::CursorAsync => "tokio"@,
            Backend::QueueAsync => "tokio-uring"@,
        }
    }

    /// The name under which the backend appears in a report's header line.
    pub fn label(self) -> (r: &'static str)
        ensures
            r@ == self.spec_label(),
    {
        match self {
            Backend::CursorSync => "std",
            Backend::PositionalSync => "std-ext",
            Backend::CursorAsync => "tokio",
            Backend::QueueAsync => "tokio-uring",
        }
    }

    pub open spec fn spec_path(self) -> Seq<char> {
        match self {
            Backend::CursorSync => "./tmp/file-std"@,
            Backend::PositionalSync => "./tmp/file-std-ext"@,
            Backend::CursorAsync => "./tmp/file-tokio"@,
            Backend::QueueAsync => "./tmp/file-tokio-uring"@,
        }
    }

    /// The file that the backend works on, relative to the working directory.
    pub fn path(self) -> (r: &'static str)
        ensures
            r@ == self.spec_path(),
    {
        match self {
            Backend::CursorSync => "./tmp/file-std",
            Backend::PositionalSync => "./tmp/file-std-ext",
            Backend::CursorAsync => "./tmp/file-tokio",
            Backend::QueueAsync => "./tmp/file-tokio-uring",
        }
    }
}

/// The four backends are the four combinations of cursor or positional
/// access with blocking or suspending calls.
pub proof fn law_strategies_distinct(a: Backend, b: Backend)
    requires
        a != b,
    ensures
        a.has_cursor() != b.has_cursor() || a.is_async() != b.is_async(),
{
}

/// No two backends share a file.
pub proof fn law_paths_distinct(a: Backend, b: Backend)
    requires
        a != b,
    ensures
        a.spec_path() != b.spec_path(),
{
    reveal_strlit("./tmp/file-std");
    reveal_strlit("./tmp/file-std-ext");
    reveal_strlit("./tmp/file-tokio");
    reveal_strlit("./tmp/file-tokio-uring");
    assert(a.spec_path().len() != b.spec_path().len());
}

/// One of the four access patterns, in the order in which a run goes
/// through them.
#[derive(Clone, Copy, Debug, PartialEq, Eq, Structural)]
pub enum Scenario {
    /// Append freshly generated blocks one after the other.
    PushBytes,
    /// Read the blocks back from the start, in order.
    IterateBlocks,
    /// Read blocks at randomly drawn indices.
    RandomRead,
    /// Overwrite blocks at randomly drawn indices with fresh ones.
    RandomUpdate,
}

/// What one iteration of a scenario asks of the workload generator.
#[derive(Clone, Copy, Debug, PartialEq, Eq, Structural)]
pub enum Need {
    Nothing,
    Block,
    Index,
    BlockAndIndex,
}

impl Need {
    pub open spec fn spec_has_block(self) -> bool {
        self is Block || self is BlockAndIndex
    }

    #[verifier::when_used_as_spec(spec_has_block)]
    pub fn has_block(self) -> (r: bool)
        ensures
            r == self.spec_has_block(),
    {
        match self {
            Need::Block | Need::BlockAndIndex => true,
            _ => false,
        }
    }

    pub open spec fn spec_has_index(self) -> bool {
        self is Index || self is BlockAndIndex
    }

    #[verifier::when_used_as_spec(spec_has_index)]
    pub fn has_index(self) -> (r: bool)
        ensures
            r == self.spec_has_index(),
    {
        match self {
            Need::Index | Need::BlockAndIndex => true,
            _ => false,
        }
    }
}

impl Scenario {
    pub open spec fn spec_ordinal(self) -> u8 {
        match self {
            Scenario::PushBytes => 1,
            Scenario::IterateBlocks => 2,
            Scenario::RandomRead => 3,
            Scenario::RandomUpdate => 4,
        }
    }

    /// The scenario's place in a run, counted from one.
    #[verifier::when_used_as_spec(spec_ordinal)]
    pub fn ordinal(self) -> (r: u8)
        ensures
            r == self.spec_ordinal(),
    {
        match self {
            Scenario::PushBytes => 1,
            Scenario::IterateBlocks => 2,
            Scenario::RandomRead => 3,
            Scenario::RandomUpdate => 4,
        }
    }

    pub open spec fn spec_successor(self) -> Option<Scenario> {
        match self {
            Scenario::PushBytes => Some(Scenario::IterateBlocks),
            Scenario::IterateBlocks => Some(Scenario::RandomRead),
            Scenario::RandomRead => Some(Scenario::RandomUpdate),
            Scenario::RandomUpdate => None,
        }
    }

    /// The scenario that follows this one, if any.
    #[verifier::when_used_as_spec(spec_successor)]
    pub fn successor(self) -> (r: Option<Scenario>)
        ensures
            r == self.spec_successor(),
    {
        match self {
            Scenario::PushBytes => Some(Scenario::IterateBlocks),
            Scenario::IterateBlocks => Some(Scenario::RandomRead),
            Scenario::RandomRead => Some(Scenario::RandomUpdate),
            Scenario::RandomUpdate => None,
        }
    }

    pub open spec fn spec_writes(self) -> bool {
        self is PushBytes || self is RandomUpdate
    }

    /// Whether the scenario's transfers are writes (otherwise they are reads).
    #[verifier::when_used_as_spec(spec_writes)]
    pub fn writes(self) -> (r: bool)
        ensures
            r == self.spec_writes(),
    {
        match self {
            Scenario::PushBytes | Scenario::RandomUpdate => true,
            Scenario::IterateBlocks | Scenario::RandomRead => false,
        }
    }

    pub open spec fn spec_need(self) -> Need {
        match self {
            Scenario::PushBytes => Need::Block,
            Scenario::IterateBlocks => Need::Nothing,
            Scenario::RandomRead => Need::Index,
            Scenario::RandomUpdate => Need::BlockAndIndex,
        }
    }

    /// What each iteration of the scenario draws from the workload generator.
    #[verifier::when_used_as_spec(spec_need)]
    pub fn need(self) -> (r: Need)
        ensures
            r == self.spec_need(),
    {
        match self {
            Scenario::PushBytes => Need::Block,
            Scenario::IterateBlocks => Need::Nothing,
            Scenario::RandomRead => Need::Index,
            Scenario::RandomUpdate => Need::BlockAndIndex,
        }
    }

    pub open spec fn spec_name(self) -> Seq<char> {
        match self {
            Scenario::PushBytes => "Push bytes"@,
            Scenario::IterateBlocks => "Iterate blocks"@,
            Scenario::RandomRead => "Random read"@,
            Scenario::RandomUpdate => "Random update"@,
        }
    }

    /// The name under which the scenario appears in a report line.
    pub fn name(self) -> (r: &'static str)
        ensures
            r@ == self.spec_name(),
    {
        match self {
            Scenario::PushBytes => "Push bytes",
            Scenario::IterateBlocks => "Iterate blocks",
            Scenario::RandomRead => "Random read",
            Scenario::RandomUpdate => "Random update",
        }
    }
}

/// The size of the workload and the sync policy, shared by all scenarios and
/// all backends of a run.
#[derive(Clone, Copy, Debug, PartialEq, Eq, Structural)]
pub struct Config {
    /// Iterations per scenario, which is also the number of blocks in the file.
    pub count: usize,
    /// Bytes per block.
    pub block_size: usize,
    /// Whether a write of the push scenario is followed by a sync, on
    /// backends that have one.
    pub sync_on_push: bool,
    /// Whether a write of the update scenario is followed by a sync, on
    /// backends that have one.
    pub sync_on_update: bool,
}

impl Config {
    /// The file that the workload fills must be addressable by a 64-bit offset.
    pub open spec fn wf(self) -> bool {
        self.count * self.block_size <= u64::MAX
    }

    pub open spec fn spec_total_bytes(self) -> nat {
        (self.count * self.block_size) as nat
    }

    pub open spec fn spec_offset_of(self, index: nat) -> nat {
        index * (self.block_size as nat)
    }

    pub open spec fn spec_syncs_after(self, scenario: Scenario) -> bool {
        match scenario {
            Scenario::PushBytes => self.sync_on_push,
            Scenario::RandomUpdate => self.sync_on_update,
            _ => false,
        }
    }

    /// A workload of `count` blocks of `block_size` bytes that syncs after
    /// every write, or `None` if the file would not be addressable.
    pub fn new(count: usize, block_size: usize) -> (r: Option<Config>)
        ensures
            r is Some <==> count * block_size <= u64::MAX,
            r matches Some(c) ==> c == (Config {
                count,
                block_size,
                sync_on_push: true,
                sync_on_update: true,
            }),
    {
        match (count as u64).checked_mul(block_size as u64) {
            Some(_) => Some(Config { count, block_size, sync_on_push: true, sync_on_update: true }),
            None => None,
        }
    }

    /// The workload that the harness runs: 100000 blocks of 64 bytes.
    pub fn standard() -> (r: Config)
        ensures
            r.wf(),
            r == (Config {
                count: 100000,
                block_size: 64,
                sync_on_push: true,
                sync_on_update: true,
            }),
    {
        Config { count: 100000, block_size: 64, sync_on_push: true, sync_on_update: true }
    }

    /// The same workload with another sync policy.
    pub fn with_sync(self, on_push: bool, on_update: bool) -> (r: Config)
        ensures
            r == (Config { sync_on_push: on_push, sync_on_update: on_update, ..self }),
    {
        Config {
            count: self.count,
            block_size: self.block_size,
            sync_on_push: on_push,
            sync_on_update: on_update,
        }
    }

    /// Whether the workload is one that a runner accepts.
    pub fn is_valid(&self) -> (r: bool)
        ensures
            r == self.wf(),
    {
        (self.count as u64).checked_mul(self.block_size as u64).is_some()
    }

    /// Whether a write of `scenario` is followed by a sync where the backend
    /// has one.
    #[verifier::when_used_as_spec(spec_syncs_after)]
    pub fn syncs_after(self, scenario: Scenario) -> (r: bool)
        ensures
            r == self.spec_syncs_after(scenario),
    {
        match scenario {
            Scenario::PushBytes => self.sync_on_push,
            Scenario::RandomUpdate => self.sync_on_update,
            _ => false,
        }
    }

    /// The size of the file once every block is written.
    pub fn total_bytes(&self) -> (r: u64)
        requires
            self.wf(),
        ensures
            r == self.spec_total_bytes(),
    {
        (self.count as u64) * (self.block_size as u64)
    }

    /// The byte offset of block `index`.
    pub fn offset_of(&self, index: usize) -> (r: u64)
        requires
            self.wf(),
            index <= self.count,
        ensures
            r == self.spec_offset_of(index as nat),
    {
        proof {
            lemma_offset_bounds(*self, index as nat);
        }
        (index as u64) * (self.block_size as u64)
    }
}

/// Offsets grow with the index and stay inside the file.
pub proof fn lemma_offset_bounds(config: Config, index: nat)
    requires
        index <= config.count,
    ensures
        config.spec_offset_of(index) <= config.spec_total_bytes(),
        index < config.count ==> config.spec_offset_of(index) + config.block_size
            <= config.spec_total_bytes(),
        config.spec_offset_of(index + 1) == config.spec_offset_of(index) + config.block_size,
{
    let bs = config.block_size as nat;
    let n = config.count as nat;
    assert(index * bs <= n * bs) by (nonlinear_arith)
        requires
            index <= n,
    ;
    assert((index + 1) * bs == index * bs + bs) by (nonlinear_arith);
    if index < n {
        assert((index + 1) * bs <= n * bs) by (nonlinear_arith)
            requires
                index + 1 <= n,
        ;
    }
}

} // verus!

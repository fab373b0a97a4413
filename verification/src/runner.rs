//! The benchmark runner: a state machine that turns the outcome of the last
//! operation into the next one.
//!
//! A run goes through the four scenarios in order. Each scenario is opened
//! (the clock starts), iterated `count` times and closed (the clock stops).
//! What an iteration consists of depends on the backend: a cursor backend
//! seeks and then transfers, a positional backend transfers at an explicit
//! offset. A write is followed by a sync where the backend has one and the
//! policy asks for it.

use vstd::prelude::*;
use crate::action::{Action, ActionView};
use crate::plan::{Backend, Config, Need, Scenario};
use crate::workload::{Draw, DrawView, WorkloadGenerator};

verus! {

/// Where a run stands: which action is outstanding.
#[derive(Clone, Copy, Debug, PartialEq, Eq, Structural)]
pub enum Stage {
    /// The file is being created.
    Creating,
    /// The clock of a scenario is being started.
    Opening(Scenario),
    /// The cursor is being moved back to the start, before the blocks are
    /// iterated.
    Rewinding,
    /// The cursor is being moved to where the iteration's transfer goes.
    Seeking(Scenario),
    /// The iteration's block is being read or written.
    Transferring(Scenario),
    /// The write of the last iteration is being made durable.
    Syncing(Scenario),
    /// The clock of a scenario is being stopped.
    Closing(Scenario),
    /// Every scenario is complete.
    Done,
    /// An operation failed.
    Failed,
}

/// The state of a runner as a mathematical value.
pub struct RunnerView {
    pub backend: Backend,
    pub config: Config,
    pub stage: Stage,
    /// Transfers completed in the current scenario.
    pub done: usize,
    /// The block that waits for its seek to complete; empty otherwise.
    pub block: Seq<u8>,
}

impl RunnerView {
    /// The state in which a run begins: the file is being created.
    pub open spec fn initial(backend: Backend, config: Config) -> RunnerView {
        RunnerView { backend, config, stage: Stage::Creating, done: 0, block: Seq::empty() }
    }

    /// Whether a write of `scenario` is followed by a sync: the backend must
    /// have a sync step and the policy must ask for it.
    pub open spec fn syncs(self, scenario: Scenario) -> bool {
        scenario.writes() && self.backend.distinguishes_sync() && self.config.syncs_after(
            scenario,
        )
    }

    /// The byte offset of block `index`.
    pub open spec fn offset(self, index: usize) -> u64 {
        self.config.spec_offset_of(index as nat) as u64
    }

    /// The states that a run can be in.
    pub open spec fn wf(self) -> bool {
        &&& self.config.wf()
        &&& self.done <= self.config.count
        &&& match self.stage {
            Stage::Creating | Stage::Opening(_) => self.done == 0 && self.block.len() == 0,
            Stage::Rewinding => self.done == 0 && self.block.len() == 0
                && self.backend.has_cursor(),
            Stage::Seeking(s) => {
                &&& self.done < self.config.count
                &&& self.backend.has_cursor()
                &&& !(s is IterateBlocks)
                &&& self.block.len() == if s.writes() {
                    self.config.block_size as nat
                } else {
                    0
                }
            },
            Stage::Transferring(_) => self.done < self.config.count && self.block.len() == 0,
            Stage::Syncing(s) => self.done >= 1 && self.syncs(s) && self.block.len() == 0,
            Stage::Closing(_) => self.done == self.config.count && self.block.len() == 0,
            Stage::Done | Stage::Failed => self.block.len() == 0,
        }
    }

    /// What iteration `index` of `scenario` draws; nothing once the
    /// scenario's iterations are used up.
    pub open spec fn need_for(self, scenario: Scenario, index: int) -> Need {
        if index >= self.config.count {
            Need::Nothing
        } else {
            scenario.need()
        }
    }

    /// What the next step draws from the workload source, if the
    /// outstanding action succeeds.
    pub open spec fn wants(self) -> Need {
        match self.stage {
            Stage::Opening(s) => if s is IterateBlocks && self.backend.has_cursor() {
                Need::Nothing
            } else {
                self.need_for(s, self.done as int)
            },
            Stage::Rewinding => self.need_for(Scenario::IterateBlocks, self.done as int),
            Stage::Transferring(s) => if self.syncs(s) {
                Need::Nothing
            } else {
                self.need_for(s, self.done + 1)
            },
            Stage::Syncing(s) => self.need_for(s, self.done as int),
            _ => Need::Nothing,
        }
    }

    /// Begins iteration `done` of `scenario` with what was drawn for it, or
    /// closes the scenario if `count` iterations are complete.
    pub open spec fn enter(self, scenario: Scenario, draw: DrawView) -> (RunnerView, ActionView) {
        let size = self.config.block_size;
        if self.done >= self.config.count {
            (
                RunnerView { stage: Stage::Closing(scenario), block: Seq::empty(), ..self },
                ActionView::Finish(scenario),
            )
        } else if self.backend.has_cursor() {
            match scenario {
                Scenario::PushBytes => (
                    RunnerView { stage: Stage::Seeking(scenario), block: draw.block(), ..self },
                    ActionView::SeekEnd,
                ),
                Scenario::IterateBlocks => (
                    RunnerView {
                        stage: Stage::Transferring(scenario),
                        block: Seq::empty(),
                        ..self
                    },
                    ActionView::Read { len: size },
                ),
                Scenario::RandomRead => (
                    RunnerView { stage: Stage::Seeking(scenario), block: Seq::empty(), ..self },
                    ActionView::SeekStart { offset: self.offset(draw.index()) },
                ),
                Scenario::RandomUpdate => (
                    RunnerView { stage: Stage::Seeking(scenario), block: draw.block(), ..self },
                    ActionView::SeekStart { offset: self.offset(draw.index()) },
                ),
            }
        } else {
            let next = RunnerView {
                stage: Stage::Transferring(scenario),
                block: Seq::empty(),
                ..self
            };
            match scenario {
                Scenario::PushBytes => (
                    next,
                    ActionView::WriteAt { block: draw.block(), offset: self.offset(self.done) },
                ),
                Scenario::IterateBlocks => (
                    next,
                    ActionView::ReadAt { len: size, offset: self.offset(self.done) },
                ),
                Scenario::RandomRead => (
                    next,
                    ActionView::ReadAt { len: size, offset: self.offset(draw.index()) },
                ),
                Scenario::RandomUpdate => (
                    next,
                    ActionView::WriteAt {
                        block: draw.block(),
                        offset: self.offset(draw.index()),
                    },
                ),
            }
        }
    }

    /// The state that follows and the action to perform next, given whether
    /// the outstanding action succeeded and what was drawn for the step.
    ///
    /// A failure ends the run: nothing is retried and no operation follows.
    /// A finished run stays finished.
    pub open spec fn next(self, ok: bool, draw: DrawView) -> (RunnerView, ActionView) {
        match self.stage {
            Stage::Done => (self, ActionView::Done),
            Stage::Failed => (self, ActionView::Abort),
            _ if !ok => (
                RunnerView { stage: Stage::Failed, block: Seq::empty(), ..self },
                ActionView::Abort,
            ),
            Stage::Creating => (
                RunnerView {
                    stage: Stage::Opening(Scenario::PushBytes),
                    block: Seq::empty(),
                    ..self
                },
                ActionView::Begin(Scenario::PushBytes),
            ),
            Stage::Opening(s) => if s is IterateBlocks && self.backend.has_cursor() {
                (
                    RunnerView { stage: Stage::Rewinding, block: Seq::empty(), ..self },
                    ActionView::SeekStart { offset: 0 },
                )
            } else {
                self.enter(s, draw)
            },
            Stage::Rewinding => self.enter(Scenario::IterateBlocks, draw),
            Stage::Seeking(s) => (
                RunnerView { stage: Stage::Transferring(s), block: Seq::empty(), ..self },
                if s.writes() {
                    ActionView::Write { block: self.block }
                } else {
                    ActionView::Read { len: self.config.block_size }
                },
            ),
            Stage::Transferring(s) => {
                let counted = RunnerView { done: (self.done + 1) as usize, ..self };
                if self.syncs(s) {
                    (
                        RunnerView { stage: Stage::Syncing(s), block: Seq::empty(), ..counted },
                        ActionView::Sync,
                    )
                } else {
                    counted.enter(s, draw)
                }
            },
            Stage::Syncing(s) => self.enter(s, draw),
            Stage::Closing(s) => match s.successor() {
                Some(n) => (
                    RunnerView { stage: Stage::Opening(n), done: 0, block: Seq::empty(), ..self },
                    ActionView::Begin(n),
                ),
                None => (
                    RunnerView { stage: Stage::Done, block: Seq::empty(), ..self },
                    ActionView::Done,
                ),
            },
        }
    }
}

/// A step keeps a run among the states that a run can be in.
pub proof fn lemma_next_wf(state: RunnerView, ok: bool, draw: DrawView)
    requires
        state.wf(),
        ok ==> draw.fits(state.wants(), state.config),
    ensures
        state.next(ok, draw).0.wf(),
        state.next(ok, draw).0.backend == state.backend,
        state.next(ok, draw).0.config == state.config,
{
}

/// A runner names only actions that its backend has an operation for.
pub proof fn law_actions_suit_backend(state: RunnerView, ok: bool, draw: DrawView)
    requires
        state.wf(),
    ensures
        state.next(ok, draw).1.suits(state.backend),
{
}

/// A failure ends a run for good: the runner answers it with `Abort`, and
/// whatever is reported to it afterwards, it neither retries nor names
/// another operation. A complete run likewise stays complete.
pub proof fn law_end_is_final(state: RunnerView, draw: DrawView, ok: bool, later: DrawView)
    requires
        state.wf(),
    ensures
        !(state.stage is Done) ==> state.next(false, draw).1 == ActionView::Abort
            && state.next(false, draw).0.stage is Failed,
        state.next(false, draw).0.next(ok, later) == state.next(false, draw),
        state.stage is Done ==> state.next(ok, later) == (state, ActionView::Done),
{
}

/// The benchmark runner for one backend.
#[derive(Debug)]
pub struct Runner {
    backend: Backend,
    config: Config,
    stage: Stage,
    done: usize,
    block: Vec<u8>,
}

impl View for Runner {
    type V = RunnerView;

    closed spec fn view(&self) -> RunnerView {
        RunnerView {
            backend: self.backend,
            config: self.config,
            stage: self.stage,
            done: self.done,
            block: self.block@,
        }
    }
}

impl Runner {
    #[verifier::type_invariant]
    spec fn inv(self) -> bool {
        self@.wf()
    }

    /// A runner for `backend` and the first action of its run, which creates
    /// the file anew.
    pub fn new(backend: Backend, config: Config) -> (r: (Runner, Action))
        requires
            config.wf(),
        ensures
            r.0@ == RunnerView::initial(backend, config),
            r.1@ == ActionView::Create,
    {
        (
            Runner { backend, config, stage: Stage::Creating, done: 0, block: Vec::new() },
            Action::Create,
        )
    }

    /// The backend that the runner plans for.
    pub fn backend(&self) -> (r: Backend)
        ensures
            r == self@.backend,
    {
        self.backend
    }

    /// The workload that the runner plans for.
    pub fn config(&self) -> (r: Config)
        ensures
            r == self@.config,
            r.wf(),
    {
        proof {
            use_type_invariant(self);
        }
        self.config
    }

    /// Which action is outstanding.
    pub fn stage(&self) -> (r: Stage)
        ensures
            r == self@.stage,
            self@.wf(),
    {
        proof {
            use_type_invariant(self);
        }
        self.stage
    }

    /// How many transfers of the current scenario are complete.
    pub fn completed(&self) -> (r: usize)
        ensures
            r == self@.done,
            r <= self@.config.count,
    {
        proof {
            use_type_invariant(self);
        }
        self.done
    }

    /// Whether the run is over, complete or failed.
    pub fn is_finished(&self) -> (r: bool)
        ensures
            r == (self@.stage is Done || self@.stage is Failed),
    {
        match self.stage {
            Stage::Done | Stage::Failed => true,
            _ => false,
        }
    }

    /// Whether a write of `scenario` is followed by a sync.
    pub fn syncs(&self, scenario: Scenario) -> (r: bool)
        ensures
            r == self@.syncs(scenario),
    {
        scenario.writes() && self.backend.distinguishes_sync() && self.config.syncs_after(
            scenario,
        )
    }

    fn need_for(&self, scenario: Scenario, index: usize) -> (r: Need)
        ensures
            r == self@.need_for(scenario, index as int),
    {
        if index >= self.config.count {
            Need::Nothing
        } else {
            scenario.need()
        }
    }

    /// What the next step draws from the workload source, if the
    /// outstanding action succeeds.
    pub fn wants(&self) -> (r: Need)
        ensures
            r == self@.wants(),
            r.has_index() ==> self@.config.count > 0,
    {
        proof {
            use_type_invariant(self);
        }
        match self.stage {
            Stage::Opening(s) => {
                if s == Scenario::IterateBlocks && self.backend.has_cursor() {
                    Need::Nothing
                } else {
                    self.need_for(s, self.done)
                }
            },
            Stage::Rewinding => self.need_for(Scenario::IterateBlocks, self.done),
            Stage::Transferring(s) => {
                if self.syncs(s) {
                    Need::Nothing
                } else {
                    self.need_for(s, self.done + 1)
                }
            },
            Stage::Syncing(s) => self.need_for(s, self.done),
            _ => Need::Nothing,
        }
    }

    fn enter(backend: Backend, config: Config, scenario: Scenario, done: usize, draw: Draw) -> (r: (
        Runner,
        Action,
    ))
        requires
            config.wf(),
            done <= config.count,
            done < config.count ==> draw@.fits(scenario.need(), config),
        ensures
            (r.0@, r.1@) == (RunnerView {
                backend,
                config,
                stage: Stage::Creating,
                done,
                block: Seq::empty(),
            }).enter(scenario, draw@),
    {
        let size: usize = config.block_size;
        if done >= config.count {
            return (
                Runner { backend, config, stage: Stage::Closing(scenario), done, block: Vec::new() },
                Action::Finish(scenario),
            );
        }
        let (block, index) = draw.into_parts();
        let transferring = Stage::Transferring(scenario);
        let seeking = Stage::Seeking(scenario);
        if backend.has_cursor() {
            match scenario {
                Scenario::PushBytes => (
                    Runner { backend, config, stage: seeking, done, block },
                    Action::SeekEnd,
                ),
                Scenario::IterateBlocks => (
                    Runner { backend, config, stage: transferring, done, block: Vec::new() },
                    Action::Read { len: size },
                ),
                Scenario::RandomRead => (
                    Runner { backend, config, stage: seeking, done, block: Vec::new() },
                    Action::SeekStart { offset: config.offset_of(index) },
                ),
                Scenario::RandomUpdate => (
                    Runner { backend, config, stage: seeking, done, block },
                    Action::SeekStart { offset: config.offset_of(index) },
                ),
            }
        } else {
            let next = Runner { backend, config, stage: transferring, done, block: Vec::new() };
            match scenario {
                Scenario::PushBytes => (
                    next,
                    Action::WriteAt { block, offset: config.offset_of(done) },
                ),
                Scenario::IterateBlocks => (
                    next,
                    Action::ReadAt { len: size, offset: config.offset_of(done) },
                ),
                Scenario::RandomRead => (
                    next,
                    Action::ReadAt { len: size, offset: config.offset_of(index) },
                ),
                Scenario::RandomUpdate => (
                    next,
                    Action::WriteAt { block, offset: config.offset_of(index) },
                ),
            }
        }
    }

    /// Takes the outcome of the outstanding action and what was drawn for
    /// the step, and gives the state that follows and the action to perform
    /// next.
    pub fn advance(self, ok: bool, draw: Draw) -> (r: (Runner, Action))
        requires
            ok ==> draw@.fits(self@.wants(), self@.config),
        ensures
            (r.0@, r.1@) == self@.next(ok, draw@),
            r.0@.wf(),
            r.1@.suits(self@.backend),
    {
        proof {
            use_type_invariant(&self);
            lemma_next_wf(self@, ok, draw@);
            law_actions_suit_backend(self@, ok, draw@);
        }
        let backend = self.backend;
        let config = self.config;
        let done = self.done;
        let stage = self.stage;
        match stage {
            Stage::Done => (self, Action::Done),
            Stage::Failed => (self, Action::Abort),
            _ if !ok => (
                Runner { backend, config, stage: Stage::Failed, done, block: Vec::new() },
                Action::Abort,
            ),
            Stage::Creating => (
                Runner {
                    backend,
                    config,
                    stage: Stage::Opening(Scenario::PushBytes),
                    done,
                    block: Vec::new(),
                },
                Action::Begin(Scenario::PushBytes),
            ),
            Stage::Opening(s) => {
                if s == Scenario::IterateBlocks && backend.has_cursor() {
                    (
                        Runner { backend, config, stage: Stage::Rewinding, done, block: Vec::new() },
                        Action::SeekStart { offset: 0 },
                    )
                } else {
                    Runner::enter(backend, config, s, done, draw)
                }
            },
            Stage::Rewinding => Runner::enter(backend, config, Scenario::IterateBlocks, done, draw),
            Stage::Seeking(s) => {
                let next = Runner {
                    backend,
                    config,
                    stage: Stage::Transferring(s),
                    done,
                    block: Vec::new(),
                };
                if s.writes() {
                    (next, Action::Write { block: self.block })
                } else {
                    (next, Action::Read { len: config.block_size })
                }
            },
            Stage::Transferring(s) => {
                if self.syncs(s) {
                    (
                        Runner {
                            backend,
                            config,
                            stage: Stage::Syncing(s),
                            done: done + 1,
                            block: Vec::new(),
                        },
                        Action::Sync,
                    )
                } else {
                    Runner::enter(backend, config, s, done + 1, draw)
                }
            },
            Stage::Syncing(s) => Runner::enter(backend, config, s, done, draw),
            Stage::Closing(s) => match s.successor() {
                Some(n) => (
                    Runner { backend, config, stage: Stage::Opening(n), done: 0, block: Vec::new() },
                    Action::Begin(n),
                ),
                None => (
                    Runner { backend, config, stage: Stage::Done, done, block: Vec::new() },
                    Action::Done,
                ),
            },
        }
    }

    /// Takes the outcome of the outstanding action, draws from `generator`
    /// what the step needs, and gives the state that follows and the action
    /// to perform next. After a failure nothing is drawn.
    ///
    /// What was drawn is random; whatever it was, the step is the one that
    /// [`RunnerView::next`] describes for a draw of the right shape.
    pub fn step(self, generator: &mut WorkloadGenerator, ok: bool) -> (r: (Runner, Action))
        ensures
            r.0@.wf(),
            r.1@.suits(self@.backend),
            !ok ==> (r.0@, r.1@) == self@.next(false, DrawView::Nothing),
            ok ==> exists|draw: DrawView|
                draw.fits(self@.wants(), self@.config) && (r.0@, r.1@) == #[trigger] self@.next(
                    true,
                    draw,
                ),
    {
        let need = self.wants();
        let config = self.config();
        let draw = if ok {
            generator.draw(need, &config)
        } else {
            Draw::Nothing
        };
        self.advance(ok, draw)
    }
}

} // verus!

//! A run replayed against a file in memory.
//!
//! The runner only plans; what its plan does to a file is shown here. A
//! scripted workload takes the place of the random one, so that what the
//! file must hold at every step can be said exactly.

use vstd::prelude::*;
use crate::action::{Action, ActionView};
use crate::layout::{
    final_contents, laid_out, lemma_laid_out_append, lemma_laid_out_len, lemma_laid_out_read,
    lemma_revised_len, revised,
};
use crate::plan::{lemma_offset_bounds, Backend, Config, Need, Scenario};
use crate::runner::{lemma_next_wf, Runner, RunnerView, Stage};
use crate::schedule::{lemma_trace, schedule, trace};
use crate::script::{Workload, WorkloadView};
use crate::store::{BlockFile, FileState, IoFailure};
use crate::workload::{Draw, DrawView};

verus! {

/// The scenario that a stage belongs to.
pub open spec fn phase(stage: Stage) -> Option<Scenario> {
    match stage {
        Stage::Opening(s) | Stage::Seeking(s) | Stage::Transferring(s) | Stage::Syncing(s)
        | Stage::Closing(s) => Some(s),
        Stage::Rewinding => Some(Scenario::IterateBlocks),
        Stage::Creating | Stage::Done | Stage::Failed => None,
    }
}

/// What the file holds while `state` is outstanding, under `workload`.
pub open spec fn expected_bytes(state: RunnerView, workload: WorkloadView) -> Seq<u8> {
    let count = state.config.count as nat;
    let size = state.config.block_size as nat;
    match phase(state.stage) {
        Some(Scenario::PushBytes) => laid_out(workload.pushes, state.done as nat),
        Some(Scenario::IterateBlocks) | Some(Scenario::RandomRead) => laid_out(
            workload.pushes,
            count,
        ),
        Some(Scenario::RandomUpdate) => revised(
            laid_out(workload.pushes, count),
            workload.updates,
            state.done as nat,
            size,
        ),
        None => final_contents(state.config, workload),
    }
}

/// The block index that the outstanding iteration works at.
pub open spec fn target_index(state: RunnerView, scenario: Scenario, workload: WorkloadView) -> usize {
    match scenario {
        Scenario::PushBytes | Scenario::IterateBlocks => state.done,
        Scenario::RandomRead => workload.reads[state.done as int],
        Scenario::RandomUpdate => workload.updates[state.done as int].index,
    }
}

/// The action that is outstanding in `state`, under `workload`.
pub open spec fn pending(state: RunnerView, workload: WorkloadView) -> ActionView {
    let size = state.config.block_size;
    match state.stage {
        Stage::Creating => ActionView::Create,
        Stage::Opening(s) => ActionView::Begin(s),
        Stage::Rewinding => ActionView::SeekStart { offset: 0 },
        Stage::Seeking(s) => if s is PushBytes {
            ActionView::SeekEnd
        } else {
            ActionView::SeekStart { offset: state.offset(target_index(state, s, workload)) }
        },
        Stage::Transferring(s) => {
            let block = workload.draw(s, state.done as int).block();
            let offset = state.offset(target_index(state, s, workload));
            if state.backend.has_cursor() {
                if s.writes() {
                    ActionView::Write { block }
                } else {
                    ActionView::Read { len: size }
                }
            } else {
                if s.writes() {
                    ActionView::WriteAt { block, offset }
                } else {
                    ActionView::ReadAt { len: size, offset }
                }
            }
        },
        Stage::Syncing(_) => ActionView::Sync,
        Stage::Closing(s) => ActionView::Finish(s),
        Stage::Done => ActionView::Done,
        Stage::Failed => ActionView::Abort,
    }
}

/// What the step out of `state` draws from `workload`.
pub open spec fn step_draw(state: RunnerView, workload: WorkloadView) -> DrawView {
    if state.wants() is Nothing {
        DrawView::Nothing
    } else {
        match state.stage {
            Stage::Opening(s) | Stage::Syncing(s) => workload.draw(s, state.done as int),
            Stage::Transferring(s) => workload.draw(s, state.done + 1),
            _ => DrawView::Nothing,
        }
    }
}

/// Whether a run under `config` can be replayed in memory on `workload`:
/// the workload fits and the file fits into the address space.
pub open spec fn replayable(config: Config, workload: WorkloadView) -> bool {
    &&& config.wf()
    &&& config.spec_total_bytes() <= usize::MAX
    &&& workload.fits(config)
}

/// Runner and file agree: whatever the path held before the run, from the
/// moment the file is created it holds exactly what the workload put there
/// so far, the cursor stands where the outstanding transfer goes, and the
/// block that waits for its seek is the one that was drawn for the
/// iteration.
pub open spec fn in_step(state: RunnerView, file: FileState, workload: WorkloadView) -> bool {
    let size = state.config.block_size as nat;
    &&& state.wf()
    &&& replayable(state.config, workload)
    &&& !(state.stage is Failed)
    &&& !(state.stage is Creating) ==> file.present && file.bytes == expected_bytes(
        state,
        workload,
    )
    &&& state.stage matches Stage::Seeking(s) ==> s.writes() ==> state.block == workload.draw(
        s,
        state.done as int,
    ).block()
    &&& state.stage matches Stage::Transferring(s) ==> state.backend.has_cursor()
        ==> file.cursor == target_index(state, s, workload) * size
}

/// What the outstanding transfer reads; empty where it reads nothing.
pub open spec fn expected_read(state: RunnerView, workload: WorkloadView) -> Seq<u8> {
    match state.stage {
        Stage::Transferring(s) => if s.writes() {
            Seq::empty()
        } else {
            workload.pushes[target_index(state, s, workload) as int]
        },
        _ => Seq::empty(),
    }
}

/// One step of a replay: the outstanding action succeeds on the file, a read
/// returns the block that was pushed at its index, and runner and file agree
/// again afterwards, with the action that the runner names then outstanding.
pub proof fn lemma_step(state: RunnerView, file: FileState, workload: WorkloadView)
    requires
        in_step(state, file, workload),
        !(state.stage is Done),
    ensures
        step_draw(state, workload).fits(state.wants(), state.config),
        file.answer(pending(state, workload)) == Ok::<Seq<u8>, IoFailure>(
            expected_read(state, workload),
        ),
        in_step(
            state.next(true, step_draw(state, workload)).0,
            file.after(pending(state, workload)),
            workload,
        ),
        state.next(true, step_draw(state, workload)).1 == pending(
            state.next(true, step_draw(state, workload)).0,
            workload,
        ),
{
    let config = state.config;
    let count = config.count as nat;
    let size = config.block_size as nat;
    let base = laid_out(workload.pushes, count);
    let draw = step_draw(state, workload);
    let action = pending(state, workload);
    let after = file.after(action);
    let next = state.next(true, draw).0;
    lemma_next_wf(state, true, draw);
    lemma_laid_out_len(workload.pushes, count, size);
    lemma_revised_len(base, workload.updates, count, size, count);
    match state.stage {
        Stage::Seeking(s) => {
            let index = target_index(state, s, workload);
            lemma_offset_bounds(config, index as nat);
            lemma_laid_out_len(workload.pushes, state.done as nat, size);
        },
        Stage::Transferring(s) => {
            let index = target_index(state, s, workload);
            lemma_offset_bounds(config, index as nat);
            lemma_offset_bounds(config, state.done as nat);
            match s {
                Scenario::PushBytes => {
                    lemma_laid_out_len(workload.pushes, state.done as nat, size);
                    lemma_laid_out_append(workload.pushes, state.done as nat, size);
                },
                Scenario::IterateBlocks | Scenario::RandomRead => {
                    lemma_laid_out_read(workload.pushes, count, index as nat, size);
                    if size == 0 {
                        assert(workload.pushes[index as int] =~= Seq::<u8>::empty());
                    }
                },
                Scenario::RandomUpdate => {
                    lemma_revised_len(base, workload.updates, state.done as nat, size, count);
                },
            }
        },
        _ => {},
    }
}

/// A moment of a replay: the runner's state, the action that is outstanding
/// and the file that it is about to be performed on.
pub struct Moment {
    pub state: RunnerView,
    pub action: ActionView,
    pub file: FileState,
}

/// The moment that a replay of `backend` under `config` on `workload` has
/// reached after `steps` steps, on a path that held `prior` before.
///
/// A step performs the outstanding action on the file and hands the runner
/// the outcome together with the draw that the workload holds for the step.
pub open spec fn moment(
    backend: Backend,
    config: Config,
    workload: WorkloadView,
    prior: FileState,
    steps: nat,
) -> Moment
    decreases steps,
{
    if steps == 0 {
        Moment {
            state: RunnerView::initial(backend, config),
            action: ActionView::Create,
            file: prior,
        }
    } else {
        let before = moment(backend, config, workload, prior, (steps - 1) as nat);
        let ok = before.file.answer(before.action) is Ok;
        let next = before.state.next(ok, step_draw(before.state, workload));
        Moment { state: next.0, action: next.1, file: before.file.after(before.action) }
    }
}

/// At every moment of a replay runner and file are in step, and the action
/// that the runner named is the one that the workload calls for.
pub proof fn lemma_in_step(
    backend: Backend,
    config: Config,
    workload: WorkloadView,
    prior: FileState,
    steps: nat,
)
    requires
        replayable(config, workload),
    ensures
        ({
            let now = moment(backend, config, workload, prior, steps);
            &&& in_step(now.state, now.file, workload)
            &&& now.action == pending(now.state, workload)
            &&& now.state.backend == backend
            &&& now.state.config == config
        }),
    decreases steps,
{
    if steps > 0 {
        lemma_in_step(backend, config, workload, prior, (steps - 1) as nat);
        let before = moment(backend, config, workload, prior, (steps - 1) as nat);
        if !(before.state.stage is Done) {
            lemma_step(before.state, before.file, workload);
        }
    }
}

/// Once a replay has taken a step the file is created: the first action of
/// every run is the only one that creates.
pub proof fn lemma_past_creating(
    backend: Backend,
    config: Config,
    workload: WorkloadView,
    prior: FileState,
    steps: nat,
)
    requires
        replayable(config, workload),
        steps >= 1,
    ensures
        !(moment(backend, config, workload, prior, steps).state.stage is Creating),
{
    lemma_in_step(backend, config, workload, prior, (steps - 1) as nat);
}

/// How far a run is from its end: the stages left, the iterations left in
/// the current scenario, the operations left in the current iteration.
pub open spec fn stages_left(stage: Stage) -> nat {
    match stage {
        Stage::Creating => 21,
        Stage::Done | Stage::Failed => 0,
        _ => {
            let base = 5 * (4 - phase(stage).unwrap().ordinal());
            (match stage {
                Stage::Opening(_) => base + 4,
                Stage::Rewinding => base + 3,
                Stage::Closing(_) => base + 1,
                _ => base + 2,
            }) as nat
        },
    }
}

/// The operations left in the current iteration, as a rank.
pub open spec fn operations_left(stage: Stage) -> nat {
    match stage {
        Stage::Syncing(_) => 3,
        Stage::Seeking(_) => 2,
        Stage::Transferring(_) => 1,
        _ => 0,
    }
}

/// Every step brings a run closer to its end.
pub proof fn lemma_progress(state: RunnerView, draw: DrawView)
    requires
        state.wf(),
        !(state.stage is Done),
        !(state.stage is Failed),
    ensures
        ({
            let next = state.next(true, draw).0;
            ||| stages_left(next.stage) < stages_left(state.stage)
            ||| stages_left(next.stage) == stages_left(state.stage) && next.done > state.done
            ||| stages_left(next.stage) == stages_left(state.stage) && next.done == state.done
                && operations_left(next.stage) < operations_left(state.stage)
        }),
{
}

/// What a replay counted in one scenario.
#[derive(Clone, Copy, Debug, PartialEq, Eq, Structural)]
pub struct Tally {
    /// Blocks drawn from the workload.
    pub blocks: usize,
    /// Indices drawn from the workload.
    pub indices: usize,
    /// Reads performed on the file.
    pub reads: usize,
    /// Writes performed on the file.
    pub writes: usize,
}

/// Whether `scenario` is closed when `state` is outstanding: its clock was
/// stopped.
pub open spec fn closed(state: RunnerView, scenario: Scenario) -> bool {
    match phase(state.stage) {
        None => state.stage is Done,
        Some(current) => scenario.ordinal() < current.ordinal(),
    }
}

/// The iterations of `scenario` that have begun when `state` is outstanding.
pub open spec fn begun(state: RunnerView, scenario: Scenario) -> nat {
    match phase(state.stage) {
        None => if state.stage is Creating {
            0
        } else {
            state.config.count as nat
        },
        Some(current) => if scenario.ordinal() < current.ordinal() {
            state.config.count as nat
        } else if scenario.ordinal() > current.ordinal() {
            0
        } else if state.stage is Seeking || state.stage is Transferring {
            (state.done + 1) as nat
        } else {
            state.done as nat
        },
    }
}

/// The transfers of `scenario` that are complete when `state` is outstanding.
pub open spec fn transferred(state: RunnerView, scenario: Scenario) -> nat {
    match phase(state.stage) {
        None => if state.stage is Creating {
            0
        } else {
            state.config.count as nat
        },
        Some(current) => if scenario.ordinal() < current.ordinal() {
            state.config.count as nat
        } else if scenario.ordinal() > current.ordinal() {
            0
        } else {
            state.done as nat
        },
    }
}

/// Whether `tally` is what a replay has counted in `scenario` when `state`
/// is outstanding: a draw for each iteration begun, a transfer for each one
/// complete.
pub open spec fn tallied(tally: Tally, state: RunnerView, scenario: Scenario) -> bool {
    &&& tally.blocks == if scenario.need().has_block() {
        begun(state, scenario)
    } else {
        0
    }
    &&& tally.indices == if scenario.need().has_index() {
        begun(state, scenario)
    } else {
        0
    }
    &&& tally.reads == if scenario.writes() {
        0
    } else {
        transferred(state, scenario)
    }
    &&& tally.writes == if scenario.writes() {
        transferred(state, scenario)
    } else {
        0
    }
}

/// What a complete run counts in `scenario`: `count` draws of what the
/// scenario needs and `count` transfers.
pub open spec fn full_tally(config: Config, scenario: Scenario) -> Tally {
    Tally {
        blocks: if scenario.need().has_block() {
            config.count
        } else {
            0
        },
        indices: if scenario.need().has_index() {
            config.count
        } else {
            0
        },
        reads: if scenario.writes() {
            0
        } else {
            config.count
        },
        writes: if scenario.writes() {
            config.count
        } else {
            0
        },
    }
}

/// The blocks of a vector as sequences of bytes.
pub open spec fn block_views(blocks: Vec<Vec<u8>>) -> Seq<Seq<u8>> {
    Seq::new(blocks@.len(), |i: int| blocks@[i]@)
}

/// The actions of a vector as mathematical values.
pub open spec fn action_views(actions: Vec<Action>) -> Seq<ActionView> {
    Seq::new(actions@.len(), |i: int| actions@[i]@)
}

/// What a replay observed.
#[derive(Debug)]
pub struct Replay {
    /// The actions that were performed, in order.
    pub performed: Vec<Action>,
    /// The size of the file when the push scenario was closed.
    pub size_after_push: usize,
    /// The blocks that the iterate scenario read, in the order read.
    pub iterated: Vec<Vec<u8>>,
    /// The blocks that the random-read scenario read, in the order read.
    pub sampled: Vec<Vec<u8>>,
    /// What was counted while pushing.
    pub push: Tally,
    /// What was counted while iterating.
    pub iterate: Tally,
    /// What was counted while reading at random.
    pub random_read: Tally,
    /// What was counted while updating.
    pub update: Tally,
}

impl Replay {
    /// The tally of one scenario.
    pub open spec fn tally(self, scenario: Scenario) -> Tally {
        match scenario {
            Scenario::PushBytes => self.push,
            Scenario::IterateBlocks => self.iterate,
            Scenario::RandomRead => self.random_read,
            Scenario::RandomUpdate => self.update,
        }
    }

    /// The same observations with another tally for one scenario.
    pub open spec fn with_tally(self, scenario: Scenario, tally: Tally) -> Replay {
        match scenario {
            Scenario::PushBytes => Replay { push: tally, ..self },
            Scenario::IterateBlocks => Replay { iterate: tally, ..self },
            Scenario::RandomRead => Replay { random_read: tally, ..self },
            Scenario::RandomUpdate => Replay { update: tally, ..self },
        }
    }

    fn count(&mut self, scenario: Scenario, tally: Tally)
        ensures
            *final(self) == old(self).with_tally(scenario, tally),
    {
        match scenario {
            Scenario::PushBytes => {
                self.push = tally;
            },
            Scenario::IterateBlocks => {
                self.iterate = tally;
            },
            Scenario::RandomRead => {
                self.random_read = tally;
            },
            Scenario::RandomUpdate => {
                self.update = tally;
            },
        }
    }

    /// Takes note of one step: of the transfer that was performed, of what
    /// it read, and of what the step draws.
    fn record(
        &mut self,
        stage: Stage,
        need: Need,
        size: usize,
        data: Vec<u8>,
        Ghost(state): Ghost<RunnerView>,
        Ghost(workload): Ghost<WorkloadView>,
    )
        requires
            state.wf(),
            workload.fits(state.config),
            observed(*old(self), state, workload),
            stage == state.stage,
            !(stage is Done),
            !(stage is Failed),
            need == state.wants(),
            data@ == expected_read(state, workload),
            stage matches Stage::Closing(s) ==> s is PushBytes ==> size
                == state.config.spec_total_bytes(),
        ensures
            observed(*final(self), state.next(true, step_draw(state, workload)).0, workload),
            final(self).performed == old(self).performed,
    {
        match stage {
            Stage::Closing(Scenario::PushBytes) => {
                self.size_after_push = size;
            },
            Stage::Transferring(s) => {
                let tally = self.tally_of(s);
                if s.writes() {
                    self.count(s, Tally { writes: tally.writes + 1, ..tally });
                } else {
                    self.count(s, Tally { reads: tally.reads + 1, ..tally });
                }
                match s {
                    Scenario::IterateBlocks => {
                        self.iterated.push(data);
                    },
                    Scenario::RandomRead => {
                        self.sampled.push(data);
                    },
                    _ => {},
                }
            },
            _ => {},
        }
        match stage {
            Stage::Opening(s) | Stage::Syncing(s) | Stage::Transferring(s) => {
                let tally = self.tally_of(s);
                let blocks: usize = if need.has_block() {
                    tally.blocks + 1
                } else {
                    tally.blocks
                };
                let indices: usize = if need.has_index() {
                    tally.indices + 1
                } else {
                    tally.indices
                };
                self.count(s, Tally { blocks, indices, ..tally });
            },
            _ => {},
        }
    }

    fn tally_of(&self, scenario: Scenario) -> (r: Tally)
        ensures
            r == self.tally(scenario),
    {
        match scenario {
            Scenario::PushBytes => self.push,
            Scenario::IterateBlocks => self.iterate,
            Scenario::RandomRead => self.random_read,
            Scenario::RandomUpdate => self.update,
        }
    }
}

/// Whether what was observed so far is what `state` and `workload` call
/// for: every scenario's tally, the size recorded once pushing was closed,
/// and each block read equal to the block that was pushed at its index.
pub open spec fn observed(out: Replay, state: RunnerView, workload: WorkloadView) -> bool {
    &&& tallied(out.push, state, Scenario::PushBytes)
    &&& tallied(out.iterate, state, Scenario::IterateBlocks)
    &&& tallied(out.random_read, state, Scenario::RandomRead)
    &&& tallied(out.update, state, Scenario::RandomUpdate)
    &&& out.size_after_push == if closed(state, Scenario::PushBytes) {
        state.config.spec_total_bytes()
    } else {
        0
    }
    &&& out.iterated@.len() == transferred(state, Scenario::IterateBlocks)
    &&& forall|k: int|
        0 <= k < out.iterated@.len() ==> (#[trigger] out.iterated@[k])@ == workload.pushes[k]
    &&& out.sampled@.len() == transferred(state, Scenario::RandomRead)
    &&& forall|k: int|
        0 <= k < out.sampled@.len() ==> (#[trigger] out.sampled@[k])@
            == workload.pushes[workload.reads[k] as int]
}

/// Whether `workload` holds the draw for the step out of `state`.
pub open spec fn covered(state: RunnerView, workload: WorkloadView) -> bool {
    state.wants() is Nothing || match state.stage {
        Stage::Opening(s) | Stage::Syncing(s) => workload.covers(s, state.done as int),
        Stage::Transferring(s) => workload.covers(s, state.done + 1),
        _ => true,
    }
}

/// The draw that the step out of the runner's state takes from the
/// workload, or `None` where the workload does not reach that far.
pub fn scripted_draw(runner: &Runner, workload: &Workload) -> (r: Option<Draw>)
    ensures
        r is Some <==> covered(runner@, workload@),
        r matches Some(draw) ==> draw@ == step_draw(runner@, workload@),
{
    let need = runner.wants();
    if need == Need::Nothing {
        return Some(Draw::Nothing);
    }
    let done = runner.completed();
    match runner.stage() {
        Stage::Opening(s) | Stage::Syncing(s) => workload.draw(s, done),
        Stage::Transferring(s) => workload.draw(s, done + 1),
        _ => Some(Draw::Nothing),
    }
}

/// Runs the whole plan of `backend` under `config` on `file`, with
/// `workload` in place of the random draws.
///
/// Whatever `file` held before, it ends up holding the blocks of the
/// workload laid out in order with the updates written over them, which does
/// not depend on the backend. No operation fails, each scenario draws and
/// transfers exactly `count` times, the file has `count * block_size` bytes
/// once pushing is closed, and every read returns the block that was pushed
/// at its index.
///
/// Nothing is replayed, and `None` is returned, where the workload does not
/// fit the configuration or the file would not fit into memory.
pub fn replay(backend: Backend, config: Config, workload: &Workload, file: &mut BlockFile) -> (r:
    Option<Replay>)
    ensures
        r is Some <==> replayable(config, workload@),
        r is None ==> final(file)@ == old(file)@,
        r matches Some(out) ==> {
            &&& exists|steps: nat|
                {
                    let end = #[trigger] moment(backend, config, workload@, old(file)@, steps);
                    end.state.stage is Done && end.file == final(file)@
                }
            &&& final(file)@.present
            &&& final(file)@.bytes == final_contents(config, workload@)
            &&& out.size_after_push == config.count * config.block_size
            &&& block_views(out.iterated) == workload@.pushes
            &&& block_views(out.sampled) == Seq::new(
                config.count as nat,
                |k: int| workload@.pushes[workload@.reads[k] as int],
            )
            &&& out.push == full_tally(config, Scenario::PushBytes)
            &&& out.iterate == full_tally(config, Scenario::IterateBlocks)
            &&& out.random_read == full_tally(config, Scenario::RandomRead)
            &&& out.update == full_tally(config, Scenario::RandomUpdate)
            &&& action_views(out.performed).push(ActionView::Done) == schedule(
                backend,
                config,
                workload@,
            )
        },
{
    if !config.is_valid() {
        return None;
    }
    if config.total_bytes() > usize::MAX as u64 || !workload.fits(&config) {
        return None;
    }
    let zero = Tally { blocks: 0, indices: 0, reads: 0, writes: 0 };
    let mut out = Replay {
        performed: Vec::new(),
        size_after_push: 0,
        iterated: Vec::new(),
        sampled: Vec::new(),
        push: zero,
        iterate: zero,
        random_read: zero,
        update: zero,
    };
    let (first, create) = Runner::new(backend, config);
    let mut runner = first;
    let mut action = create;
    let ghost mut steps: nat = 0;
    while !action.is_final()
        invariant
            runner@.backend == backend,
            runner@.config == config,
            moment(backend, config, workload@, old(file)@, steps) == (Moment {
                state: runner@,
                action: action@,
                file: file@,
            }),
            in_step(runner@, file@, workload@),
            action@ == pending(runner@, workload@),
            observed(out, runner@, workload@),
            action_views(out.performed) == trace(backend, config, workload@, old(file)@, steps),
        decreases
            stages_left(runner@.stage),
            config.count - runner@.done,
            operations_left(runner@.stage),
    {
        let stage = runner.stage();
        proof {
            lemma_step(runner@, file@, workload@);
            lemma_progress(runner@, step_draw(runner@, workload@));
            lemma_laid_out_len(workload@.pushes, config.count as nat, config.block_size as nat);
        }
        let size = file.size();
        let data = file.perform(&action).unwrap();
        let need = runner.wants();
        out.record(stage, need, size, data, Ghost(runner@), Ghost(workload@));
        let ghost earlier = out.performed;
        out.performed.push(action.clone());
        proof {
            assert(action_views(out.performed) =~= action_views(earlier).push(action@));
        }
        let draw = scripted_draw(&runner, workload).unwrap();
        let (next, following) = runner.advance(true, draw);
        runner = next;
        action = following;
        proof {
            steps = steps + 1;
        }
    }
    proof {
        let end = moment(backend, config, workload@, old(file)@, steps);
        assert(end.state.stage is Done && end.file == file@);
        lemma_trace(backend, config, workload@, old(file)@, steps);
        let whole = schedule(backend, config, workload@);
        assert(whole.last() == ActionView::Done);
        assert(whole.drop_last().push(ActionView::Done) =~= whole);
        lemma_laid_out_len(workload@.pushes, config.count as nat, config.block_size as nat);
        assert(block_views(out.iterated) =~= workload@.pushes);
        assert(block_views(out.sampled) =~= Seq::new(
            config.count as nat,
            |k: int| workload@.pushes[workload@.reads[k] as int],
        ));
    }
    Some(out)
}

} // verus!

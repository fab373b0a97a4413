//! The schedule of a run: every action of a backend's plan, in order, as
//! one sequence.
//!
//! A run creates the file and then goes through the four scenarios. Each
//! scenario starts its clock, does `count` iterations and stops its clock.
//! An iteration is a seek (on a cursor backend, unless the cursor already
//! stands where it should), a transfer and, after a write, a sync where the
//! backend and the policy call for one.

use vstd::prelude::*;
use crate::action::ActionView;
use crate::plan::{Backend, Config, Scenario};
use crate::replay::{
    in_step, lemma_in_step, lemma_step, moment, pending, replayable, step_draw,
};
use crate::runner::{RunnerView, Stage};
use crate::script::WorkloadView;
use crate::store::FileState;
use crate::workload::DrawView;

verus! {

/// The runner at iteration `index` of `scenario`, in `stage`.
pub open spec fn at(
    backend: Backend,
    config: Config,
    stage: Stage,
    index: int,
) -> RunnerView {
    RunnerView { backend, config, stage, done: index as usize, block: Seq::empty() }
}

/// Whether an iteration of `scenario` begins with a seek: on a cursor
/// backend it does, except while iterating, where each read leaves the
/// cursor at the next block.
pub open spec fn seeks(backend: Backend, scenario: Scenario) -> bool {
    backend.has_cursor() && !(scenario is IterateBlocks)
}

/// The actions of iteration `index` of `scenario`.
pub open spec fn iteration(
    backend: Backend,
    config: Config,
    workload: WorkloadView,
    scenario: Scenario,
    index: int,
) -> Seq<ActionView> {
    let seek = pending(at(backend, config, Stage::Seeking(scenario), index), workload);
    let transfer = pending(at(backend, config, Stage::Transferring(scenario), index), workload);
    (if seeks(backend, scenario) {
        seq![seek]
    } else {
        Seq::empty()
    }) + seq![transfer] + (if RunnerView::initial(backend, config).syncs(scenario) {
        seq![ActionView::Sync]
    } else {
        Seq::empty()
    })
}

/// The actions of the first `n` iterations of `scenario`.
pub open spec fn iterations(
    backend: Backend,
    config: Config,
    workload: WorkloadView,
    scenario: Scenario,
    n: nat,
) -> Seq<ActionView>
    decreases n,
{
    if n == 0 {
        Seq::empty()
    } else {
        iterations(backend, config, workload, scenario, (n - 1) as nat) + iteration(
            backend,
            config,
            workload,
            scenario,
            n - 1,
        )
    }
}

/// The actions that open `scenario`: the clock starts, and before the
/// blocks are iterated a cursor backend moves its cursor back to the start.
pub open spec fn opening(backend: Backend, scenario: Scenario) -> Seq<ActionView> {
    seq![ActionView::Begin(scenario)] + (if scenario is IterateBlocks && backend.has_cursor() {
        seq![ActionView::SeekStart { offset: 0 }]
    } else {
        Seq::empty()
    })
}

/// The actions of `scenario` from the start of its clock to the stop.
pub open spec fn scenario_schedule(
    backend: Backend,
    config: Config,
    workload: WorkloadView,
    scenario: Scenario,
) -> Seq<ActionView> {
    opening(backend, scenario) + iterations(
        backend,
        config,
        workload,
        scenario,
        config.count as nat,
    ) + seq![ActionView::Finish(scenario)]
}

/// The actions of a run that come before `scenario` is opened.
pub open spec fn before(
    backend: Backend,
    config: Config,
    workload: WorkloadView,
    scenario: Scenario,
) -> Seq<ActionView> {
    let push = scenario_schedule(backend, config, workload, Scenario::PushBytes);
    let iterate = scenario_schedule(backend, config, workload, Scenario::IterateBlocks);
    let read = scenario_schedule(backend, config, workload, Scenario::RandomRead);
    match scenario {
        Scenario::PushBytes => seq![ActionView::Create],
        Scenario::IterateBlocks => seq![ActionView::Create] + push,
        Scenario::RandomRead => seq![ActionView::Create] + push + iterate,
        Scenario::RandomUpdate => seq![ActionView::Create] + push + iterate + read,
    }
}

/// Every action of a run, in order: the file is created, the four
/// scenarios follow one another, and the run is declared done.
pub open spec fn schedule(backend: Backend, config: Config, workload: WorkloadView) -> Seq<
    ActionView,
> {
    before(backend, config, workload, Scenario::RandomUpdate) + scenario_schedule(
        backend,
        config,
        workload,
        Scenario::RandomUpdate,
    ) + seq![ActionView::Done]
}

/// Whether an action reads a block.
pub open spec fn is_read(action: ActionView) -> bool {
    action is Read || action is ReadAt
}

/// Whether an action writes a block.
pub open spec fn is_write(action: ActionView) -> bool {
    action is Write || action is WriteAt
}

/// How many of `actions` read a block.
pub open spec fn reads_in(actions: Seq<ActionView>) -> nat
    decreases actions.len(),
{
    if actions.len() == 0 {
        0
    } else {
        reads_in(actions.drop_last()) + if is_read(actions.last()) {
            1nat
        } else {
            0nat
        }
    }
}

/// How many of `actions` write a block.
pub open spec fn writes_in(actions: Seq<ActionView>) -> nat
    decreases actions.len(),
{
    if actions.len() == 0 {
        0
    } else {
        writes_in(actions.drop_last()) + if is_write(actions.last()) {
            1nat
        } else {
            0nat
        }
    }
}

/// The reads and writes of two runs of actions add up.
pub proof fn lemma_count_concat(first: Seq<ActionView>, second: Seq<ActionView>)
    ensures
        reads_in(first + second) == reads_in(first) + reads_in(second),
        writes_in(first + second) == writes_in(first) + writes_in(second),
    decreases second.len(),
{
    if second.len() == 0 {
        assert(first + second =~= first);
    } else {
        lemma_count_concat(first, second.drop_last());
        assert((first + second).drop_last() =~= first + second.drop_last());
    }
}

/// An iteration transfers exactly one block: it reads one in a reading
/// scenario and writes one in a writing scenario.
pub proof fn lemma_count_iteration(
    backend: Backend,
    config: Config,
    workload: WorkloadView,
    scenario: Scenario,
    index: int,
)
    ensures
        reads_in(iteration(backend, config, workload, scenario, index)) == if scenario.writes() {
            0nat
        } else {
            1nat
        },
        writes_in(iteration(backend, config, workload, scenario, index)) == if scenario.writes() {
            1nat
        } else {
            0nat
        },
{
    let seek = pending(at(backend, config, Stage::Seeking(scenario), index), workload);
    let transfer = pending(at(backend, config, Stage::Transferring(scenario), index), workload);
    let head = if seeks(backend, scenario) {
        seq![seek]
    } else {
        Seq::empty()
    };
    let tail = if RunnerView::initial(backend, config).syncs(scenario) {
        seq![ActionView::Sync]
    } else {
        Seq::empty()
    };
    reveal_with_fuel(reads_in, 2);
    reveal_with_fuel(writes_in, 2);
    assert(seq![seek].drop_last() =~= Seq::<ActionView>::empty());
    assert(seq![transfer].drop_last() =~= Seq::<ActionView>::empty());
    assert(seq![ActionView::Sync].drop_last() =~= Seq::<ActionView>::empty());
    lemma_count_concat(head, seq![transfer]);
    lemma_count_concat(head + seq![transfer], tail);
}

/// `n` iterations transfer exactly `n` blocks.
pub proof fn lemma_count_iterations(
    backend: Backend,
    config: Config,
    workload: WorkloadView,
    scenario: Scenario,
    n: nat,
)
    ensures
        reads_in(iterations(backend, config, workload, scenario, n)) == if scenario.writes() {
            0
        } else {
            n
        },
        writes_in(iterations(backend, config, workload, scenario, n)) == if scenario.writes() {
            n
        } else {
            0
        },
    decreases n,
{
    if n > 0 {
        lemma_count_iterations(backend, config, workload, scenario, (n - 1) as nat);
        lemma_count_iteration(backend, config, workload, scenario, n - 1);
        lemma_count_concat(
            iterations(backend, config, workload, scenario, (n - 1) as nat),
            iteration(backend, config, workload, scenario, n - 1),
        );
    }
}

/// The actions that a replay has performed in its first `steps` steps. The
/// action that ends the run is not performed.
pub open spec fn trace(
    backend: Backend,
    config: Config,
    workload: WorkloadView,
    prior: FileState,
    steps: nat,
) -> Seq<ActionView>
    decreases steps,
{
    if steps == 0 {
        Seq::empty()
    } else {
        let earlier = trace(backend, config, workload, prior, (steps - 1) as nat);
        let action = moment(backend, config, workload, prior, (steps - 1) as nat).action;
        if action.is_final() {
            earlier
        } else {
            earlier.push(action)
        }
    }
}

/// The actions of a run up to the first iteration of `scenario`.
pub open spec fn lead(
    backend: Backend,
    config: Config,
    workload: WorkloadView,
    scenario: Scenario,
) -> Seq<ActionView> {
    before(backend, config, workload, scenario) + opening(backend, scenario)
}

/// The part of the schedule that lies behind a run when `state` is
/// outstanding.
pub open spec fn performed(state: RunnerView, workload: WorkloadView) -> Seq<ActionView> {
    let backend = state.backend;
    let config = state.config;
    let done = state.done as nat;
    match state.stage {
        Stage::Creating => Seq::empty(),
        Stage::Opening(s) => before(backend, config, workload, s),
        Stage::Rewinding => before(backend, config, workload, Scenario::IterateBlocks).push(
            ActionView::Begin(Scenario::IterateBlocks),
        ),
        Stage::Seeking(s) | Stage::Closing(s) => lead(backend, config, workload, s) + iterations(
            backend,
            config,
            workload,
            s,
            done,
        ),
        Stage::Transferring(s) => lead(backend, config, workload, s) + (if seeks(backend, s) {
            iterations(backend, config, workload, s, done).push(
                pending(at(backend, config, Stage::Seeking(s), done as int), workload),
            )
        } else {
            iterations(backend, config, workload, s, done)
        }),
        Stage::Syncing(s) => lead(backend, config, workload, s) + iterations(
            backend,
            config,
            workload,
            s,
            done,
        ).drop_last(),
        Stage::Done | Stage::Failed => schedule(backend, config, workload).drop_last(),
    }
}

/// Opening a scenario moves a run one action further along its schedule.
proof fn lemma_performed_opening(state: RunnerView, draw: DrawView, workload: WorkloadView)
    requires
        state.wf(),
        state.stage is Creating || state.stage is Opening || state.stage is Rewinding,
    ensures
        performed(state.next(true, draw).0, workload) == performed(state, workload).push(
            pending(state, workload),
        ),
{
    let backend = state.backend;
    let config = state.config;
    let next = state.next(true, draw).0;
    match state.stage {
        Stage::Opening(s) => {
            assert(iterations(backend, config, workload, s, 0) =~= Seq::empty());
            if !(s is IterateBlocks && backend.has_cursor()) {
                assert(lead(backend, config, workload, s) =~= before(
                    backend,
                    config,
                    workload,
                    s,
                ).push(ActionView::Begin(s)));
            }
        },
        Stage::Rewinding => {
            let s = Scenario::IterateBlocks;
            assert(iterations(backend, config, workload, s, 0) =~= Seq::empty());
            assert(lead(backend, config, workload, s) =~= before(backend, config, workload, s).push(
                ActionView::Begin(s),
            ).push(ActionView::SeekStart { offset: 0 }));
        },
        _ => {},
    }
    assert(performed(next, workload) =~= performed(state, workload).push(
        pending(state, workload),
    ));
}

/// Appending an action behind two runs of actions appends it to the second.
proof fn lemma_push_behind(head: Seq<ActionView>, body: Seq<ActionView>, action: ActionView)
    ensures
        (head + body).push(action) == head + body.push(action),
{
    assert((head + body).push(action) =~= head + body.push(action));
}

/// A seek moves a run one action further along its schedule.
proof fn lemma_performed_seeking(state: RunnerView, draw: DrawView, workload: WorkloadView)
    requires
        state.wf(),
        state.stage is Seeking,
    ensures
        performed(state.next(true, draw).0, workload) == performed(state, workload).push(
            pending(state, workload),
        ),
{
    let backend = state.backend;
    let config = state.config;
    let s = state.stage->Seeking_0;
    let i = state.done as int;
    let action = pending(state, workload);
    let head = lead(backend, config, workload, s);
    let body = iterations(backend, config, workload, s, i as nat);
    assert(pending(at(backend, config, Stage::Seeking(s), i), workload) == action);
    assert(seeks(backend, s));
    lemma_push_behind(head, body, action);
}

/// What an iteration consists of, with its transfer named.
proof fn lemma_iteration_parts(state: RunnerView, workload: WorkloadView)
    requires
        state.wf(),
        state.stage is Transferring,
    ensures
        ({
            let backend = state.backend;
            let config = state.config;
            let s = state.stage->Transferring_0;
            let i = state.done as int;
            let seek = pending(at(backend, config, Stage::Seeking(s), i), workload);
            let body = iterations(backend, config, workload, s, i as nat);
            let so_far = if seeks(backend, s) {
                body.push(seek)
            } else {
                body
            };
            let grown = iterations(backend, config, workload, s, (i + 1) as nat);
            &&& state.syncs(s) ==> grown.len() > 0 && grown.drop_last() == so_far.push(
                pending(state, workload),
            )
            &&& !state.syncs(s) ==> grown == so_far.push(pending(state, workload))
        }),
{
    let backend = state.backend;
    let config = state.config;
    let s = state.stage->Transferring_0;
    let i = state.done as int;
    let action = pending(state, workload);
    let seek = pending(at(backend, config, Stage::Seeking(s), i), workload);
    let body = iterations(backend, config, workload, s, i as nat);
    let one = iteration(backend, config, workload, s, i);
    let so_far = if seeks(backend, s) {
        body.push(seek)
    } else {
        body
    };
    assert(pending(at(backend, config, Stage::Transferring(s), i), workload) == action);
    assert(RunnerView::initial(backend, config).syncs(s) == state.syncs(s));
    assert(iterations(backend, config, workload, s, (i + 1) as nat) == body + one);
    if state.syncs(s) {
        assert((body + one).drop_last() =~= so_far.push(action));
    } else {
        assert(body + one =~= so_far.push(action));
    }
}

/// A transfer moves a run one action further along its schedule.
proof fn lemma_performed_transferring(state: RunnerView, draw: DrawView, workload: WorkloadView)
    requires
        state.wf(),
        state.stage is Transferring,
    ensures
        performed(state.next(true, draw).0, workload) == performed(state, workload).push(
            pending(state, workload),
        ),
{
    let backend = state.backend;
    let config = state.config;
    let s = state.stage->Transferring_0;
    let i = state.done as int;
    let next = state.next(true, draw).0;
    let action = pending(state, workload);
    let seek = pending(at(backend, config, Stage::Seeking(s), i), workload);
    let head = lead(backend, config, workload, s);
    let body = iterations(backend, config, workload, s, i as nat);
    let grown = iterations(backend, config, workload, s, (i + 1) as nat);
    let so_far = if seeks(backend, s) {
        body.push(seek)
    } else {
        body
    };
    lemma_iteration_parts(state, workload);
    lemma_push_behind(head, so_far, action);
    assert(performed(state, workload) == head + so_far);
    assert(next.done == i + 1);
    if state.syncs(s) {
        assert(next.stage == Stage::Syncing(s));
        assert(performed(next, workload) == head + grown.drop_last());
    } else {
        if next.stage is Transferring {
            assert(!seeks(backend, s));
        }
        assert(performed(next, workload) == head + grown);
    }
}

/// A sync moves a run one action further along its schedule.
proof fn lemma_performed_syncing(state: RunnerView, draw: DrawView, workload: WorkloadView)
    requires
        state.wf(),
        state.stage is Syncing,
    ensures
        performed(state.next(true, draw).0, workload) == performed(state, workload).push(
            pending(state, workload),
        ),
{
    let backend = state.backend;
    let config = state.config;
    let s = state.stage->Syncing_0;
    let i = state.done as int;
    let next = state.next(true, draw).0;
    let head = lead(backend, config, workload, s);
    let body = iterations(backend, config, workload, s, i as nat);
    let one = iteration(backend, config, workload, s, i - 1);
    assert(RunnerView::initial(backend, config).syncs(s) == state.syncs(s));
    assert(body == iterations(backend, config, workload, s, (i - 1) as nat) + one);
    assert(one.last() == ActionView::Sync);
    assert(body.drop_last().push(ActionView::Sync) =~= body);
    lemma_push_behind(head, body.drop_last(), ActionView::Sync);
    assert(seeks(backend, s));
    assert(performed(next, workload) == head + body);
}

/// A seek, a transfer or a sync moves a run one action further along its
/// schedule.
proof fn lemma_performed_iterating(state: RunnerView, draw: DrawView, workload: WorkloadView)
    requires
        state.wf(),
        state.stage is Seeking || state.stage is Transferring || state.stage is Syncing,
    ensures
        performed(state.next(true, draw).0, workload) == performed(state, workload).push(
            pending(state, workload),
        ),
{
    match state.stage {
        Stage::Seeking(_) => lemma_performed_seeking(state, draw, workload),
        Stage::Transferring(_) => lemma_performed_transferring(state, draw, workload),
        _ => lemma_performed_syncing(state, draw, workload),
    }
}

/// Closing a scenario moves a run one action further along its schedule.
proof fn lemma_performed_closing(state: RunnerView, draw: DrawView, workload: WorkloadView)
    requires
        state.wf(),
        state.stage is Closing,
    ensures
        performed(state.next(true, draw).0, workload) == performed(state, workload).push(
            pending(state, workload),
        ),
{
    let backend = state.backend;
    let config = state.config;
    let next = state.next(true, draw).0;
    let s = state.stage->Closing_0;
    let whole = scenario_schedule(backend, config, workload, s);
    let head = before(backend, config, workload, s);
    assert(performed(state, workload).push(ActionView::Finish(s)) =~= head + whole);
    match s {
        Scenario::PushBytes => {
            assert(before(backend, config, workload, Scenario::IterateBlocks) =~= head + whole);
        },
        Scenario::IterateBlocks => {
            assert(before(backend, config, workload, Scenario::RandomRead) =~= head + whole);
        },
        Scenario::RandomRead => {
            assert(before(backend, config, workload, Scenario::RandomUpdate) =~= head + whole);
        },
        Scenario::RandomUpdate => {
            assert(schedule(backend, config, workload).drop_last() =~= head + whole);
        },
    }
}

/// Performing the outstanding action moves a run one action further along
/// its schedule.
pub proof fn lemma_performed_step(state: RunnerView, draw: DrawView, workload: WorkloadView)
    requires
        state.wf(),
        !(state.stage is Done),
        !(state.stage is Failed),
    ensures
        performed(state.next(true, draw).0, workload) == performed(state, workload).push(
            pending(state, workload),
        ),
{
    match state.stage {
        Stage::Creating | Stage::Opening(_) | Stage::Rewinding => {
            lemma_performed_opening(state, draw, workload);
        },
        Stage::Closing(_) => {
            lemma_performed_closing(state, draw, workload);
        },
        _ => {
            lemma_performed_iterating(state, draw, workload);
        },
    }
}

/// What follows a moment of a replay that is in step, that is, where the
/// runner and the file agree.
proof fn lemma_successor(
    backend: Backend,
    config: Config,
    workload: WorkloadView,
    prior: FileState,
    steps: nat,
)
    requires
        steps >= 1,
        ({
            let earlier = moment(backend, config, workload, prior, (steps - 1) as nat);
            in_step(earlier.state, earlier.file, workload) && earlier.action == pending(
                earlier.state,
                workload,
            )
        }),
    ensures
        ({
            let earlier = moment(backend, config, workload, prior, (steps - 1) as nat);
            let now = moment(backend, config, workload, prior, steps);
            &&& earlier.action.is_final() <==> earlier.state.stage is Done
            &&& earlier.state.stage is Done ==> now.state == earlier.state
            &&& !(earlier.state.stage is Done) ==> now.state == earlier.state.next(
                true,
                step_draw(earlier.state, workload),
            ).0
            &&& !(earlier.state.stage is Failed)
        }),
{
    let earlier = moment(backend, config, workload, prior, (steps - 1) as nat);
    if !(earlier.state.stage is Done) {
        lemma_step(earlier.state, earlier.file, workload);
    }
}

/// A replay performs its schedule: what lies behind it at any moment is the
/// part of the schedule up to the outstanding action.
pub proof fn lemma_trace(
    backend: Backend,
    config: Config,
    workload: WorkloadView,
    prior: FileState,
    steps: nat,
)
    requires
        replayable(config, workload),
    ensures
        trace(backend, config, workload, prior, steps) == performed(
            moment(backend, config, workload, prior, steps).state,
            workload,
        ),
    decreases steps,
{
    if steps > 0 {
        let before = (steps - 1) as nat;
        lemma_trace(backend, config, workload, prior, before);
        lemma_in_step(backend, config, workload, prior, before);
        lemma_successor(backend, config, workload, prior, steps);
        let earlier = moment(backend, config, workload, prior, before);
        if !(earlier.state.stage is Done) {
            lemma_performed_step(earlier.state, step_draw(earlier.state, workload), workload);
        }
    }
}

} // verus!

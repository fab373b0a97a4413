//! What holds of every replayed run, whatever the backend, the workload and
//! the previous contents of the path.

use vstd::prelude::*;
use crate::action::ActionView;
use crate::layout::{
    final_contents, laid_out, lemma_laid_out_len, lemma_laid_out_read, lemma_revised_len,
};
use crate::plan::{lemma_offset_bounds, Backend, Config, Scenario};
use crate::replay::{
    closed, lemma_in_step, lemma_past_creating, lemma_progress, lemma_step, moment,
    operations_left, phase, replayable, stages_left, step_draw,
};
use crate::runner::Stage;
use crate::schedule::{
    iterations, lemma_count_concat, lemma_count_iterations, lemma_trace, opening, reads_in,
    scenario_schedule, schedule, trace, writes_in,
};
use crate::script::WorkloadView;
use crate::store::{FileState, IoFailure};

verus! {

/// No operation of a replay fails: every backend's plan reads only what
/// was written before.
pub proof fn law_no_failure(
    backend: Backend,
    config: Config,
    workload: WorkloadView,
    prior: FileState,
    steps: nat,
)
    requires
        replayable(config, workload),
    ensures
        ({
            let now = moment(backend, config, workload, prior, steps);
            &&& now.file.answer(now.action) is Ok
            &&& !(now.state.stage is Failed)
            &&& !(now.action is Abort)
        }),
{
    lemma_in_step(backend, config, workload, prior, steps);
    let now = moment(backend, config, workload, prior, steps);
    if !(now.state.stage is Done) {
        lemma_step(now.state, now.file, workload);
    }
}

/// Every replay comes to its end: after some number of steps, not before
/// `from`, every scenario is complete.
pub proof fn law_completes(
    backend: Backend,
    config: Config,
    workload: WorkloadView,
    prior: FileState,
    from: nat,
) -> (steps: nat)
    requires
        replayable(config, workload),
    ensures
        steps >= from,
        moment(backend, config, workload, prior, steps).state.stage is Done,
    decreases
        stages_left(moment(backend, config, workload, prior, from).state.stage),
        config.count - moment(backend, config, workload, prior, from).state.done,
        operations_left(moment(backend, config, workload, prior, from).state.stage),
{
    lemma_in_step(backend, config, workload, prior, from);
    let now = moment(backend, config, workload, prior, from);
    if now.state.stage is Done {
        from
    } else {
        lemma_step(now.state, now.file, workload);
        lemma_progress(now.state, step_draw(now.state, workload));
        lemma_in_step(backend, config, workload, prior, from + 1);
        law_completes(backend, config, workload, prior, from + 1)
    }
}

/// Once the push scenario is complete the file has exactly
/// `count * block_size` bytes, and it keeps that size to the end of the run.
pub proof fn law_size_after_push(
    backend: Backend,
    config: Config,
    workload: WorkloadView,
    prior: FileState,
    steps: nat,
)
    requires
        replayable(config, workload),
        ({
            let now = moment(backend, config, workload, prior, steps);
            now.state.stage == Stage::Closing(Scenario::PushBytes) || closed(
                now.state,
                Scenario::PushBytes,
            )
        }),
    ensures
        moment(backend, config, workload, prior, steps).file.bytes.len() == config.count
            * config.block_size,
{
    lemma_in_step(backend, config, workload, prior, steps);
    let now = moment(backend, config, workload, prior, steps);
    let count = config.count as nat;
    let size = config.block_size as nat;
    lemma_laid_out_len(workload.pushes, count, size);
    lemma_revised_len(laid_out(workload.pushes, count), workload.updates, count, size, count);
    lemma_revised_len(
        laid_out(workload.pushes, count),
        workload.updates,
        now.state.done as nat,
        size,
        count,
    );
}

/// From the end of the push scenario until the first update, reading at
/// the offset of any block returns exactly the bytes that were pushed
/// there, by a positional read as well as by a seek and a read at the cursor.
pub proof fn law_read_back(
    backend: Backend,
    config: Config,
    workload: WorkloadView,
    prior: FileState,
    steps: nat,
    index: usize,
)
    requires
        replayable(config, workload),
        index < config.count,
        ({
            let now = moment(backend, config, workload, prior, steps);
            ||| now.state.stage == Stage::Closing(Scenario::PushBytes)
            ||| phase(now.state.stage) == Some(Scenario::IterateBlocks)
            ||| phase(now.state.stage) == Some(Scenario::RandomRead)
            ||| now.state.stage == Stage::Opening(Scenario::RandomUpdate)
        }),
    ensures
        ({
            let now = moment(backend, config, workload, prior, steps);
            let offset = (index * config.block_size) as u64;
            let len = config.block_size;
            let pushed = Ok::<Seq<u8>, IoFailure>(workload.pushes[index as int]);
            &&& offset == index * config.block_size
            &&& now.file.answer(ActionView::ReadAt { len, offset }) == pushed
            &&& now.file.after(ActionView::SeekStart { offset }).answer(ActionView::Read { len })
                == pushed
        }),
{
    lemma_in_step(backend, config, workload, prior, steps);
    let count = config.count as nat;
    let size = config.block_size as nat;
    lemma_offset_bounds(config, index as nat);
    lemma_laid_out_len(workload.pushes, count, size);
    lemma_laid_out_read(workload.pushes, count, index as nat, size);
    if size == 0 {
        assert(workload.pushes[index as int] =~= Seq::<u8>::empty());
    }
}

/// A run starts from an empty file whatever the path held before: the
/// first action creates the file anew, and from then on the run is the same
/// as on any other previous contents.
pub proof fn law_fresh_start(
    backend: Backend,
    config: Config,
    workload: WorkloadView,
    prior: FileState,
    other: FileState,
    steps: nat,
)
    requires
        steps >= 1,
    ensures
        moment(backend, config, workload, prior, 0).action == ActionView::Create,
        moment(backend, config, workload, prior, 1).file == FileState::created(),
        moment(backend, config, workload, prior, steps) == moment(
            backend,
            config,
            workload,
            other,
            steps,
        ),
    decreases steps,
{
    reveal_with_fuel(moment, 2);
    if steps > 1 {
        law_fresh_start(backend, config, workload, prior, other, (steps - 1) as nat);
    }
}

/// A workload without iterations is planned without a single transfer,
/// seek to a block, sync or draw: the file is created, each scenario is
/// opened and closed, and the file stays empty.
pub proof fn law_empty_workload(
    backend: Backend,
    config: Config,
    workload: WorkloadView,
    prior: FileState,
    steps: nat,
)
    requires
        replayable(config, workload),
        config.count == 0,
    ensures
        ({
            let now = moment(backend, config, workload, prior, steps);
            &&& now.action is Create || now.action is Begin || now.action is Finish || now.action
                is Done || now.action == (ActionView::SeekStart { offset: 0 })
            &&& now.state.wants() is Nothing
            &&& now.file.answer(now.action) is Ok
            &&& steps >= 1 ==> now.file.bytes == Seq::<u8>::empty()
        }),
{
    lemma_in_step(backend, config, workload, prior, steps);
    law_no_failure(backend, config, workload, prior, steps);
    let now = moment(backend, config, workload, prior, steps);
    if steps >= 1 {
        lemma_past_creating(backend, config, workload, prior, steps);
        assert(laid_out(workload.pushes, 0) =~= Seq::<u8>::empty());
        assert(now.file.bytes =~= Seq::<u8>::empty());
    }
}

/// A workload of no bytes, be it of no blocks or of empty ones, leaves an
/// empty file behind.
pub proof fn law_zero_bytes(config: Config, workload: WorkloadView)
    requires
        replayable(config, workload),
        config.count == 0 || config.block_size == 0,
    ensures
        final_contents(config, workload) == Seq::<u8>::empty(),
{
    let count = config.count as nat;
    let size = config.block_size as nat;
    lemma_laid_out_len(workload.pushes, count, size);
    lemma_revised_len(laid_out(workload.pushes, count), workload.updates, count, size, count);
    assert(count * size == 0) by (nonlinear_arith)
        requires
            count == 0 || size == 0,
    ;
    assert(final_contents(config, workload) =~= Seq::<u8>::empty());
}

/// A complete replay has performed the whole schedule of its backend, action
/// for action, no more and no less.
pub proof fn law_follows_schedule(
    backend: Backend,
    config: Config,
    workload: WorkloadView,
    prior: FileState,
    steps: nat,
)
    requires
        replayable(config, workload),
        moment(backend, config, workload, prior, steps).state.stage is Done,
    ensures
        trace(backend, config, workload, prior, steps).push(ActionView::Done) == schedule(
            backend,
            config,
            workload,
        ),
{
    lemma_trace(backend, config, workload, prior, steps);
    lemma_in_step(backend, config, workload, prior, steps);
    let whole = schedule(backend, config, workload);
    assert(whole.last() == ActionView::Done);
    assert(whole.drop_last().push(ActionView::Done) =~= whole);
}

/// Between the start and the stop of its clock a scenario transfers
/// exactly `count` blocks, on every backend: `count` writes where the
/// scenario writes, `count` reads where it reads, and none of the other kind.
pub proof fn law_count_per_scenario(
    backend: Backend,
    config: Config,
    workload: WorkloadView,
    scenario: Scenario,
)
    ensures
        reads_in(scenario_schedule(backend, config, workload, scenario)) == if scenario.writes() {
            0
        } else {
            config.count as nat
        },
        writes_in(scenario_schedule(backend, config, workload, scenario)) == if scenario.writes() {
            config.count as nat
        } else {
            0
        },
{
    let body = iterations(backend, config, workload, scenario, config.count as nat);
    let head = opening(backend, scenario);
    let tail = seq![ActionView::Finish(scenario)];
    lemma_count_iterations(backend, config, workload, scenario, config.count as nat);
    lemma_count_concat(head, body);
    lemma_count_concat(head + body, tail);
    reveal_with_fuel(reads_in, 3);
    reveal_with_fuel(writes_in, 3);
    assert(tail.drop_last() =~= Seq::<ActionView>::empty());
    assert(head.drop_last().len() <= 1);
    if head.len() == 2 {
        assert(head.drop_last().drop_last() =~= Seq::<ActionView>::empty());
    } else {
        assert(head.drop_last() =~= Seq::<ActionView>::empty());
    }
}

/// When two backends have completed their runs under the same
/// configuration and workload, their files hold the same bytes: the blocks
/// of the workload in order, with its updates written over them.
pub proof fn law_backends_agree(
    first: Backend,
    second: Backend,
    config: Config,
    workload: WorkloadView,
    first_prior: FileState,
    second_prior: FileState,
    first_steps: nat,
    second_steps: nat,
)
    requires
        replayable(config, workload),
        moment(first, config, workload, first_prior, first_steps).state.stage is Done,
        moment(second, config, workload, second_prior, second_steps).state.stage is Done,
    ensures
        moment(first, config, workload, first_prior, first_steps).file.bytes == moment(
            second,
            config,
            workload,
            second_prior,
            second_steps,
        ).file.bytes,
        moment(first, config, workload, first_prior, first_steps).file.bytes == final_contents(
            config,
            workload,
        ),
{
    lemma_in_step(first, config, workload, first_prior, first_steps);
    lemma_in_step(second, config, workload, second_prior, second_steps);
}

} // verus!

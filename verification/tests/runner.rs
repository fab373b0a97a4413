use blockbench::action::Action;
use blockbench::plan::{Backend, Config, Need, Scenario};
use blockbench::replay::scripted_draw;
use blockbench::runner::{Runner, Stage};
use blockbench::script::{Update, Workload};
use blockbench::store::BlockFile;
use blockbench::workload::{Draw, WorkloadGenerator};

fn three_blocks() -> Workload {
    Workload {
        pushes: vec![vec![1, 2, 3, 4], vec![5, 6, 7, 8], vec![9, 10, 11, 12]],
        reads: vec![2, 0, 2],
        updates: vec![
            Update { block: vec![0xa0, 0xa1, 0xa2, 0xa3], index: 1 },
            Update { block: vec![0xb0, 0xb1, 0xb2, 0xb3], index: 1 },
            Update { block: vec![0xc0, 0xc1, 0xc2, 0xc3], index: 0 },
        ],
    }
}

fn plan_of(backend: Backend, config: Config, workload: &Workload) -> Vec<Action> {
    let (mut runner, mut action) = Runner::new(backend, config);
    let mut plan = Vec::new();
    loop {
        let last = action.is_final();
        assert!(action.suits(backend));
        plan.push(action);
        if last {
            return plan;
        }
        let draw = scripted_draw(&runner, workload).unwrap();
        assert!(draw.fits(runner.wants(), &config));
        let (next, following) = runner.advance(true, draw);
        runner = next;
        action = following;
    }
}

#[test]
fn a_run_begins_by_creating_the_file() {
    for backend in [
        Backend::CursorSync,
        Backend::PositionalSync,
        Backend::CursorAsync,
        Backend::QueueAsync,
    ] {
        let (runner, action) = Runner::new(backend, Config::standard());
        assert_eq!(action, Action::Create);
        assert_eq!(runner.stage(), Stage::Creating);
        assert_eq!(runner.backend(), backend);
        assert_eq!(runner.config(), Config::standard());
        assert_eq!(runner.completed(), 0);
        assert_eq!(runner.wants(), Need::Nothing);
        assert!(!runner.is_finished());
    }
}

#[test]
fn cursor_backend_seeks_before_every_transfer() {
    let config = Config::new(3, 4).unwrap();
    let plan = plan_of(Backend::CursorSync, config, &three_blocks());
    let expected = vec![
        Action::Create,
        Action::Begin(Scenario::PushBytes),
        Action::SeekEnd,
        Action::Write { block: vec![1, 2, 3, 4] },
        Action::Sync,
        Action::SeekEnd,
        Action::Write { block: vec![5, 6, 7, 8] },
        Action::Sync,
        Action::SeekEnd,
        Action::Write { block: vec![9, 10, 11, 12] },
        Action::Sync,
        Action::Finish(Scenario::PushBytes),
        Action::Begin(Scenario::IterateBlocks),
        Action::SeekStart { offset: 0 },
        Action::Read { len: 4 },
        Action::Read { len: 4 },
        Action::Read { len: 4 },
        Action::Finish(Scenario::IterateBlocks),
        Action::Begin(Scenario::RandomRead),
        Action::SeekStart { offset: 8 },
        Action::Read { len: 4 },
        Action::SeekStart { offset: 0 },
        Action::Read { len: 4 },
        Action::SeekStart { offset: 8 },
        Action::Read { len: 4 },
        Action::Finish(Scenario::RandomRead),
        Action::Begin(Scenario::RandomUpdate),
        Action::SeekStart { offset: 4 },
        Action::Write { block: vec![0xa0, 0xa1, 0xa2, 0xa3] },
        Action::Sync,
        Action::SeekStart { offset: 4 },
        Action::Write { block: vec![0xb0, 0xb1, 0xb2, 0xb3] },
        Action::Sync,
        Action::SeekStart { offset: 0 },
        Action::Write { block: vec![0xc0, 0xc1, 0xc2, 0xc3] },
        Action::Sync,
        Action::Finish(Scenario::RandomUpdate),
        Action::Done,
    ];
    assert_eq!(plan, expected);
    assert_eq!(plan_of(Backend::CursorAsync, config, &three_blocks()), expected);
}

#[test]
fn positional_backend_transfers_at_block_offsets() {
    let config = Config::new(3, 4).unwrap();
    let plan = plan_of(Backend::PositionalSync, config, &three_blocks());
    let expected = vec![
        Action::Create,
        Action::Begin(Scenario::PushBytes),
        Action::WriteAt { block: vec![1, 2, 3, 4], offset: 0 },
        Action::WriteAt { block: vec![5, 6, 7, 8], offset: 4 },
        Action::WriteAt { block: vec![9, 10, 11, 12], offset: 8 },
        Action::Finish(Scenario::PushBytes),
        Action::Begin(Scenario::IterateBlocks),
        Action::ReadAt { len: 4, offset: 0 },
        Action::ReadAt { len: 4, offset: 4 },
        Action::ReadAt { len: 4, offset: 8 },
        Action::Finish(Scenario::IterateBlocks),
        Action::Begin(Scenario::RandomRead),
        Action::ReadAt { len: 4, offset: 8 },
        Action::ReadAt { len: 4, offset: 0 },
        Action::ReadAt { len: 4, offset: 8 },
        Action::Finish(Scenario::RandomRead),
        Action::Begin(Scenario::RandomUpdate),
        Action::WriteAt { block: vec![0xa0, 0xa1, 0xa2, 0xa3], offset: 4 },
        Action::WriteAt { block: vec![0xb0, 0xb1, 0xb2, 0xb3], offset: 4 },
        Action::WriteAt { block: vec![0xc0, 0xc1, 0xc2, 0xc3], offset: 0 },
        Action::Finish(Scenario::RandomUpdate),
        Action::Done,
    ];
    assert_eq!(plan, expected);
    assert_eq!(plan_of(Backend::QueueAsync, config, &three_blocks()), expected);
}

#[test]
fn sync_policy_is_toggled_per_scenario() {
    let workload = three_blocks();
    let count_syncs = |plan: &Vec<Action>| plan.iter().filter(|a| **a == Action::Sync).count();
    let base = Config::new(3, 4).unwrap();

    assert_eq!(count_syncs(&plan_of(Backend::CursorSync, base, &workload)), 6);
    let push_only = plan_of(Backend::CursorSync, base.with_sync(true, false), &workload);
    assert_eq!(count_syncs(&push_only), 3);
    assert_eq!(push_only[4], Action::Sync);
    assert_eq!(push_only[push_only.len() - 3], Action::Write { block: vec![0xc0, 0xc1, 0xc2, 0xc3] });
    let update_only = plan_of(Backend::CursorAsync, base.with_sync(false, true), &workload);
    assert_eq!(count_syncs(&update_only), 3);
    assert_eq!(update_only[4], Action::SeekEnd);
    assert_eq!(update_only[update_only.len() - 3], Action::Sync);
    assert_eq!(count_syncs(&plan_of(Backend::CursorSync, base.with_sync(false, false), &workload)), 0);

    assert_eq!(count_syncs(&plan_of(Backend::PositionalSync, base, &workload)), 0);
    assert_eq!(count_syncs(&plan_of(Backend::QueueAsync, base, &workload)), 0);
}

#[test]
fn runner_says_what_it_draws_next() {
    let config = Config::new(2, 4).unwrap();
    let (runner, _) = Runner::new(Backend::PositionalSync, config);
    let (runner, action) = runner.advance(true, Draw::Nothing);
    assert_eq!(action, Action::Begin(Scenario::PushBytes));
    assert_eq!(runner.stage(), Stage::Opening(Scenario::PushBytes));
    assert_eq!(runner.wants(), Need::Block);
    let (runner, action) = runner.advance(true, Draw::Block(vec![1, 1, 1, 1]));
    assert_eq!(action, Action::WriteAt { block: vec![1, 1, 1, 1], offset: 0 });
    assert_eq!(runner.stage(), Stage::Transferring(Scenario::PushBytes));
    assert_eq!(runner.completed(), 0);
    assert_eq!(runner.wants(), Need::Block);
    let (runner, action) = runner.advance(true, Draw::Block(vec![2, 2, 2, 2]));
    assert_eq!(action, Action::WriteAt { block: vec![2, 2, 2, 2], offset: 4 });
    assert_eq!(runner.completed(), 1);
    assert_eq!(runner.wants(), Need::Nothing);
    let (runner, action) = runner.advance(true, Draw::Nothing);
    assert_eq!(action, Action::Finish(Scenario::PushBytes));
    assert_eq!(runner.stage(), Stage::Closing(Scenario::PushBytes));
    assert_eq!(runner.completed(), 2);
    let (runner, action) = runner.advance(true, Draw::Nothing);
    assert_eq!(action, Action::Begin(Scenario::IterateBlocks));
    assert_eq!(runner.completed(), 0);
    assert_eq!(runner.wants(), Need::Nothing);
}

#[test]
fn cursor_runner_keeps_the_block_until_the_seek_is_done() {
    let config = Config::new(1, 2).unwrap();
    let (runner, _) = Runner::new(Backend::CursorSync, config);
    let (runner, _) = runner.advance(true, Draw::Nothing);
    assert_eq!(runner.wants(), Need::Block);
    let (runner, action) = runner.advance(true, Draw::Block(vec![7, 8]));
    assert_eq!(action, Action::SeekEnd);
    assert_eq!(runner.stage(), Stage::Seeking(Scenario::PushBytes));
    assert_eq!(runner.wants(), Need::Nothing);
    let (runner, action) = runner.advance(true, Draw::Nothing);
    assert_eq!(action, Action::Write { block: vec![7, 8] });
    assert_eq!(runner.stage(), Stage::Transferring(Scenario::PushBytes));
    assert!(runner.syncs(Scenario::PushBytes));
    assert!(!runner.syncs(Scenario::IterateBlocks));
    let (runner, action) = runner.advance(true, Draw::Nothing);
    assert_eq!(action, Action::Sync);
    assert_eq!(runner.stage(), Stage::Syncing(Scenario::PushBytes));
    assert_eq!(runner.completed(), 1);
}

#[test]
fn a_failure_ends_the_run() {
    let config = Config::new(3, 4).unwrap();
    let workload = three_blocks();
    for backend in [Backend::CursorSync, Backend::QueueAsync] {
        for failing in 0..20 {
            let (mut runner, mut action) = Runner::new(backend, config);
            for _ in 0..failing {
                let draw = scripted_draw(&runner, &workload).unwrap();
                let (next, following) = runner.advance(true, draw);
                runner = next;
                action = following;
            }
            assert!(!action.is_final());
            let (runner, action) = runner.advance(false, Draw::Nothing);
            assert_eq!(action, Action::Abort);
            assert_eq!(runner.stage(), Stage::Failed);
            assert!(runner.is_finished());
            assert_eq!(runner.wants(), Need::Nothing);
            let (runner, action) = runner.advance(true, Draw::Nothing);
            assert_eq!(action, Action::Abort);
            let (runner, action) = runner.advance(false, Draw::Nothing);
            assert_eq!(action, Action::Abort);
            assert_eq!(runner.stage(), Stage::Failed);
        }
    }
}

#[test]
fn a_complete_run_stays_complete() {
    let config = Config::new(0, 4).unwrap();
    let nothing = Workload { pushes: Vec::new(), reads: Vec::new(), updates: Vec::new() };
    let (mut runner, mut action) = Runner::new(Backend::PositionalSync, config);
    while !action.is_final() {
        let draw = scripted_draw(&runner, &nothing).unwrap();
        let (next, following) = runner.advance(true, draw);
        runner = next;
        action = following;
    }
    assert_eq!(action, Action::Done);
    assert_eq!(runner.stage(), Stage::Done);
    assert!(runner.is_finished());
    let (runner, action) = runner.advance(true, Draw::Nothing);
    assert_eq!(action, Action::Done);
    let (runner, action) = runner.advance(false, Draw::Nothing);
    assert_eq!(action, Action::Done);
    assert_eq!(runner.stage(), Stage::Done);
}

#[test]
fn empty_workload_opens_and_closes_every_scenario() {
    let nothing = Workload { pushes: Vec::new(), reads: Vec::new(), updates: Vec::new() };
    for size in [0usize, 64] {
        let config = Config::new(0, size).unwrap();
        assert_eq!(
            plan_of(Backend::PositionalSync, config, &nothing),
            vec![
                Action::Create,
                Action::Begin(Scenario::PushBytes),
                Action::Finish(Scenario::PushBytes),
                Action::Begin(Scenario::IterateBlocks),
                Action::Finish(Scenario::IterateBlocks),
                Action::Begin(Scenario::RandomRead),
                Action::Finish(Scenario::RandomRead),
                Action::Begin(Scenario::RandomUpdate),
                Action::Finish(Scenario::RandomUpdate),
                Action::Done,
            ]
        );
        assert_eq!(
            plan_of(Backend::CursorSync, config, &nothing),
            vec![
                Action::Create,
                Action::Begin(Scenario::PushBytes),
                Action::Finish(Scenario::PushBytes),
                Action::Begin(Scenario::IterateBlocks),
                Action::SeekStart { offset: 0 },
                Action::Finish(Scenario::IterateBlocks),
                Action::Begin(Scenario::RandomRead),
                Action::Finish(Scenario::RandomRead),
                Action::Begin(Scenario::RandomUpdate),
                Action::Finish(Scenario::RandomUpdate),
                Action::Done,
            ]
        );
    }
}

#[test]
fn scripted_draw_ends_where_the_workload_ends() {
    let config = Config::new(3, 4).unwrap();
    let short = Workload { pushes: vec![vec![1, 2, 3, 4]], reads: Vec::new(), updates: Vec::new() };
    let (runner, _) = Runner::new(Backend::PositionalSync, config);
    assert_eq!(scripted_draw(&runner, &short), Some(Draw::Nothing));
    let (runner, _) = runner.advance(true, Draw::Nothing);
    assert_eq!(scripted_draw(&runner, &short), Some(Draw::Block(vec![1, 2, 3, 4])));
    let (runner, _) = runner.advance(true, Draw::Block(vec![1, 2, 3, 4]));
    assert_eq!(runner.wants(), Need::Block);
    assert_eq!(scripted_draw(&runner, &short), None);
}

#[test]
fn random_run_fills_the_file_on_every_backend() {
    let config = Config::new(50, 8).unwrap();
    for backend in [
        Backend::CursorSync,
        Backend::PositionalSync,
        Backend::CursorAsync,
        Backend::QueueAsync,
    ] {
        let mut generator = WorkloadGenerator::new();
        let mut file = BlockFile::holding(vec![0xee; 1000]);
        let (mut runner, mut action) = Runner::new(backend, config);
        let mut pushed: Vec<Vec<u8>> = Vec::new();
        let mut iterated: Vec<Vec<u8>> = Vec::new();
        let mut reads = 0;
        let mut writes = 0;
        let mut size_after_push = None;
        while !action.is_final() {
            let scenario = match runner.stage() {
                Stage::Transferring(s) => Some(s),
                _ => None,
            };
            match &action {
                Action::Write { block } | Action::WriteAt { block, .. } => {
                    assert_eq!(block.len(), 8);
                    writes += 1;
                    if scenario == Some(Scenario::PushBytes) {
                        pushed.push(block.clone());
                    }
                }
                Action::Read { len } | Action::ReadAt { len, .. } => {
                    assert_eq!(*len, 8);
                    reads += 1;
                }
                Action::SeekStart { offset } | Action::WriteAt { offset, .. } => {
                    assert_eq!(offset % 8, 0);
                    assert!(*offset < 400);
                }
                _ => {}
            }
            let answer = file.perform(&action);
            assert!(answer.is_ok(), "{:?} failed on {:?}", action, backend);
            if scenario == Some(Scenario::IterateBlocks) {
                iterated.push(answer.unwrap());
            }
            if action == Action::Finish(Scenario::PushBytes) {
                size_after_push = Some(file.size());
            }
            let (next, following) = runner.step(&mut generator, true);
            runner = next;
            action = following;
        }
        assert_eq!(action, Action::Done);
        assert_eq!(size_after_push, Some(400));
        assert_eq!(file.size(), 400);
        assert_eq!(pushed.len(), 50);
        assert_eq!(iterated, pushed);
        assert_eq!(reads, 100);
        assert_eq!(writes, 100);
    }
}

#[test]
fn step_draws_nothing_after_a_failure() {
    let config = Config::new(2, 4).unwrap();
    let mut generator = WorkloadGenerator::new();
    let (runner, _) = Runner::new(Backend::CursorSync, config);
    let (runner, action) = runner.step(&mut generator, true);
    assert_eq!(action, Action::Begin(Scenario::PushBytes));
    let (runner, action) = runner.step(&mut generator, false);
    assert_eq!(action, Action::Abort);
    assert_eq!(runner.stage(), Stage::Failed);
    let (runner, action) = runner.step(&mut generator, true);
    assert_eq!(action, Action::Abort);
    assert!(runner.is_finished());
}

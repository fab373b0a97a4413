use blockbench::action::Action;
use blockbench::plan::{Backend, Config, Scenario};
use blockbench::replay::{replay, Tally};
use blockbench::script::{Update, Workload};
use blockbench::store::BlockFile;
use blockbench::workload::WorkloadGenerator;

const BACKENDS: [Backend; 4] =
    [Backend::CursorSync, Backend::PositionalSync, Backend::CursorAsync, Backend::QueueAsync];

fn sample() -> Workload {
    Workload {
        pushes: vec![vec![1, 2, 3, 4], vec![5, 6, 7, 8], vec![9, 10, 11, 12]],
        reads: vec![2, 0, 2],
        updates: vec![
            Update { block: vec![0xa0, 0xa1, 0xa2, 0xa3], index: 1 },
            Update { block: vec![0xb0, 0xb1, 0xb2, 0xb3], index: 1 },
            Update { block: vec![0xc0, 0xc1, 0xc2, 0xc3], index: 0 },
        ],
    }
}

#[test]
fn three_blocks_of_four_bytes_on_the_cursor_backend() {
    let config = Config::new(3, 4).unwrap();
    let mut file = BlockFile::absent();
    let out = replay(Backend::CursorSync, config, &sample(), &mut file).unwrap();
    assert_eq!(out.size_after_push, 12);
    assert_eq!(out.iterated, vec![vec![1, 2, 3, 4], vec![5, 6, 7, 8], vec![9, 10, 11, 12]]);
    assert_eq!(out.sampled, vec![vec![9, 10, 11, 12], vec![1, 2, 3, 4], vec![9, 10, 11, 12]]);
    assert_eq!(
        file.contents(),
        &vec![0xc0, 0xc1, 0xc2, 0xc3, 0xb0, 0xb1, 0xb2, 0xb3, 9, 10, 11, 12]
    );
    assert_eq!(file.size(), 12);
}

#[test]
fn every_scenario_draws_and_transfers_count_times() {
    let config = Config::new(3, 4).unwrap();
    for backend in BACKENDS {
        let mut file = BlockFile::absent();
        let out = replay(backend, config, &sample(), &mut file).unwrap();
        assert_eq!(out.push, Tally { blocks: 3, indices: 0, reads: 0, writes: 3 });
        assert_eq!(out.iterate, Tally { blocks: 0, indices: 0, reads: 3, writes: 0 });
        assert_eq!(out.random_read, Tally { blocks: 0, indices: 3, reads: 3, writes: 0 });
        assert_eq!(out.update, Tally { blocks: 3, indices: 3, reads: 0, writes: 3 });
    }
}

#[test]
fn all_backends_leave_the_same_file() {
    let config = Config::new(3, 4).unwrap();
    let expected = vec![0xc0, 0xc1, 0xc2, 0xc3, 0xb0, 0xb1, 0xb2, 0xb3, 9, 10, 11, 12];
    for backend in BACKENDS {
        let mut file = BlockFile::absent();
        let out = replay(backend, config, &sample(), &mut file).unwrap();
        assert_eq!(file.contents(), &expected, "{:?}", backend);
        assert_eq!(out.size_after_push, 12);
        assert_eq!(out.iterated, sample().pushes);
    }
}

#[test]
fn all_backends_agree_on_a_random_workload() {
    let mut generator = WorkloadGenerator::new();
    for (count, size) in [(1usize, 1usize), (7, 3), (64, 16), (200, 64)] {
        let config = Config::new(count, size).unwrap();
        let workload = Workload::random(&mut generator, &config);
        let mut files = Vec::new();
        for backend in BACKENDS {
            let mut file = BlockFile::absent();
            let out = replay(backend, config, &workload, &mut file).unwrap();
            assert_eq!(out.size_after_push, count * size);
            assert_eq!(out.iterated, workload.pushes);
            for (k, block) in out.sampled.iter().enumerate() {
                assert_eq!(block, &workload.pushes[workload.reads[k]]);
            }
            assert_eq!(file.size(), count * size);
            files.push(file.contents().clone());
        }
        assert_eq!(files[0], files[1]);
        assert_eq!(files[0], files[2]);
        assert_eq!(files[0], files[3]);
    }
}

#[test]
fn sync_policy_does_not_change_the_file() {
    let base = Config::new(3, 4).unwrap();
    let mut with = BlockFile::absent();
    let mut without = BlockFile::absent();
    replay(Backend::CursorSync, base, &sample(), &mut with).unwrap();
    replay(Backend::CursorSync, base.with_sync(false, false), &sample(), &mut without).unwrap();
    assert_eq!(with.contents(), without.contents());
}

#[test]
fn rerun_on_a_populated_path_starts_from_an_empty_file() {
    let config = Config::new(3, 4).unwrap();
    let mut fresh = BlockFile::absent();
    replay(Backend::PositionalSync, config, &sample(), &mut fresh).unwrap();

    let mut populated = BlockFile::holding(vec![0x55; 100]);
    let out = replay(Backend::PositionalSync, config, &sample(), &mut populated).unwrap();
    assert_eq!(out.size_after_push, 12);
    assert_eq!(populated.size(), 12);
    assert_eq!(populated.contents(), fresh.contents());

    let again = replay(Backend::CursorSync, config, &sample(), &mut populated).unwrap();
    assert_eq!(again.size_after_push, 12);
    assert_eq!(populated.contents(), fresh.contents());
}

#[test]
fn zero_count_completes_without_an_iteration() {
    let nothing = Workload { pushes: Vec::new(), reads: Vec::new(), updates: Vec::new() };
    let zero = Tally { blocks: 0, indices: 0, reads: 0, writes: 0 };
    for backend in BACKENDS {
        let mut file = BlockFile::holding(vec![1, 2, 3]);
        let out = replay(backend, Config::new(0, 64).unwrap(), &nothing, &mut file).unwrap();
        assert_eq!(out.push, zero);
        assert_eq!(out.iterate, zero);
        assert_eq!(out.random_read, zero);
        assert_eq!(out.update, zero);
        assert_eq!(out.size_after_push, 0);
        assert!(out.iterated.is_empty());
        assert!(out.sampled.is_empty());
        assert!(file.is_present());
        assert_eq!(file.size(), 0);
    }
}

#[test]
fn empty_blocks_leave_an_empty_file() {
    let config = Config::new(2, 0).unwrap();
    let workload = Workload {
        pushes: vec![Vec::new(), Vec::new()],
        reads: vec![1, 1],
        updates: vec![Update { block: Vec::new(), index: 0 }, Update { block: Vec::new(), index: 1 }],
    };
    for backend in BACKENDS {
        let mut file = BlockFile::absent();
        let out = replay(backend, config, &workload, &mut file).unwrap();
        assert_eq!(out.push, Tally { blocks: 2, indices: 0, reads: 0, writes: 2 });
        assert_eq!(out.iterate, Tally { blocks: 0, indices: 0, reads: 2, writes: 0 });
        assert_eq!(out.iterated, vec![Vec::<u8>::new(), Vec::new()]);
        assert_eq!(out.size_after_push, 0);
        assert_eq!(file.size(), 0);
    }
}

#[test]
fn unfit_workload_is_not_replayed() {
    let mut file = BlockFile::holding(vec![1, 2, 3]);
    assert!(replay(Backend::CursorSync, Config::new(4, 4).unwrap(), &sample(), &mut file).is_none());
    assert!(replay(Backend::CursorSync, Config::new(3, 5).unwrap(), &sample(), &mut file).is_none());
    let unaddressable =
        Config { count: usize::MAX, block_size: 4, sync_on_push: true, sync_on_update: true };
    assert!(replay(Backend::QueueAsync, unaddressable, &sample(), &mut file).is_none());
    assert_eq!(file.contents(), &vec![1, 2, 3]);
    assert_eq!(file.cursor(), 0);
}

#[test]
fn updates_of_one_block_keep_the_last() {
    let config = Config::new(2, 2).unwrap();
    let workload = Workload {
        pushes: vec![vec![1, 1], vec![2, 2]],
        reads: vec![0, 0],
        updates: vec![Update { block: vec![7, 7], index: 1 }, Update { block: vec![8, 8], index: 1 }],
    };
    for backend in BACKENDS {
        let mut file = BlockFile::absent();
        let out = replay(backend, config, &workload, &mut file).unwrap();
        assert_eq!(file.contents(), &vec![1, 1, 8, 8]);
        assert_eq!(out.sampled, vec![vec![1, 1], vec![1, 1]]);
    }
}

#[test]
fn positional_replay_performs_its_schedule() {
    let config = Config::new(3, 4).unwrap();
    let mut file = BlockFile::absent();
    let out = replay(Backend::PositionalSync, config, &sample(), &mut file).unwrap();
    assert_eq!(
        out.performed,
        vec![
            Action::Create,
            Action::Begin(Scenario::PushBytes),
            Action::WriteAt { block: vec![1, 2, 3, 4], offset: 0 },
            Action::WriteAt { block: vec![5, 6, 7, 8], offset: 4 },
            Action::WriteAt { block: vec![9, 10, 11, 12], offset: 8 },
            Action::Finish(Scenario::PushBytes),
            Action::Begin(Scenario::IterateBlocks),
            Action::ReadAt { len: 4, offset: 0 },
            Action::ReadAt { len: 4, offset: 4 },
            Action::ReadAt { len: 4, offset: 8 },
            Action::Finish(Scenario::IterateBlocks),
            Action::Begin(Scenario::RandomRead),
            Action::ReadAt { len: 4, offset: 8 },
            Action::ReadAt { len: 4, offset: 0 },
            Action::ReadAt { len: 4, offset: 8 },
            Action::Finish(Scenario::RandomRead),
            Action::Begin(Scenario::RandomUpdate),
            Action::WriteAt { block: vec![0xa0, 0xa1, 0xa2, 0xa3], offset: 4 },
            Action::WriteAt { block: vec![0xb0, 0xb1, 0xb2, 0xb3], offset: 4 },
            Action::WriteAt { block: vec![0xc0, 0xc1, 0xc2, 0xc3], offset: 0 },
            Action::Finish(Scenario::RandomUpdate),
        ]
    );
}

#[test]
fn cursor_replay_reads_the_blocks_in_the_order_written() {
    let config = Config::new(3, 4).unwrap();
    let mut file = BlockFile::absent();
    let out = replay(Backend::CursorSync, config, &sample(), &mut file).unwrap();
    assert_eq!(out.performed.len(), 37);
    assert_eq!(out.performed[0], Action::Create);
    assert_eq!(
        out.performed[2..11],
        [
            Action::SeekEnd,
            Action::Write { block: vec![1, 2, 3, 4] },
            Action::Sync,
            Action::SeekEnd,
            Action::Write { block: vec![5, 6, 7, 8] },
            Action::Sync,
            Action::SeekEnd,
            Action::Write { block: vec![9, 10, 11, 12] },
            Action::Sync,
        ]
    );
    assert_eq!(
        out.performed[11..18],
        [
            Action::Finish(Scenario::PushBytes),
            Action::Begin(Scenario::IterateBlocks),
            Action::SeekStart { offset: 0 },
            Action::Read { len: 4 },
            Action::Read { len: 4 },
            Action::Read { len: 4 },
            Action::Finish(Scenario::IterateBlocks),
        ]
    );
    assert_eq!(out.iterated, vec![vec![1, 2, 3, 4], vec![5, 6, 7, 8], vec![9, 10, 11, 12]]);
    assert_eq!(out.performed[36], Action::Finish(Scenario::RandomUpdate));
}

#[test]
fn every_scenario_of_a_replay_transfers_count_blocks() {
    let config = Config::new(5, 2).unwrap();
    let mut generator = WorkloadGenerator::new();
    let workload = Workload::random(&mut generator, &config);
    for backend in BACKENDS {
        let mut file = BlockFile::absent();
        let out = replay(backend, config, &workload, &mut file).unwrap();
        let mut current = None;
        let mut reads = [0usize; 4];
        let mut writes = [0usize; 4];
        for action in &out.performed {
            match action {
                Action::Begin(s) => current = Some(s.ordinal() as usize - 1),
                Action::Finish(_) => current = None,
                Action::Read { .. } | Action::ReadAt { .. } => reads[current.unwrap()] += 1,
                Action::Write { .. } | Action::WriteAt { .. } => writes[current.unwrap()] += 1,
                _ => {}
            }
        }
        assert_eq!(reads, [0, 5, 5, 0]);
        assert_eq!(writes, [5, 0, 0, 5]);
    }
}

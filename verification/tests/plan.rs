use blockbench::harness::Harness;
use blockbench::plan::{Backend, Config, Need, Scenario};

#[test]
fn standard_config_is_one_hundred_thousand_blocks_of_sixty_four_bytes() {
    let config = Config::standard();
    assert_eq!(config.count, 100000);
    assert_eq!(config.block_size, 64);
    assert!(config.sync_on_push);
    assert!(config.sync_on_update);
    assert!(config.is_valid());
    assert_eq!(config.total_bytes(), 6_400_000);
}

#[test]
fn new_config_syncs_after_every_write() {
    let config = Config::new(3, 4).unwrap();
    assert_eq!(
        config,
        Config { count: 3, block_size: 4, sync_on_push: true, sync_on_update: true }
    );
    assert!(config.syncs_after(Scenario::PushBytes));
    assert!(config.syncs_after(Scenario::RandomUpdate));
    assert!(!config.syncs_after(Scenario::IterateBlocks));
    assert!(!config.syncs_after(Scenario::RandomRead));
}

#[test]
fn new_config_refuses_a_file_beyond_sixty_four_bits() {
    assert_eq!(Config::new(usize::MAX, 2), None);
    assert_eq!(Config::new(usize::MAX, usize::MAX), None);
    let unchecked =
        Config { count: usize::MAX, block_size: 3, sync_on_push: true, sync_on_update: true };
    assert!(!unchecked.is_valid());
}

#[test]
fn new_config_accepts_zero_workloads() {
    assert!(Config::new(0, 64).is_some());
    assert!(Config::new(100, 0).is_some());
    assert!(Config::new(0, 0).is_some());
    assert_eq!(Config::new(0, 64).unwrap().total_bytes(), 0);
    assert_eq!(Config::new(100, 0).unwrap().total_bytes(), 0);
}

#[test]
fn with_sync_changes_only_the_policy() {
    let config = Config::new(7, 16).unwrap().with_sync(false, true);
    assert_eq!(
        config,
        Config { count: 7, block_size: 16, sync_on_push: false, sync_on_update: true }
    );
    assert!(!config.syncs_after(Scenario::PushBytes));
    assert!(config.syncs_after(Scenario::RandomUpdate));
}

#[test]
fn offsets_are_whole_blocks() {
    let config = Config::new(3, 4).unwrap();
    assert_eq!(config.offset_of(0), 0);
    assert_eq!(config.offset_of(1), 4);
    assert_eq!(config.offset_of(2), 8);
    assert_eq!(config.offset_of(3), 12);
    assert_eq!(config.total_bytes(), 12);
    let standard = Config::standard();
    assert_eq!(standard.offset_of(3), 192);
    assert_eq!(standard.offset_of(99_999), 6_399_936);
}

#[test]
fn backends_know_their_strategy() {
    assert!(Backend::CursorSync.has_cursor());
    assert!(!Backend::PositionalSync.has_cursor());
    assert!(Backend::CursorAsync.has_cursor());
    assert!(!Backend::QueueAsync.has_cursor());

    assert!(!Backend::CursorSync.is_async());
    assert!(!Backend::PositionalSync.is_async());
    assert!(Backend::CursorAsync.is_async());
    assert!(Backend::QueueAsync.is_async());

    assert!(Backend::CursorSync.distinguishes_sync());
    assert!(!Backend::PositionalSync.distinguishes_sync());
    assert!(Backend::CursorAsync.distinguishes_sync());
    assert!(!Backend::QueueAsync.distinguishes_sync());
}

#[test]
fn backends_have_their_labels_and_paths() {
    assert_eq!(Backend::CursorSync.label(), "std");
    assert_eq!(Backend::PositionalSync.label(), "std-ext");
    assert_eq!(Backend::CursorAsync.label(), "tokio");
    assert_eq!(Backend::QueueAsync.label(), "tokio-uring");
    assert_eq!(Backend::CursorSync.path(), "./tmp/file-std");
    assert_eq!(Backend::PositionalSync.path(), "./tmp/file-std-ext");
    assert_eq!(Backend::CursorAsync.path(), "./tmp/file-tokio");
    assert_eq!(Backend::QueueAsync.path(), "./tmp/file-tokio-uring");
}

#[test]
fn backend_paths_are_distinct() {
    let all = [
        Backend::CursorSync,
        Backend::PositionalSync,
        Backend::CursorAsync,
        Backend::QueueAsync,
    ];
    for (i, a) in all.iter().enumerate() {
        for (j, b) in all.iter().enumerate() {
            if i != j {
                assert_ne!(a.path(), b.path());
            }
        }
    }
}

#[test]
fn scenarios_run_in_their_fixed_order() {
    assert_eq!(Scenario::PushBytes.ordinal(), 1);
    assert_eq!(Scenario::IterateBlocks.ordinal(), 2);
    assert_eq!(Scenario::RandomRead.ordinal(), 3);
    assert_eq!(Scenario::RandomUpdate.ordinal(), 4);
    assert_eq!(Scenario::PushBytes.successor(), Some(Scenario::IterateBlocks));
    assert_eq!(Scenario::IterateBlocks.successor(), Some(Scenario::RandomRead));
    assert_eq!(Scenario::RandomRead.successor(), Some(Scenario::RandomUpdate));
    assert_eq!(Scenario::RandomUpdate.successor(), None);
}

#[test]
fn scenarios_have_their_names() {
    assert_eq!(Scenario::PushBytes.name(), "Push bytes");
    assert_eq!(Scenario::IterateBlocks.name(), "Iterate blocks");
    assert_eq!(Scenario::RandomRead.name(), "Random read");
    assert_eq!(Scenario::RandomUpdate.name(), "Random update");
}

#[test]
fn scenarios_know_what_they_draw_and_transfer() {
    assert_eq!(Scenario::PushBytes.need(), Need::Block);
    assert_eq!(Scenario::IterateBlocks.need(), Need::Nothing);
    assert_eq!(Scenario::RandomRead.need(), Need::Index);
    assert_eq!(Scenario::RandomUpdate.need(), Need::BlockAndIndex);
    assert!(Scenario::PushBytes.writes());
    assert!(!Scenario::IterateBlocks.writes());
    assert!(!Scenario::RandomRead.writes());
    assert!(Scenario::RandomUpdate.writes());
    assert!(Need::Block.has_block() && !Need::Block.has_index());
    assert!(!Need::Index.has_block() && Need::Index.has_index());
    assert!(Need::BlockAndIndex.has_block() && Need::BlockAndIndex.has_index());
    assert!(!Need::Nothing.has_block() && !Need::Nothing.has_index());
}

#[test]
fn harness_runs_the_four_backends_in_order() {
    let mut harness = Harness::start();
    let mut seen = Vec::new();
    while let Some(backend) = harness.current() {
        seen.push(backend);
        harness = harness.settle(true);
    }
    assert_eq!(
        seen,
        vec![
            Backend::CursorSync,
            Backend::PositionalSync,
            Backend::CursorAsync,
            Backend::QueueAsync
        ]
    );
    assert_eq!(harness, Harness::Completed);
    assert_eq!(harness.exit_code(), 0);
}

#[test]
fn harness_stops_at_the_first_failure() {
    let harness = Harness::start().settle(true).settle(false);
    assert_eq!(harness, Harness::Failed(Backend::PositionalSync));
    assert_eq!(harness.current(), None);
    assert_ne!(harness.exit_code(), 0);
    assert_eq!(harness.settle(true), Harness::Failed(Backend::PositionalSync));
    assert_eq!(Harness::start().settle(false), Harness::Failed(Backend::CursorSync));
}

#[test]
fn harness_stays_completed() {
    let done = Harness::Completed;
    assert_eq!(done.settle(true), Harness::Completed);
    assert_eq!(done.settle(false), Harness::Completed);
    assert_eq!(done.current(), None);
    assert_eq!(Backend::QueueAsync.successor(), None);
    assert_eq!(Backend::CursorSync.successor(), Some(Backend::PositionalSync));
}

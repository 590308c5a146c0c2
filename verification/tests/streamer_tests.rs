use std::time::Instant;

use rclonedash::events::{ActiveFile, FileAction, ModifiedFileDetail, SyncEvent, TransferStats};
use rclonedash::streamer::{initial_streamer, parse_stream_line, StreamerState};

#[test]
fn test_streamer_parse_stream_line_robustness() {
    let mut st = StreamerState::default();

    parse_stream_line("", &None, 0, &mut st);
    parse_stream_line("   ", &None, 0, &mut st);
    parse_stream_line("DEBUG: random log with no meaning", &None, 0, &mut st);
    parse_stream_line("Building path1 and path2 listings", &None, 0, &mut st);
    assert!(st.is_syncing);
    assert_eq!(st.phase_index, 0);

    parse_stream_line("Path1: checking for diffs", &None, 0, &mut st);
    assert_eq!(st.phase_index, 1);

    parse_stream_line("Path2: checking for diffs", &None, 0, &mut st);
    assert_eq!(st.phase_index, 2);

    parse_stream_line("Applying changes", &None, 0, &mut st);
    assert_eq!(st.phase_index, 3);

    parse_stream_line("Updating listings", &None, 0, &mut st);
    assert_eq!(st.phase_index, 4);

    parse_stream_line("Bisync successful", &None, 0, &mut st);
    assert!(!st.is_syncing);
    assert_eq!(st.phase_index, 5);
}

#[test]
fn test_streamer_state_reset_lifecycle() {
    let mut st = StreamerState {
        is_syncing: true,
        sync_start: Some(Instant::now()),
        path2_modified: true,
        ..Default::default()
    };
    st.changes_local_details.push(ModifiedFileDetail {
        path: "test.txt".to_string(),
        action: FileAction::New,
    });
    st.mark_finished();
    assert!(!st.is_syncing);
    assert!(st.sync_start.is_none());
    assert!(!st.path2_modified);
    assert!(st.changes_local_details.is_empty());
    assert_eq!(st.phase_index, 5);

    st.reset_for_new_sync();
    assert!(st.is_syncing);
    assert!(st.sync_start.is_some());
    assert_eq!(st.phase_index, 0);
}

#[test]
fn stats_start_a_cycle_and_record_speed() {
    let mut st = StreamerState::default();
    assert_eq!(st.speed_history.len(), 40);
    let mut stats = TransferStats::default();
    stats.speed = "1.5 MiB/s".to_string();
    st.apply_event(SyncEvent::StatsUpdated(stats), 1536);
    assert!(st.is_syncing);
    assert_eq!(st.speed_history.len(), 40);
    assert_eq!(*st.speed_history.last().unwrap(), 1536);
    assert_eq!(st.transfer.speed, "1.5 MiB/s");
}

#[test]
fn resync_request_survives_the_end_of_the_cycle() {
    let mut st = StreamerState::default();
    st.apply_event(SyncEvent::ResyncRequired("must run --resync".to_string()), 0);
    st.apply_event(SyncEvent::SyncCompleted { success: false, error_msg: None }, 0);
    assert!(st.resync_needed);
    st.reset_for_new_sync();
    assert!(!st.resync_needed);
}

#[test]
fn diffs_are_recorded_once_per_path() {
    let mut st = StreamerState::default();
    for _ in 0..2 {
        st.apply_event(
            SyncEvent::DiffFound {
                is_local: true,
                detail: ModifiedFileDetail { path: "a.txt".to_string(), action: FileAction::New },
            },
            0,
        );
    }
    st.apply_event(
        SyncEvent::DiffFound {
            is_local: true,
            detail: ModifiedFileDetail { path: "a.txt".to_string(), action: FileAction::Modified },
        },
        0,
    );
    assert!(st.path2_modified);
    assert_eq!(st.changes_local, vec!["a.txt".to_string()]);
    assert_eq!(st.changes_local_details.len(), 1);
    assert_eq!(st.changes_local_details[0].action, FileAction::Modified);
}

#[test]
fn log_buffer_keeps_the_last_500_lines() {
    let mut st = StreamerState::default();
    for i in 0..510 {
        parse_stream_line(&format!("line {}", i), &None, 0, &mut st);
    }
    assert_eq!(st.log_lines.len(), 500);
    assert_eq!(st.log_lines.front().unwrap(), "line 10");
    assert_eq!(st.log_lines.back().unwrap(), "line 509");
}

fn active(name: &str) -> ActiveFile {
    ActiveFile { name: name.to_string(), pct: 10, speed: "1 MiB/s".to_string(), last_seen: Instant::now() }
}

#[test]
fn transfers_of_four_seconds_or_more_are_forgotten() {
    let mut st = StreamerState::default();
    for n in ["a", "b", "c", "d"] {
        st.apply_event(SyncEvent::ActiveTransferUpdated(active(n)), 0);
    }
    st.prune_by_age(&vec![0, 3999, 4000, 120_000]);
    let names: Vec<&str> = st.active_files.iter().map(|f| f.name.as_str()).collect();
    assert_eq!(names, vec!["a", "b"]);
    st.prune_by_age(&vec![4000, 1]);
    assert_eq!(st.active_files.len(), 1);
    assert_eq!(st.active_files[0].name, "b");
}

#[test]
fn fresh_transfers_survive_the_prune() {
    let mut st = StreamerState::default();
    st.apply_event(SyncEvent::ActiveTransferUpdated(active("x")), 0);
    st.prune_active_files(&Instant::now());
    assert_eq!(st.active_files.len(), 1);
    let later = Instant::now() + std::time::Duration::from_secs(5);
    st.prune_active_files(&later);
    assert!(st.active_files.is_empty());
}

#[test]
fn local_diff_leaves_the_remote_side_alone() {
    let mut st = StreamerState::default();
    st.apply_event(
        SyncEvent::DiffFound {
            is_local: false,
            detail: ModifiedFileDetail { path: "r.txt".to_string(), action: FileAction::New },
        },
        0,
    );
    st.apply_event(
        SyncEvent::DiffFound {
            is_local: true,
            detail: ModifiedFileDetail { path: "r.txt".to_string(), action: FileAction::Deleted },
        },
        0,
    );
    assert!(st.path1_modified && st.path2_modified);
    assert_eq!(st.changes_remote, vec!["r.txt".to_string()]);
    assert_eq!(st.changes_remote_details[0].action, FileAction::New);
    assert_eq!(st.changes_local, vec!["r.txt".to_string()]);
    assert_eq!(st.changes_local_details.len(), 1);
    assert_eq!(st.changes_local_details[0].action, FileAction::Deleted);
}

#[test]
fn streamer_at_start() {
    let lines: Vec<String> = (0..510).map(|i| format!("l{}", i)).collect();
    let st = initial_streamer(lines, None);
    assert!(!st.is_syncing);
    assert!(st.sync_start.is_none());
    assert_eq!(st.phase, "Idle");
    assert_eq!(st.log_lines.len(), 500);
    assert_eq!(st.log_lines.front().unwrap(), "l10");
    assert_eq!(st.speed_history, vec![0u64; 40]);
    let t = Instant::now();
    let st = initial_streamer(vec!["a".to_string()], Some(t));
    assert!(st.is_syncing);
    assert_eq!(st.sync_start, Some(t));
    assert_eq!(st.phase, "1. Listings");
    assert_eq!(st.phase_index, 0);
    assert_eq!(st.log_lines.len(), 1);
}

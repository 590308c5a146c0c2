use rclonedash::history::{PastRun, RunStatus};
use rclonedash::overview::{
    can_dec_tick_rate, can_inc_tick_rate, conflicts_today_stats, consecutive_failures,
    is_syncing, overall_progress_pct, runs_today_stats, step_tick_rate, success_counts,
    total_history_runs,
};
use rclonedash::scroll::{
    scroll_list_jump, scroll_list_step, scroll_list_view_step, scroll_opt_list_step,
    scroll_opt_list_view_step, ScrollJump,
};
use rclonedash::systemd::ServiceState;

fn run(date: &str, status: RunStatus, errors: &[&str]) -> PastRun {
    PastRun {
        id: 1,
        date: date.to_string(),
        time: "10:00:00".to_string(),
        duration: "1s".to_string(),
        status,
        files_copied: vec![],
        files_modified: vec![],
        files_deleted: vec![],
        synced_files: vec![],
        errors: errors.iter().map(|s| s.to_string()).collect(),
    }
}

#[test]
fn keyboard_steps_keep_the_selection_visible() {
    let (mut sel, mut off) = (0usize, 0usize);
    for _ in 0..6 {
        scroll_list_step(&mut sel, &mut off, 10, 3, false);
    }
    assert_eq!((sel, off), (6, 4));
    for _ in 0..20 {
        scroll_list_step(&mut sel, &mut off, 10, 3, false);
    }
    assert_eq!((sel, off), (9, 7));
    for _ in 0..3 {
        scroll_list_step(&mut sel, &mut off, 10, 3, true);
    }
    assert_eq!((sel, off), (6, 6));
    let (mut s, mut o) = (8usize, 0usize);
    scroll_list_step(&mut s, &mut o, 10, 3, true);
    assert_eq!((s, o), (1, 0));
    let (mut s0, mut o0) = (3usize, 2usize);
    scroll_list_step(&mut s0, &mut o0, 0, 3, false);
    assert_eq!((s0, o0), (3, 2));
}

#[test]
fn optional_selection_steps() {
    let (mut sel, mut off) = (None, 2usize);
    scroll_opt_list_step(&mut sel, &mut off, 10, 4, true);
    assert_eq!(sel, None);
    scroll_opt_list_step(&mut sel, &mut off, 10, 4, false);
    assert_eq!((sel, off), (Some(2), 2));
    let (mut s2, mut o2) = (Some(0usize), 0usize);
    scroll_opt_list_step(&mut s2, &mut o2, 10, 4, true);
    assert_eq!(s2, None);
    let (mut s3, mut o3) = (None, 9usize);
    scroll_opt_list_step(&mut s3, &mut o3, 5, 4, false);
    assert_eq!(s3, Some(4));
}

#[test]
fn scrollbar_arrows_move_the_view() {
    let (mut sel, mut off) = (0usize, 0usize);
    scroll_list_view_step(&mut sel, &mut off, 10, 4, false);
    assert_eq!((sel, off), (1, 1));
    for _ in 0..10 {
        scroll_list_view_step(&mut sel, &mut off, 10, 4, false);
    }
    assert_eq!((sel, off), (9, 6));
    scroll_list_view_step(&mut sel, &mut off, 10, 4, true);
    assert_eq!((sel, off), (8, 5));

    let (mut osel, mut ooff) = (Some(0usize), 0usize);
    scroll_opt_list_view_step(&mut osel, &mut ooff, 10, 4, true);
    assert_eq!(osel, None);
    let (mut n, mut noff) = (None, 3usize);
    scroll_opt_list_view_step(&mut n, &mut noff, 10, 4, false);
    assert_eq!((n, noff), (None, 4));
    let (mut m, mut moff) = (Some(2usize), 0usize);
    scroll_opt_list_view_step(&mut m, &mut moff, 10, 4, false);
    assert_eq!((m, moff), (Some(3), 1));
}

#[test]
fn scrollbar_jumps() {
    let (mut sel, mut off) = (5usize, 3usize);
    scroll_list_jump(&mut sel, &mut off, 20, 5, ScrollJump::End);
    assert_eq!((sel, off), (19, 15));
    scroll_list_jump(&mut sel, &mut off, 20, 5, ScrollJump::Start);
    assert_eq!((sel, off), (0, 0));
    scroll_list_jump(&mut sel, &mut off, 20, 5, ScrollJump::To(8));
    assert_eq!((sel, off), (8, 8));
    scroll_list_jump(&mut sel, &mut off, 20, 5, ScrollJump::To(100));
    assert_eq!((sel, off), (15, 15));
    let (mut s2, mut o2) = (19usize, 15usize);
    scroll_list_jump(&mut s2, &mut o2, 20, 5, ScrollJump::To(2));
    assert_eq!((s2, o2), (6, 2));
}

#[test]
fn failures_in_a_row_and_today_figures() {
    let runs = vec![
        run("2026-05-02", RunStatus::Failed, &["CONFLICT on a.txt", "boom"]),
        run("2026-05-02", RunStatus::Failed, &["conflict b"]),
        run("2026-05-02", RunStatus::Success, &[]),
        run("2026-05-01", RunStatus::Failed, &["Conflict c"]),
        run("2026-05-02", RunStatus::Skipped, &[]),
    ];
    assert_eq!(consecutive_failures(&runs), 2);
    assert_eq!(consecutive_failures(&vec![]), 0);
    assert_eq!(runs_today_stats(&runs, "2026-05-02"), (2, 2));
    assert_eq!(runs_today_stats(&runs, "2026-05-01"), (0, 1));
    assert_eq!(conflicts_today_stats(&runs, "2026-05-02"), 2);
    assert_eq!(conflicts_today_stats(&runs, "2026-04-30"), 0);
}

#[test]
fn sync_under_way_and_history_rows() {
    assert!(is_syncing(true, ServiceState::Idle, 2));
    assert!(is_syncing(false, ServiceState::Active, 0));
    assert!(!is_syncing(true, ServiceState::Active, 5));
    assert!(!is_syncing(false, ServiceState::Failed, 1));
    assert_eq!(total_history_runs(4, true), 5);
    assert_eq!(total_history_runs(4, false), 4);
}

#[test]
fn tick_rate_steps_and_round_trips() {
    assert_eq!(step_tick_rate(250, false), 300);
    assert_eq!(step_tick_rate(250, true), 200);
    assert_eq!(step_tick_rate(100, true), 100);
    assert_eq!(step_tick_rate(10000, false), 10000);
    assert_eq!(step_tick_rate(260, false), 300);
    assert_eq!(step_tick_rate(1200, false), 1500);
    assert_eq!(step_tick_rate(1250, false), 1500);
    assert!(!can_dec_tick_rate(100));
    assert!(can_dec_tick_rate(101));
    assert!(!can_inc_tick_rate(10000));
    assert!(can_inc_tick_rate(9999));
    for &s in &[200u64, 250, 1000, 9000] {
        assert_eq!(step_tick_rate(step_tick_rate(s, true), false), s);
        assert_eq!(step_tick_rate(step_tick_rate(s, false), true), s);
    }
}

#[test]
fn success_rate_figures() {
    assert_eq!(success_counts(&vec![]), (0, 0));
    let runs = vec![
        run("2026-01-01", RunStatus::Success, &[]),
        run("2026-01-01", RunStatus::Failed, &[]),
        run("2026-01-02", RunStatus::Skipped, &[]),
        run("2026-01-03", RunStatus::Failed, &[]),
    ];
    assert_eq!(success_counts(&runs), (2, 4));
}

#[test]
fn overall_progress_by_source_and_phase() {
    // Not syncing, done.
    assert_eq!(overall_progress_pct(false, 2, 50, 0, 0, 0, None, 0, 0, 50), 0);
    assert_eq!(overall_progress_pct(true, 5, 50, 0, 0, 0, None, 0, 0, 50), 100);
    // rclone's percentage, clamped.
    assert_eq!(overall_progress_pct(true, 3, 100, 0, 0, 0, None, 0, 0, 50), 99);
    assert_eq!(overall_progress_pct(true, 3, 37, 1, 2, 50, None, 0, 0, 50), 37);
    // Share of files.
    assert_eq!(overall_progress_pct(true, 3, 0, 1, 4, 25, None, 0, 0, 50), 25);
    assert_eq!(overall_progress_pct(true, 3, 0, 4, 4, 100, None, 0, 0, 50), 99);
    // Phases.
    assert_eq!(overall_progress_pct(true, 0, 0, 0, 0, 0, None, 0, 0, 50), 10);
    assert_eq!(overall_progress_pct(true, 0, 0, 0, 0, 0, Some(4), 0, 0, 50), 14);
    assert_eq!(overall_progress_pct(true, 0, 0, 0, 0, 0, Some(300), 0, 0, 50), 20);
    assert_eq!(overall_progress_pct(true, 1, 0, 0, 0, 0, None, 0, 0, 50), 25);
    assert_eq!(overall_progress_pct(true, 2, 0, 0, 0, 0, None, 0, 0, 50), 50);
    assert_eq!(overall_progress_pct(true, 2, 0, 0, 0, 0, None, 3, 4, 55), 55);
    assert_eq!(overall_progress_pct(true, 3, 0, 0, 0, 0, None, 0, 0, 50), 70);
    assert_eq!(overall_progress_pct(true, 4, 0, 0, 0, 0, None, 0, 0, 50), 95);
}

use rclonedash::ansi::strip_ansi;
use rclonedash::clipboard::base64_encode;
use rclonedash::config::{bwlimit_file_content, filters_file_content, parse_bwlimit, parse_filters};
use rclonedash::dashboard::{
    AlertLevel, FirstRunField, FirstRunState, FocusedPanel, RcloneInstallStatus, ScrollbarTarget,
};
use rclonedash::history::{parse_journal_history, RunStatus};
use rclonedash::overview::{active_alerts, running_sync_elapsed};
use rclonedash::scroll::ScrollJump;
use rclonedash::streamer::StreamerState;
use rclonedash::views::{ListSizes, ListViews};

fn views() -> ListViews {
    ListViews {
        focused_panel: FocusedPanel::History,
        logs_scroll: 0,
        auto_scroll: true,
        logs_viewport_height: 10,
        selected_run_idx: None,
        history_scroll_offset: 0,
        history_viewport_height: 4,
        history_details_scroll: 0,
        history_selected_file_idx: 0,
        recent_selected_idx: None,
        recent_scroll_offset: 0,
        recent_viewport_height: 5,
        file_selected_idx: 0,
        file_scroll_offset: 0,
        file_viewport_height: 6,
        selected_filter_idx: 0,
        filter_scroll_offset: 0,
        filter_viewport_height: 3,
        dry_run_scroll: 0,
    }
}

fn sizes() -> ListSizes {
    ListSizes {
        log_lines: 30,
        history_rows: 12,
        recent_files: 20,
        details_files: 8,
        file_entries: 15,
        filter_rows: 2,
        dry_run_lines: 7,
    }
}

#[test]
fn scrollbar_arrows_on_each_list() {
    let mut v = views();
    v.apply_scrollbar_step(ScrollbarTarget::Logs, true, &sizes());
    assert_eq!(v.focused_panel, FocusedPanel::Logs);
    assert_eq!((v.logs_scroll, v.auto_scroll), (1, false));
    v.apply_scrollbar_step(ScrollbarTarget::Logs, false, &sizes());
    assert_eq!((v.logs_scroll, v.auto_scroll), (0, true));

    v.apply_scrollbar_step(ScrollbarTarget::History, false, &sizes());
    assert_eq!((v.selected_run_idx, v.history_scroll_offset), (Some(0), 0));
    v.apply_scrollbar_step(ScrollbarTarget::History, false, &sizes());
    assert_eq!((v.selected_run_idx, v.history_scroll_offset), (Some(1), 1));
    v.apply_scrollbar_step(ScrollbarTarget::History, true, &sizes());
    assert_eq!((v.selected_run_idx, v.history_scroll_offset), (Some(0), 0));
    v.apply_scrollbar_step(ScrollbarTarget::History, true, &sizes());
    assert_eq!(v.selected_run_idx, None);

    for _ in 0..5 {
        v.apply_scrollbar_step(ScrollbarTarget::HistoryDetails(0), false, &sizes());
    }
    assert_eq!(v.history_details_scroll, 3);
    for _ in 0..5 {
        v.apply_scrollbar_step(ScrollbarTarget::DryRun, false, &sizes());
    }
    assert_eq!(v.dry_run_scroll, 2);
    v.apply_scrollbar_step(ScrollbarTarget::Files, false, &sizes());
    assert_eq!((v.file_selected_idx, v.file_scroll_offset), (1, 1));
    v.apply_scrollbar_step(ScrollbarTarget::Filters, false, &sizes());
    assert_eq!((v.selected_filter_idx, v.filter_scroll_offset), (1, 0));
    v.apply_scrollbar_step(ScrollbarTarget::RecentFiles, false, &sizes());
    assert_eq!((v.recent_selected_idx, v.recent_scroll_offset), (None, 1));
}

#[test]
fn scrollbar_drags() {
    let mut v = views();
    assert_eq!(v.jump_scale(ScrollbarTarget::Files, 15, 6), 9);
    assert_eq!(v.jump_scale(ScrollbarTarget::Logs, 30, 10), 20);
    v.apply_scrollbar_jump(ScrollbarTarget::Files, ScrollJump::End, 15, 6, 0);
    assert_eq!((v.file_selected_idx, v.file_scroll_offset), (14, 9));
    v.apply_scrollbar_jump(ScrollbarTarget::Logs, ScrollJump::To(5), 30, 10, 0);
    assert_eq!((v.logs_scroll, v.auto_scroll), (15, false));
    assert_eq!(v.get_scrollbar_current_pos(ScrollbarTarget::Logs, 30, 10), 5);
    v.apply_scrollbar_jump(ScrollbarTarget::Logs, ScrollJump::End, 30, 10, 0);
    assert!(v.auto_scroll);
    v.apply_scrollbar_jump(ScrollbarTarget::History, ScrollJump::To(3), 12, 4, 0);
    assert_eq!((v.selected_run_idx, v.history_scroll_offset), (None, 3));
    v.apply_scrollbar_jump(ScrollbarTarget::History, ScrollJump::Start, 12, 4, 0);
    assert_eq!((v.selected_run_idx, v.history_scroll_offset), (Some(0), 0));
    v.apply_scrollbar_jump(ScrollbarTarget::HistoryDetails(0), ScrollJump::End, 8, 5, 8);
    assert_eq!((v.history_details_scroll, v.history_selected_file_idx), (3, 7));
    let before = v;
    v.apply_scrollbar_jump(ScrollbarTarget::DryRun, ScrollJump::End, 4, 5, 0);
    assert_eq!(v, before);
    v.clamp_logs_scroll(12, 10);
    assert_eq!(v.logs_scroll, 0);
}

#[test]
fn alerts_in_order() {
    let a = active_alerts(true, 3, Some(301), 95);
    assert_eq!(a.len(), 4);
    assert_eq!(a[0].level, AlertLevel::Error);
    assert_eq!(a[1].message, "3 consecutive sync failures!");
    assert_eq!(a[2].level, AlertLevel::Warning);
    assert_eq!(a[2].message, "Abnormally long sync duration (5 min 1 s)");
    assert_eq!(a[3].message, "Critical local disk space (95.0% used)!");
    assert_eq!(a[3].hint.as_deref(), Some("Free up space on the local partition"));
    assert!(active_alerts(false, 1, Some(300), 90).is_empty());
    assert!(active_alerts(false, 0, None, 0).is_empty());
}

#[test]
fn service_stop_clears_the_cycle() {
    let mut s = StreamerState::new();
    s.reset_for_new_sync();
    s.push_log_lines(vec!["line".to_string()]);
    s.settle_when_service_stopped();
    assert!(!s.is_syncing);
    assert!(s.sync_start.is_none());
    assert!(s.active_files.is_empty());
    assert_eq!(s.phase, "1. Listings");
    assert_eq!(s.log_lines.len(), 1);
}

#[test]
fn rclone_install_outcome() {
    let mut st = FirstRunState::new(None, None, None);
    st.apply_install_result(Ok("rclone v1.69.1".to_string()));
    assert_eq!(st.rclone_status, RcloneInstallStatus::Installed("rclone v1.69.1".to_string()));
    assert_eq!(st.active_field, FirstRunField::ContinueButton);
    st.apply_install_result(Err("no network".to_string()));
    assert_eq!(st.rclone_status, RcloneInstallStatus::Failed("no network".to_string()));
    assert_eq!(st.active_field, FirstRunField::InstallRcloneButton);
}

#[test]
fn cleaning_twice_is_cleaning_once() {
    for s in ["\x1b[32mOK\x1b[0m\ttab\r\n", "\x1b]0;title\x07x", "plain", "\x1b(Bz\x01"] {
        let once = strip_ansi(s);
        assert_eq!(strip_ansi(&once), once);
    }
}

#[test]
fn base64_length_is_four_per_three_bytes() {
    for n in 0..10usize {
        let s = "a".repeat(n);
        assert_eq!(base64_encode(&s).len(), 4 * ((n + 2) / 3));
    }
}

#[test]
fn written_files_read_back() {
    let rules = vec!["- /Cache/**".to_string(), "".to_string(), "+ /a b/**".to_string()];
    assert_eq!(parse_filters(&filters_file_content(&rules)), rules);
    assert_eq!(parse_bwlimit(&bwlimit_file_content("  8M\t")), Some("8M".to_string()));
}

#[test]
fn history_most_recent_first() {
    let journal = "\
2026-09-17T10:00:00+0200 host systemd[1]: Starting rclone-bisync.service...
2026-09-17T10:00:05+0200 host rclone[2]: Bisync successful
2026-09-17T11:00:00+0200 host systemd[1]: Starting rclone-bisync.service...
2026-09-17T11:00:05+0200 host rclone[2]: ERROR : boom
2026-09-17T11:00:06+0200 host systemd[1]: rclone-bisync.service: Failed with result 'exit-code'.
2026-09-17T11:00:06+0200 host systemd[1]: rclone-bisync.service: Deactivated successfully.
";
    let records = journal.lines().map(|_| None).collect();
    let runs = parse_journal_history(journal, 10, &records);
    assert_eq!(runs.len(), 2);
    assert_eq!(runs[0].id, 2);
    assert_eq!(runs[1].id, 1);
    assert_eq!(runs[1].status, RunStatus::Success);
    let one = parse_journal_history(journal, 1, &records);
    assert_eq!(one.len(), 1);
    assert_eq!(one[0].id, 2);
}

#[test]
fn elapsed_time_of_the_running_sync() {
    let ps = "ELAPSED COMMAND\n  12 journalctl -f rclone sync\n 345 /usr/bin/rclone bisync /a gd:\n";
    assert_eq!(running_sync_elapsed(ps), Some(345));
    assert_eq!(running_sync_elapsed("x rclone sync\n"), None);
    assert_eq!(running_sync_elapsed(""), None);
}

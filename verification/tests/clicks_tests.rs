use rclonedash::clicks::{notice_text, ClickRequest, ClickState, KeyRoute, Notice, WheelRoute};
use rclonedash::hitboxes::{ClickOutcome, Hitbox, HitboxManager, Rect};
use rclonedash::line_edit::Key;
use rclonedash::dashboard::{EditState, FocusedPanel, HitAction, LogFilter, Modal, ScrollbarTarget};
use rclonedash::clicks::ScrollbarDrag;
use rclonedash::views::ListViews;
use rclonedash::dry_run::DryRunState;
use rclonedash::panels::BoxVisibility;

fn dashboard(syncing: bool, past_runs: usize) -> ClickState {
    ClickState {
        modal: Modal::Closed,
        focused_panel: FocusedPanel::Logs,
        boxes: BoxVisibility::all_shown(),
        folder_mode: false,
        running: true,
        auto_scroll: true,
        syncing,
        past_runs,
        selected_run_idx: None,
        history_details_scroll: 7,
        history_selected_file_idx: 3,
        recent_selected_idx: None,
        filtering_recent: false,
        file_selected_idx: 0,
        log_filter: LogFilter::All,
        recent_filter: String::new(),
        recent_scroll_offset: 4,
        hit_mgr: HitboxManager::new(),
        menu_selected_idx: 0,
        settings_tab: 0,
        settings_selected_idx: 0,
        edit_state: EditState::Idle,
        scrollbar_drag: None,
        dry_run: DryRunState::new(),
    }
}

#[test]
fn buttons_open_their_dialogs() {
    let mut s = dashboard(false, 2);
    assert_eq!(s.execute_hit_action(HitAction::ButtonSync, false), (ClickRequest::Nothing, None));
    assert_eq!(s.modal, Modal::ConfirmSync);
    s.execute_hit_action(HitAction::ButtonDryRun, false);
    assert_eq!(s.modal, Modal::ConfirmDryRun);
    s.execute_hit_action(HitAction::ButtonCancel, false);
    assert_eq!(s.modal, Modal::ConfirmCancel);
    s.execute_hit_action(HitAction::ButtonFiles, false);
    assert_eq!(s.modal, Modal::Files);
    s.execute_hit_action(HitAction::ButtonFiles, false);
    assert_eq!(s.modal, Modal::Closed);
    s.execute_hit_action(HitAction::ButtonFilters, false);
    assert_eq!(s.modal, Modal::Filters);
    assert_eq!(s.execute_hit_action(HitAction::CloseModal, false), (ClickRequest::EndEdit, None));
    assert_eq!(s.modal, Modal::Closed);
    s.execute_hit_action(HitAction::MenuOption(0), false);
    assert_eq!(s.modal, Modal::Settings);
    s.execute_hit_action(HitAction::MenuOption(1), false);
    assert_eq!(s.modal, Modal::Help);
    s.execute_hit_action(HitAction::MenuOption(7), false);
    assert_eq!(s.modal, Modal::Help);
    assert!(s.running);
    s.execute_hit_action(HitAction::MenuOption(2), false);
    assert!(!s.running);
}

#[test]
fn history_row_selects_then_opens() {
    let mut s = dashboard(true, 2);
    // Row 3 is past the running sync and the two past runs.
    s.execute_hit_action(HitAction::HistoryRow(3), false);
    assert_eq!(s.focused_panel, FocusedPanel::History);
    assert_eq!(s.selected_run_idx, None);
    s.execute_hit_action(HitAction::HistoryRow(2), false);
    assert_eq!(s.selected_run_idx, Some(2));
    assert_eq!(s.modal, Modal::Closed);
    s.execute_hit_action(HitAction::HistoryRow(2), false);
    assert_eq!(s.modal, Modal::HistoryDetails(1));
    assert_eq!((s.history_details_scroll, s.history_selected_file_idx), (0, 0));
    let mut t = dashboard(true, 2);
    t.execute_hit_action(HitAction::HistoryRow(0), false);
    assert_eq!(
        t.execute_hit_action(HitAction::HistoryRow(0), false),
        (ClickRequest::Nothing, Some(Notice::ActiveSyncShown))
    );
    assert_eq!(t.modal, Modal::Closed);
    assert_eq!(notice_text(Notice::ActiveSyncShown), "ℹ Active sync - Details shown above");
}

#[test]
fn boxes_and_focus() {
    let mut s = dashboard(false, 0);
    let r = s.execute_hit_action(HitAction::ToggleBox(4), false);
    assert_eq!(r, (ClickRequest::SaveLayout, Some(Notice::BoxHidden(4))));
    assert!(!s.boxes.logs);
    assert_eq!(s.focused_panel, FocusedPanel::RecentFiles);
    assert_eq!(notice_text(Notice::BoxHidden(4)), "Logs box hidden");
    assert_eq!(notice_text(Notice::BoxShown(1)), "Disks & Cloud box shown");
    assert_eq!(s.execute_hit_action(HitAction::ToggleBox(9), false), (ClickRequest::Nothing, None));
    s.execute_hit_action(HitAction::ButtonPanel, false);
    assert_eq!(s.focused_panel, FocusedPanel::History);
    s.execute_hit_action(HitAction::ButtonPanel, false);
    assert_eq!(s.focused_panel, FocusedPanel::RecentFiles);
    s.execute_hit_action(HitAction::LogsArea, false);
    assert_eq!(s.focused_panel, FocusedPanel::Logs);
}

#[test]
fn folder_mode_log_filter_and_auto_scroll() {
    let mut s = dashboard(false, 0);
    assert_eq!(
        s.execute_hit_action(HitAction::ToggleCtrlMode, false),
        (ClickRequest::Nothing, Some(Notice::FolderModeOn))
    );
    assert!(s.folder_mode);
    assert_eq!(notice_text(Notice::FolderModeOn), "✔ Folder Mode (Ctrl) ACTIVE: showing folders");
    assert_eq!(s.execute_hit_action(HitAction::ToggleCtrlMode, false).1, Some(Notice::FolderModeOff));
    assert_eq!(notice_text(Notice::FolderModeOff), "Standard File Mode");
    s.focused_panel = FocusedPanel::History;
    assert_eq!(s.execute_hit_action(HitAction::LogFilterPrev, false), (ClickRequest::SaveLogFilter, None));
    assert_eq!(s.log_filter, LogFilter::Problems);
    assert_eq!(s.focused_panel, FocusedPanel::Logs);
    s.execute_hit_action(HitAction::LogFilterNext, false);
    s.execute_hit_action(HitAction::LogFilterCycle, false);
    assert_eq!(s.log_filter, LogFilter::Files);
    s.execute_hit_action(HitAction::ToggleLogsAuto, false);
    assert!(!s.auto_scroll);
}

#[test]
fn files_recent_files_and_copy() {
    let mut s = dashboard(true, 3);
    assert_eq!(s.execute_hit_action(HitAction::RecentFile(4), true), (ClickRequest::Nothing, None));
    assert_eq!(s.recent_selected_idx, Some(4));
    assert_eq!(s.execute_hit_action(HitAction::RecentFile(4), true).0, ClickRequest::OpenRecentFile(4, true));
    assert_eq!(s.execute_hit_action(HitAction::ButtonCopy, false).0, ClickRequest::CopyRecentFile);
    s.execute_hit_action(HitAction::RecentFilterFocus, false);
    assert!(s.filtering_recent);
    assert_eq!(s.execute_hit_action(HitAction::HistoryFile(2), true).0, ClickRequest::OpenHistoryFile(2, true));
    assert_eq!(s.history_selected_file_idx, 2);
    assert_eq!(s.execute_hit_action(HitAction::FileEntry(5), false).0, ClickRequest::EnterSelectedFile);
    assert_eq!(s.execute_hit_action(HitAction::FileEntry(6), true).0, ClickRequest::OpenFileFolder(6));
    assert_eq!(s.file_selected_idx, 6);
    s.execute_hit_action(HitAction::HistoryArea, false);
    assert_eq!(s.execute_hit_action(HitAction::ButtonCopy, false).0, ClickRequest::CopyLogs);
    s.selected_run_idx = Some(2);
    assert_eq!(s.execute_hit_action(HitAction::ButtonCopy, false).0, ClickRequest::CopyHistoryErrors(1));
    s.execute_hit_action(HitAction::LogsArea, false);
    assert_eq!(s.execute_hit_action(HitAction::ButtonCopy, false).0, ClickRequest::CopyLogs);
    assert_eq!(s.execute_hit_action(HitAction::StatsIntervalDec, false).0, ClickRequest::StepRefreshRate(true));
    assert_eq!(s.execute_hit_action(HitAction::FilterOpenEditor, false).0, ClickRequest::OpenEditor);
    assert_eq!(s.execute_hit_action(HitAction::SettingsTab(1), false).0, ClickRequest::ForDialog);
    assert_eq!(s.execute_hit_action(HitAction::FirstRunInstall, false).0, ClickRequest::ForDialog);
}

#[test]
fn keys_go_to_the_right_handler() {
    let mut s = dashboard(false, 1);
    assert_eq!(s.route_key(Key::Char('x'), true, false), (KeyRoute::Done, Some(Notice::FolderPathsShown)));
    assert!(s.folder_mode);
    assert_eq!(notice_text(Notice::FolderPathsShown), "📁 Folder mode active (folder paths shown)");
    assert_eq!(s.route_key(Key::Char('\u{18}'), false, false).1, Some(Notice::FilePathsShown));
    assert!(!s.folder_mode);
    assert_eq!(s.route_key(Key::Char('x'), false, false), (KeyRoute::Dashboard, None));
    s.modal = Modal::Help;
    assert_eq!(s.route_key(Key::Char('q'), false, true), (KeyRoute::Dialog, None));
    assert_eq!(s.modal, Modal::Help);
    assert_eq!(s.route_key(Key::Char('q'), false, false), (KeyRoute::Done, None));
    assert_eq!(s.modal, Modal::Closed);
    s.modal = Modal::Menu;
    assert_eq!(s.route_key(Key::Char('q'), false, false), (KeyRoute::Dialog, None));
    assert_eq!(s.modal, Modal::Menu);
    assert_eq!(s.route_key(Key::Down, false, false), (KeyRoute::Dialog, None));
}

#[test]
fn recent_search_takes_the_keys() {
    let mut s = dashboard(false, 1);
    s.filtering_recent = true;
    s.recent_selected_idx = Some(2);
    assert_eq!(s.route_key(Key::Char('a'), false, false), (KeyRoute::RecentFilterEdited, None));
    assert_eq!(s.route_key(Key::Char('é'), false, false), (KeyRoute::RecentFilterEdited, None));
    assert_eq!(s.recent_filter, "aé");
    assert_eq!(s.recent_scroll_offset, 0);
    s.route_key(Key::Backspace, false, false);
    assert_eq!(s.recent_filter, "a");
    assert_eq!(s.route_key(Key::Up, false, false), (KeyRoute::Done, None));
    assert_eq!(s.route_key(Key::Enter, false, false), (KeyRoute::Done, None));
    assert!(!s.filtering_recent);
    assert_eq!(s.recent_filter, "a");
    s.filtering_recent = true;
    s.recent_scroll_offset = 3;
    s.route_key(Key::Esc, false, false);
    assert_eq!(s.recent_filter, "");
    assert!(!s.filtering_recent);
    assert_eq!(s.recent_selected_idx, None);
    assert_eq!(s.recent_scroll_offset, 0);
    // While a dialog is open the search does not take the keys.
    s.filtering_recent = true;
    s.modal = Modal::Files;
    assert_eq!(s.route_key(Key::Char('a'), false, false), (KeyRoute::Dialog, None));
    assert_eq!(s.recent_filter, "");
}

#[test]
fn dashboard_at_start() {
    let mut boxes = BoxVisibility::all_shown();
    boxes.metrics = false;
    let s = ClickState::new(boxes, LogFilter::Problems, true, 4);
    assert_eq!(s.modal, Modal::Closed);
    assert_eq!(s.focused_panel, FocusedPanel::RecentFiles);
    assert_eq!(s.boxes, boxes);
    assert_eq!(s.log_filter, LogFilter::Problems);
    assert!(s.running && s.auto_scroll && !s.folder_mode && !s.filtering_recent);
    assert!(s.syncing);
    assert_eq!(s.past_runs, 4);
    assert_eq!((s.selected_run_idx, s.recent_selected_idx), (None, None));
    assert_eq!((s.history_details_scroll, s.history_selected_file_idx, s.file_selected_idx, s.recent_scroll_offset), (0, 0, 0, 0));
    assert_eq!(s.recent_filter, "");
}

#[test]
fn wheel_and_left_click_routing() {
    let mut s = dashboard(false, 2);
    assert_eq!(s.wheel(Some(FocusedPanel::History), true), WheelRoute::Panel(FocusedPanel::History));
    assert_eq!(s.focused_panel, FocusedPanel::History);
    assert_eq!(s.wheel(None, true), WheelRoute::Nothing);
    assert!(s.auto_scroll);
    assert_eq!(s.wheel(None, false), WheelRoute::LogBack);
    assert!(!s.auto_scroll);
    s.modal = Modal::Files;
    assert_eq!(s.wheel(Some(FocusedPanel::Logs), false), WheelRoute::Dialog);
    assert_eq!(s.focused_panel, FocusedPanel::History);
    assert_eq!(s.left_click(ClickOutcome::Absorbed, false), (ClickRequest::Nothing, None));
    assert_eq!(s.modal, Modal::Files);
    assert_eq!(s.left_click(ClickOutcome::Dismiss, false), (ClickRequest::EndEdit, None));
    assert_eq!(s.modal, Modal::Closed);
    assert_eq!(s.left_click(ClickOutcome::Missed, true), (ClickRequest::Nothing, None));
    // Folder mode makes every click a Ctrl click.
    s.folder_mode = true;
    assert_eq!(s.left_click(ClickOutcome::Hit(HitAction::FileEntry(1)), false).0, ClickRequest::OpenFileFolder(1));
    s.folder_mode = false;
    assert_eq!(s.left_click(ClickOutcome::Hit(HitAction::FileEntry(1)), false).0, ClickRequest::EnterSelectedFile);
}

#[test]
fn test_click_outside_modal_dismissal() {
    let mut s = dashboard(false, 0);
    s.modal = Modal::Settings;
    s.hit_mgr.active_modal_area = Some(Rect { x: 20, y: 10, width: 40, height: 20 });
    s.hit_mgr.dashboard = vec![Hitbox { rect: Rect { x: 5, y: 5, width: 10, height: 1 }, action: HitAction::ButtonSync }];
    let r = s.left_click_at(5, 5, false);
    assert_eq!(r, (ClickRequest::EndEdit, None));
    assert_eq!(s.modal, Modal::Closed);
    assert!(s.hit_mgr.active_modal_area.is_none());
    assert_eq!(s.hit_mgr.dashboard.len(), 1);
    // With no dialog open, the same click reaches the sync button.
    s.left_click_at(5, 5, false);
    assert_eq!(s.modal, Modal::ConfirmSync);
}

#[test]
fn close_button_forgets_the_frame_and_drag_release() {
    let mut s = dashboard(false, 0);
    s.modal = Modal::Help;
    s.hit_mgr.active_modal_area = Some(Rect { x: 0, y: 0, width: 4, height: 4 });
    assert_eq!(s.execute_hit_action(HitAction::CloseModal, false), (ClickRequest::EndEdit, None));
    assert_eq!(s.modal, Modal::Closed);
    assert!(s.hit_mgr.active_modal_area.is_none());
    s.scrollbar_drag = Some(ScrollbarDrag { target: ScrollbarTarget::Logs, top_y: 2, track_height: 10, total: 50, visible: 10, grab_offset: 1 });
    s.release_drag();
    assert!(s.scrollbar_drag.is_none());
}

#[test]
fn test_settings_tab_switching() {
    let s = ClickState::new(BoxVisibility::all_shown(), LogFilter::All, false, 0);
    assert!(s.running);
    assert_eq!(s.modal, Modal::Closed);
    assert_eq!(s.edit_state, EditState::Idle);
    assert_eq!(s.focused_panel, FocusedPanel::RecentFiles);
    assert!(s.auto_scroll);
    assert_eq!((s.settings_tab, s.settings_selected_idx, s.menu_selected_idx), (0, 0, 0));
    assert!(s.scrollbar_drag.is_none());
    assert!(s.hit_mgr.active_modal_area.is_none());
    assert!(s.hit_mgr.dashboard.is_empty() && s.hit_mgr.modal.is_empty());
    let v = ListViews::new();
    assert_eq!(v.logs_scroll, 0);
    assert!(v.auto_scroll);
    assert_eq!(v.focused_panel, FocusedPanel::RecentFiles);
    assert_eq!((v.selected_run_idx, v.recent_selected_idx), (None, None));
    assert_eq!((v.logs_viewport_height, v.history_viewport_height, v.recent_viewport_height, v.file_viewport_height, v.filter_viewport_height), (10, 8, 6, 15, 12));
    assert_eq!((v.history_scroll_offset, v.file_scroll_offset, v.filter_scroll_offset, v.dry_run_scroll), (0, 0, 0, 0));
}

#[test]
fn dry_run_lifecycle() {
    let mut s = dashboard(false, 0);
    let mut v = ListViews::new();
    v.dry_run_scroll = 9;
    s.dry_run.raw_logs.push("old".to_string());
    assert_eq!(s.start_dry_run(&mut v), "🛡 Dry-Run simulation started...");
    assert_eq!(s.modal, Modal::DryRun);
    assert!(s.dry_run.running);
    assert_eq!(s.dry_run.logs, vec![
        "Analyzing differences between local folder and Google Drive...".to_string(),
        "Executing: rclone bisync --dry-run -v --tpslimit 8".to_string(),
        "This may take a moment...".to_string(),
    ]);
    assert!(s.dry_run.raw_logs.is_empty());
    assert_eq!(v.dry_run_scroll, 0);
    let r = s.dry_run_finished(vec!["a".to_string()], vec!["raw a".to_string()]);
    assert_eq!(r, "✔ Dry-Run simulation completed!");
    assert!(!s.dry_run.running);
    assert_eq!(s.dry_run.logs, vec!["a".to_string()]);
    assert_eq!(s.dry_run.raw_logs, vec!["raw a".to_string()]);
    assert_eq!(s.modal, Modal::DryRun);
}

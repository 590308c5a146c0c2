//! What a click on one of the dashboard's areas, or a key, does to the dashboard, and which
//! handler takes a key.
use vstd::prelude::*;
use crate::line_edit::Key;
use crate::dashboard_keys::is_ctrl_x;
use crate::text::{chars_of, push_char, slice_chars, string_of};
use crate::dashboard::{
    EditState, FocusedPanel, HitAction, LogFilter, Modal, ScrollbarTarget, filter_index,
    filter_of_index,
};
use crate::dashboard_keys::{RunTarget, run_target, run_target_of};
use crate::panels::{BoxVisibility, box_shown, next_shown, panel_shown, toggled};
use crate::hitboxes::{ClickOutcome, HitboxManager, click_of};
use crate::dry_run::{DryRunState, dry_run_intro};
use crate::views::ListViews;
use crate::text::strings_view;

verus! {

/// The part of the dashboard's state that clicks read and change.
#[derive(Debug, Clone)]
pub struct ClickState {
    pub modal: Modal,
    pub focused_panel: FocusedPanel,
    pub boxes: BoxVisibility,
    /// Folder mode (Ctrl): the recent files show their folders.
    pub folder_mode: bool,
    /// Cleared to leave the program.
    pub running: bool,
    /// The log follows new lines.
    pub auto_scroll: bool,
    /// A synchronisation runs: it is the first row of the history.
    pub syncing: bool,
    /// Number of past runs listed in the history.
    pub past_runs: usize,
    pub selected_run_idx: Option<usize>,
    pub history_details_scroll: usize,
    pub history_selected_file_idx: usize,
    pub recent_selected_idx: Option<usize>,
    /// The recent-files search field takes the keys.
    pub filtering_recent: bool,
    pub file_selected_idx: usize,
    pub log_filter: LogFilter,
    /// Text typed in the recent-files search field.
    pub recent_filter: String,
    pub recent_scroll_offset: usize,
    /// The clickable areas drawn last, and the open dialog's frame.
    pub hit_mgr: HitboxManager,
    pub menu_selected_idx: usize,
    pub settings_tab: usize,
    pub settings_selected_idx: usize,
    /// The text being typed in the settings or the filter rules, if any.
    pub edit_state: EditState,
    /// The scrollbar whose track is being dragged, if any.
    pub scrollbar_drag: Option<ScrollbarDrag>,
    pub dry_run: DryRunState,
}

/// A drag on a scrollbar's track: the list, the track's top row and height, the list's
/// length and visible rows, and where in the thumb it was grabbed.
#[derive(Debug, Clone, Copy, PartialEq, Eq, Structural)]
pub struct ScrollbarDrag {
    pub target: ScrollbarTarget,
    pub top_y: u16,
    pub track_height: u16,
    pub total: usize,
    pub visible: usize,
    pub grab_offset: u16,
}

/// The dashboard once the open dialog is closed: no dialog, and its frame forgotten.
pub open spec fn dismissed(s: ClickState) -> ClickState {
    ClickState {
        modal: Modal::Closed,
        hit_mgr: HitboxManager { active_modal_area: None, ..s.hit_mgr },
        ..s
    }
}

/// A short message shown after a click.
#[derive(Debug, Clone, Copy, PartialEq, Eq, Structural)]
pub enum Notice {
    FolderModeOn,
    FolderModeOff,
    ActiveSyncShown,
    BoxShown(usize),
    BoxHidden(usize),
    /// Ctrl+X switched folder mode on.
    FolderPathsShown,
    /// Ctrl+X switched folder mode off.
    FilePathsShown,
}

/// What a click leaves for the rest of the program to do.
#[derive(Debug, Clone, Copy, PartialEq, Eq, Structural)]
pub enum ClickRequest {
    Nothing,
    /// Open the filter rules in the editor.
    OpenEditor,
    /// Make the refresh faster (`true`) or slower.
    StepRefreshRate(bool),
    /// The open dialog was closed: commit a setting being edited, cancel a rule being edited.
    EndEdit,
    /// Store the shown boxes and the focus in the configuration.
    SaveLayout,
    /// Store the log filter in the configuration.
    SaveLogFilter,
    /// Open file `idx` of the run shown in detail (its folder when `true`).
    OpenHistoryFile(usize, bool),
    /// Open recent file `idx` (its folder when `true`).
    OpenRecentFile(usize, bool),
    /// Open the folder of entry `idx` of the file browser.
    OpenFileFolder(usize),
    /// Enter the directory selected in the file browser, or open the file.
    EnterSelectedFile,
    CopyLogs,
    /// Copy the errors of past run `idx`.
    CopyHistoryErrors(usize),
    CopyRecentFile,
    /// A click in the settings, the filter rules or the first-run assistant, or on a scrollbar:
    /// their own handlers take it (`settings_dialog`, `filter_rules`,
    /// `FirstRunState::on_click`, `views`).
    ForDialog,
}

/// Text of a notice; boxes 1 to 5 are the disks and cloud, metrics, history, logs and
/// recent-files boxes.
pub open spec fn notice_text_of(n: Notice) -> Seq<char> {
    match n {
        Notice::FolderModeOn => "✔ Folder Mode (Ctrl) ACTIVE: showing folders"@,
        Notice::FolderModeOff => "Standard File Mode"@,
        Notice::ActiveSyncShown => "ℹ Active sync - Details shown above"@,
        Notice::BoxShown(b) => box_name(b as int) + " box shown"@,
        Notice::BoxHidden(b) => box_name(b as int) + " box hidden"@,
        Notice::FolderPathsShown => "📁 Folder mode active (folder paths shown)"@,
        Notice::FilePathsShown => "📄 File mode active (file paths shown)"@,
    }
}

/// Name of box `b` (1 to 5).
pub open spec fn box_name(b: int) -> Seq<char> {
    if b == 1 {
        "Disks & Cloud"@
    } else if b == 2 {
        "Metrics"@
    } else if b == 3 {
        "History"@
    } else if b == 4 {
        "Logs"@
    } else if b == 5 {
        "Recent Files"@
    } else {
        Seq::empty()
    }
}

/// Number of rows of the history: the past runs, and the running synchronisation first.
pub open spec fn history_rows(s: ClickState) -> int {
    s.past_runs + if s.syncing {
        1int
    } else {
        0
    }
}

/// A click on row `idx` of the history: the history takes the focus; a row not yet selected
/// gets selected; a second click on it shows the past run in detail (scrolled to the top,
/// its first file selected), or tells that the running synchronisation is shown above.
pub open spec fn history_row_click(s: ClickState, idx: usize) -> (ClickState, ClickRequest, Option<
    Notice,
>) {
    let s1 = ClickState { focused_panel: FocusedPanel::History, ..s };
    if idx >= history_rows(s) {
        (s1, ClickRequest::Nothing, None)
    } else if s.selected_run_idx == Some(idx) {
        match run_target_of(Some(idx), s.syncing, s.past_runs as int) {
            RunTarget::ActiveSync => (s1, ClickRequest::Nothing, Some(Notice::ActiveSyncShown)),
            RunTarget::Past(k) => (
                ClickState {
                    history_details_scroll: 0,
                    history_selected_file_idx: 0,
                    modal: Modal::HistoryDetails(k),
                    ..s1
                },
                ClickRequest::Nothing,
                None,
            ),
            RunTarget::NoRun => (s1, ClickRequest::Nothing, None),
        }
    } else {
        (ClickState { selected_run_idx: Some(idx), ..s1 }, ClickRequest::Nothing, None)
    }
}

/// What the copy button copies: the log when it has the focus; from the history, the errors
/// of the selected past run (counted among the past runs), or the log when no row is
/// selected; the selected recent file from the recent files.
pub open spec fn copy_request(s: ClickState) -> ClickRequest {
    match s.focused_panel {
        FocusedPanel::Logs => ClickRequest::CopyLogs,
        FocusedPanel::History => match s.selected_run_idx {
            Some(sel) => ClickRequest::CopyHistoryErrors(
                if s.syncing && sel > 0 {
                    (sel - 1) as usize
                } else if s.syncing {
                    0usize
                } else {
                    sel
                },
            ),
            None => ClickRequest::CopyLogs,
        },
        FocusedPanel::RecentFiles => ClickRequest::CopyRecentFile,
    }
}

/// The dashboard, the request left and the notice shown after a click on an area with
/// action `a`, `ctrl` telling whether Ctrl was held.
pub open spec fn click_outcome(s: ClickState, a: HitAction, ctrl: bool) -> (
    ClickState,
    ClickRequest,
    Option<Notice>,
) {
    match a {
        HitAction::ButtonSync => (
            ClickState { modal: Modal::ConfirmSync, ..s },
            ClickRequest::Nothing,
            None,
        ),
        HitAction::ButtonCancel => (
            ClickState { modal: Modal::ConfirmCancel, ..s },
            ClickRequest::Nothing,
            None,
        ),
        HitAction::ButtonDryRun => (
            ClickState { modal: Modal::ConfirmDryRun, ..s },
            ClickRequest::Nothing,
            None,
        ),
        HitAction::ButtonFiles => (
            ClickState {
                modal: if s.modal is Files {
                    Modal::Closed
                } else {
                    Modal::Files
                },
                ..s
            },
            ClickRequest::Nothing,
            None,
        ),
        HitAction::ButtonFilters => (
            ClickState {
                modal: if s.modal is Filters {
                    Modal::Closed
                } else {
                    Modal::Filters
                },
                ..s
            },
            ClickRequest::Nothing,
            None,
        ),
        HitAction::ButtonPanel => (
            ClickState { focused_panel: next_shown(s.boxes, s.focused_panel), ..s },
            ClickRequest::Nothing,
            None,
        ),
        HitAction::ToggleBox(n) => if 1 <= n <= 5 {
            let b = toggled(s.boxes, n as int);
            (
                ClickState {
                    boxes: b,
                    focused_panel: if panel_shown(b, s.focused_panel) {
                        s.focused_panel
                    } else {
                        next_shown(b, s.focused_panel)
                    },
                    ..s
                },
                ClickRequest::SaveLayout,
                Some(
                    if box_shown(b, n as int) {
                        Notice::BoxShown(n)
                    } else {
                        Notice::BoxHidden(n)
                    },
                ),
            )
        } else {
            (s, ClickRequest::Nothing, None)
        },
        HitAction::StatsIntervalDec => (s, ClickRequest::StepRefreshRate(true), None),
        HitAction::StatsIntervalInc => (s, ClickRequest::StepRefreshRate(false), None),
        HitAction::CloseModal => (dismissed(s), ClickRequest::EndEdit, None),
        HitAction::ToggleCtrlMode => (
            ClickState { folder_mode: !s.folder_mode, ..s },
            ClickRequest::Nothing,
            Some(
                if !s.folder_mode {
                    Notice::FolderModeOn
                } else {
                    Notice::FolderModeOff
                },
            ),
        ),
        HitAction::MenuOption(idx) => (
            if idx == 0 {
                ClickState { modal: Modal::Settings, ..s }
            } else if idx == 1 {
                ClickState { modal: Modal::Help, ..s }
            } else if idx == 2 {
                ClickState { running: false, ..s }
            } else {
                s
            },
            ClickRequest::Nothing,
            None,
        ),
        HitAction::HistoryArea => (
            ClickState { focused_panel: FocusedPanel::History, ..s },
            ClickRequest::Nothing,
            None,
        ),
        HitAction::LogsArea => (
            ClickState { focused_panel: FocusedPanel::Logs, ..s },
            ClickRequest::Nothing,
            None,
        ),
        HitAction::RecentFilesArea => (
            ClickState { focused_panel: FocusedPanel::RecentFiles, ..s },
            ClickRequest::Nothing,
            None,
        ),
        HitAction::HistoryRow(idx) => history_row_click(s, idx),
        HitAction::HistoryFile(idx) => (
            ClickState { history_selected_file_idx: idx, ..s },
            ClickRequest::OpenHistoryFile(idx, ctrl),
            None,
        ),
        HitAction::RecentFile(idx) => if s.recent_selected_idx == Some(idx) {
            (
                ClickState { focused_panel: FocusedPanel::RecentFiles, ..s },
                ClickRequest::OpenRecentFile(idx, ctrl),
                None,
            )
        } else {
            (
                ClickState {
                    focused_panel: FocusedPanel::RecentFiles,
                    recent_selected_idx: Some(idx),
                    ..s
                },
                ClickRequest::Nothing,
                None,
            )
        },
        HitAction::RecentFilterFocus => (
            ClickState { focused_panel: FocusedPanel::RecentFiles, filtering_recent: true, ..s },
            ClickRequest::Nothing,
            None,
        ),
        HitAction::FileEntry(idx) => (
            ClickState { file_selected_idx: idx, ..s },
            if ctrl {
                ClickRequest::OpenFileFolder(idx)
            } else {
                ClickRequest::EnterSelectedFile
            },
            None,
        ),
        HitAction::ToggleLogsAuto => (
            ClickState { auto_scroll: !s.auto_scroll, ..s },
            ClickRequest::Nothing,
            None,
        ),
        HitAction::LogFilterPrev => (
            ClickState {
                log_filter: filter_of_index((filter_index(s.log_filter) + 2) % 3),
                focused_panel: FocusedPanel::Logs,
                ..s
            },
            ClickRequest::SaveLogFilter,
            None,
        ),
        HitAction::LogFilterNext | HitAction::LogFilterCycle => (
            ClickState {
                log_filter: filter_of_index((filter_index(s.log_filter) + 1) % 3),
                focused_panel: FocusedPanel::Logs,
                ..s
            },
            ClickRequest::SaveLogFilter,
            None,
        ),
        HitAction::ButtonCopy => (s, copy_request(s), None),
        HitAction::FilterOpenEditor => (s, ClickRequest::OpenEditor, None),
        HitAction::FilterArea => (s, ClickRequest::Nothing, None),
        _ => (s, ClickRequest::ForDialog, None),
    }
}

/// The text of a notice (see `notice_text_of`).
pub fn notice_text(n: Notice) -> (r: String)
    ensures
        r@ == notice_text_of(n),
{
    match n {
        Notice::FolderModeOn => String::from_str("✔ Folder Mode (Ctrl) ACTIVE: showing folders"),
        Notice::FolderModeOff => String::from_str("Standard File Mode"),
        Notice::ActiveSyncShown => String::from_str("ℹ Active sync - Details shown above"),
        Notice::BoxShown(b) => {
            let mut t = box_name_exec(b);
            t.append(" box shown");
            t
        },
        Notice::BoxHidden(b) => {
            let mut t = box_name_exec(b);
            t.append(" box hidden");
            t
        },
        Notice::FolderPathsShown => String::from_str("📁 Folder mode active (folder paths shown)"),
        Notice::FilePathsShown => String::from_str("📄 File mode active (file paths shown)"),
    }
}

fn box_name_exec(b: usize) -> (r: String)
    ensures
        r@ == box_name(b as int),
{
    match b {
        1 => String::from_str("Disks & Cloud"),
        2 => String::from_str("Metrics"),
        3 => String::from_str("History"),
        4 => String::from_str("Logs"),
        5 => String::from_str("Recent Files"),
        _ => String::new(),
    }
}

impl ClickState {
    /// Handles a click on an area with action `action` (see `click_outcome`); returns what is
    /// left for the program to do and the notice to show, if any.
    #[verifier::spinoff_prover]
    #[verifier::rlimit(60)]
    pub fn execute_hit_action(&mut self, action: HitAction, is_ctrl: bool) -> (r: (
        ClickRequest,
        Option<Notice>,
    ))
        ensures
            (*final(self), r.0, r.1) == click_outcome(*old(self), action, is_ctrl),
    {
        match action {
            HitAction::ButtonSync => {
                self.modal = Modal::ConfirmSync;
                (ClickRequest::Nothing, None)
            },
            HitAction::ButtonCancel => {
                self.modal = Modal::ConfirmCancel;
                (ClickRequest::Nothing, None)
            },
            HitAction::ButtonDryRun => {
                self.modal = Modal::ConfirmDryRun;
                (ClickRequest::Nothing, None)
            },
            HitAction::ButtonFiles => {
                self.modal = match self.modal {
                    Modal::Files => Modal::Closed,
                    _ => Modal::Files,
                };
                (ClickRequest::Nothing, None)
            },
            HitAction::ButtonFilters => {
                self.modal = match self.modal {
                    Modal::Filters => Modal::Closed,
                    _ => Modal::Filters,
                };
                (ClickRequest::Nothing, None)
            },
            HitAction::ButtonPanel => {
                self.focused_panel = self.boxes.next_visible_panel(self.focused_panel);
                (ClickRequest::Nothing, None)
            },
            HitAction::ToggleBox(n) => {
                if self.boxes.toggle_box(n) {
                    self.focused_panel = self.boxes.adjust_focused_panel(self.focused_panel);
                    let shown = self.boxes.is_box_visible(n);
                    (ClickRequest::SaveLayout, Some(
                        if shown {
                            Notice::BoxShown(n)
                        } else {
                            Notice::BoxHidden(n)
                        },
                    ))
                } else {
                    (ClickRequest::Nothing, None)
                }
            },
            HitAction::StatsIntervalDec => (ClickRequest::StepRefreshRate(true), None),
            HitAction::StatsIntervalInc => (ClickRequest::StepRefreshRate(false), None),
            HitAction::CloseModal => {
                self.dismiss();
                (ClickRequest::EndEdit, None)
            },
            HitAction::ToggleCtrlMode => {
                self.folder_mode = !self.folder_mode;
                (ClickRequest::Nothing, Some(
                    if self.folder_mode {
                        Notice::FolderModeOn
                    } else {
                        Notice::FolderModeOff
                    },
                ))
            },
            HitAction::MenuOption(idx) => {
                if idx == 0 {
                    self.modal = Modal::Settings;
                } else if idx == 1 {
                    self.modal = Modal::Help;
                } else if idx == 2 {
                    self.running = false;
                }
                (ClickRequest::Nothing, None)
            },
            HitAction::HistoryArea => {
                self.focused_panel = FocusedPanel::History;
                (ClickRequest::Nothing, None)
            },
            HitAction::LogsArea => {
                self.focused_panel = FocusedPanel::Logs;
                (ClickRequest::Nothing, None)
            },
            HitAction::RecentFilesArea => {
                self.focused_panel = FocusedPanel::RecentFiles;
                (ClickRequest::Nothing, None)
            },
            HitAction::HistoryRow(idx) => self.click_history_row(idx),
            HitAction::HistoryFile(idx) => {
                self.history_selected_file_idx = idx;
                (ClickRequest::OpenHistoryFile(idx, is_ctrl), None)
            },
            HitAction::RecentFile(idx) => {
                self.focused_panel = FocusedPanel::RecentFiles;
                if self.recent_selected_idx == Some(idx) {
                    (ClickRequest::OpenRecentFile(idx, is_ctrl), None)
                } else {
                    self.recent_selected_idx = Some(idx);
                    (ClickRequest::Nothing, None)
                }
            },
            HitAction::RecentFilterFocus => {
                self.focused_panel = FocusedPanel::RecentFiles;
                self.filtering_recent = true;
                (ClickRequest::Nothing, None)
            },
            HitAction::FileEntry(idx) => {
                self.file_selected_idx = idx;
                if is_ctrl {
                    (ClickRequest::OpenFileFolder(idx), None)
                } else {
                    (ClickRequest::EnterSelectedFile, None)
                }
            },
            HitAction::ToggleLogsAuto => {
                self.auto_scroll = !self.auto_scroll;
                (ClickRequest::Nothing, None)
            },
            HitAction::LogFilterPrev => {
                self.log_filter = self.log_filter.prev();
                self.focused_panel = FocusedPanel::Logs;
                (ClickRequest::SaveLogFilter, None)
            },
            HitAction::LogFilterNext | HitAction::LogFilterCycle => {
                self.log_filter = self.log_filter.next();
                self.focused_panel = FocusedPanel::Logs;
                (ClickRequest::SaveLogFilter, None)
            },
            HitAction::ButtonCopy => {
                let r = match self.focused_panel {
                    FocusedPanel::Logs => ClickRequest::CopyLogs,
                    FocusedPanel::History => match self.selected_run_idx {
                        Some(sel) => ClickRequest::CopyHistoryErrors(
                            if self.syncing {
                                sel.saturating_sub(1)
                            } else {
                                sel
                            },
                        ),
                        None => ClickRequest::CopyLogs,
                    },
                    FocusedPanel::RecentFiles => ClickRequest::CopyRecentFile,
                };
                (r, None)
            },
            HitAction::FilterOpenEditor => (ClickRequest::OpenEditor, None),
            HitAction::FilterArea => (ClickRequest::Nothing, None),
            _ => (ClickRequest::ForDialog, None),
        }
    }

    /// A click on row `idx` of the history (see `history_row_click`).
    fn click_history_row(&mut self, idx: usize) -> (r: (ClickRequest, Option<Notice>))
        ensures
            (*final(self), r.0, r.1) == history_row_click(*old(self), idx),
    {
        self.focused_panel = FocusedPanel::History;
        let in_list = if self.syncing {
            idx <= self.past_runs
        } else {
            idx < self.past_runs
        };
        if !in_list {
            return (ClickRequest::Nothing, None);
        }
        if self.selected_run_idx == Some(idx) {
            match run_target(Some(idx), self.syncing, self.past_runs) {
                RunTarget::ActiveSync => (ClickRequest::Nothing, Some(Notice::ActiveSyncShown)),
                RunTarget::Past(k) => {
                    self.history_details_scroll = 0;
                    self.history_selected_file_idx = 0;
                    self.modal = Modal::HistoryDetails(k);
                    (ClickRequest::Nothing, None)
                },
                RunTarget::NoRun => (ClickRequest::Nothing, None),
            }
        } else {
            self.selected_run_idx = Some(idx);
            (ClickRequest::Nothing, None)
        }
    }
}

} // verus!

verus! {

/// Two clicks on a row of the history that lists a past run show that run in detail: the
/// first selects the row (unless it already was), the second opens the run.
pub proof fn law_history_double_click_opens_run(s: ClickState, idx: usize)
    requires
        idx < history_rows(s),
        !(s.syncing && idx == 0),
        s.selected_run_idx != Some(idx),
    ensures
        history_row_click(history_row_click(s, idx).0, idx).0.modal == Modal::HistoryDetails(
            (if s.syncing {
                idx - 1
            } else {
                idx as int
            }) as usize,
        ),
{
}

/// Clicking the files or filters button twice leaves the dialog as it was when it was
/// closed before.
pub proof fn law_dialog_button_twice(s: ClickState, a: HitAction)
    requires
        s.modal is Closed,
        a == HitAction::ButtonFiles || a == HitAction::ButtonFilters,
    ensures
        click_outcome(click_outcome(s, a, false).0, a, false).0 == s,
{
}

} // verus!

verus! {

/// Who takes a key once the dashboard has looked at it.
#[derive(Debug, Clone, Copy, PartialEq, Eq, Structural)]
pub enum KeyRoute {
    /// The key was handled here.
    Done,
    /// The recent-files search text changed: select the first match, if any.
    RecentFilterEdited,
    /// The first-run assistant takes it (`FirstRunState::on_key`).
    FirstRun,
    /// The open dialog takes it (its own key handler).
    Dialog,
    /// The dashboard's shortcuts take it (`dashboard_key`).
    Dashboard,
}

/// The recent-files search after a key typed into it: Esc clears the search and leaves it
/// (no selection, list back at the top), Enter leaves it keeping the text, Backspace
/// removes the last character and a character is appended (the list back at the top);
/// other keys change nothing.
pub open spec fn recent_filter_after(s: ClickState, key: Key) -> (ClickState, KeyRoute) {
    match key {
        Key::Esc => (
            ClickState {
                filtering_recent: false,
                recent_selected_idx: None,
                recent_scroll_offset: 0,
                ..s
            },
            KeyRoute::Done,
        ),
        Key::Enter => (ClickState { filtering_recent: false, ..s }, KeyRoute::Done),
        Key::Backspace | Key::Char(_) => (
            ClickState { recent_scroll_offset: 0, ..s },
            KeyRoute::RecentFilterEdited,
        ),
        _ => (s, KeyRoute::Done),
    }
}

/// The search text after a key typed into the recent-files search.
pub open spec fn recent_filter_text_after(f: Seq<char>, key: Key) -> Seq<char> {
    match key {
        Key::Esc => Seq::empty(),
        Key::Backspace => if f.len() > 0 {
            f.drop_last()
        } else {
            f
        },
        Key::Char(c) => f.push(c),
        _ => f,
    }
}

/// The dashboard and the route of a key, `ctrl` telling whether Ctrl was held and
/// `editing` whether a setting or a rule is being edited: Ctrl+X switches folder mode
/// whatever is open; the recent-files search takes every key while no dialog is open; the
/// first-run assistant takes its keys; `q` closes any other dialog but the menu when nothing
/// is being edited; the open dialog takes the other keys; with no dialog, the dashboard's
/// shortcuts do. The search text is `recent_filter_text_after`, the rest as returned here.
pub open spec fn key_outcome(s: ClickState, key: Key, ctrl: bool, editing: bool) -> (
    ClickState,
    KeyRoute,
    Option<Notice>,
) {
    if (ctrl && (key == Key::Char('x') || key == Key::Char('X'))) || key == Key::Char('\u{18}') {
        (
            ClickState { folder_mode: !s.folder_mode, ..s },
            KeyRoute::Done,
            Some(
                if !s.folder_mode {
                    Notice::FolderPathsShown
                } else {
                    Notice::FilePathsShown
                },
            ),
        )
    } else if s.filtering_recent && s.modal is Closed {
        let (t, route) = recent_filter_after(s, key);
        (t, route, None)
    } else if s.modal is FirstRun {
        (s, KeyRoute::FirstRun, None)
    } else if !(s.modal is Closed) && key == Key::Char('q') && !(s.modal is Menu) && !editing {
        (ClickState { modal: Modal::Closed, ..s }, KeyRoute::Done, None)
    } else if !(s.modal is Closed) {
        (s, KeyRoute::Dialog, None)
    } else {
        (s, KeyRoute::Dashboard, None)
    }
}

impl ClickState {
    /// Looks at a key before any dialog does (see `key_outcome`): handles Ctrl+X, the
    /// recent-files search and the closing `q`, and says who takes the key otherwise.
    pub fn route_key(&mut self, key: Key, ctrl: bool, editing: bool) -> (r: (KeyRoute, Option<Notice>))
        ensures
            ({
                let (t, route, n) = key_outcome(*old(self), key, ctrl, editing);
                &&& final(self).recent_filter@ == (if (ctrl && (key == Key::Char('x') || key
                    == Key::Char('X'))) || key == Key::Char('\u{18}') {
                    old(self).recent_filter@
                } else if old(self).filtering_recent && old(self).modal is Closed {
                    recent_filter_text_after(old(self).recent_filter@, key)
                } else {
                    old(self).recent_filter@
                })
                &&& (ClickState { recent_filter: t.recent_filter, ..*final(self) }) == t
                &&& r == (route, n)
            }),
    {
        if is_ctrl_x(key, ctrl) {
            self.folder_mode = !self.folder_mode;
            let n = if self.folder_mode {
                Notice::FolderPathsShown
            } else {
                Notice::FilePathsShown
            };
            return (KeyRoute::Done, Some(n));
        }
        let closed = match self.modal {
            Modal::Closed => true,
            _ => false,
        };
        if self.filtering_recent && closed {
            let route = self.recent_filter_key(key);
            return (route, None);
        }
        match self.modal {
            Modal::FirstRun(_) => {
                return (KeyRoute::FirstRun, None);
            },
            _ => {},
        }
        if closed {
            return (KeyRoute::Dashboard, None);
        }
        let menu = match self.modal {
            Modal::Menu => true,
            _ => false,
        };
        if key == Key::Char('q') && !menu && !editing {
            self.modal = Modal::Closed;
            return (KeyRoute::Done, None);
        }
        (KeyRoute::Dialog, None)
    }

    /// A key typed into the recent-files search (see `recent_filter_after`).
    fn recent_filter_key(&mut self, key: Key) -> (r: KeyRoute)
        ensures
            final(self).recent_filter@ == recent_filter_text_after(old(self).recent_filter@, key),
            (ClickState { recent_filter: old(self).recent_filter, ..*final(self) }, r)
                == recent_filter_after(*old(self), key),
    {
        match key {
            Key::Esc => {
                self.recent_filter = String::new();
                self.filtering_recent = false;
                self.recent_selected_idx = None;
                self.recent_scroll_offset = 0;
                KeyRoute::Done
            },
            Key::Enter => {
                self.filtering_recent = false;
                KeyRoute::Done
            },
            Key::Backspace => {
                let v = chars_of(self.recent_filter.as_str());
                if v.len() > 0 {
                    let w = slice_chars(&v, 0, v.len() - 1);
                    self.recent_filter = string_of(&w);
                }
                self.recent_scroll_offset = 0;
                KeyRoute::RecentFilterEdited
            },
            Key::Char(c) => {
                push_char(&mut self.recent_filter, c);
                self.recent_scroll_offset = 0;
                KeyRoute::RecentFilterEdited
            },
            _ => KeyRoute::Done,
        }
    }
}

} // verus!

verus! {

/// The dashboard as the program starts: no dialog, the recent files focused, folder mode
/// off, the log following new lines, nothing selected and every list at the top; the shown
/// boxes and the log filter come from the configuration, `syncing` and `past_runs` from the
/// service and its journal; `search` is the (empty) recent-files search text, `hits` the
/// (empty) clickable areas and `dry` the dry run not yet started. The menu, the settings tab
/// and row start at 0, nothing is being typed and no scrollbar is dragged.
pub open spec fn initial_clicks(
    boxes: BoxVisibility,
    log_filter: LogFilter,
    syncing: bool,
    past_runs: usize,
    search: String,
    hits: HitboxManager,
    dry: DryRunState,
) -> ClickState {
    ClickState {
        modal: Modal::Closed,
        focused_panel: FocusedPanel::RecentFiles,
        boxes,
        folder_mode: false,
        running: true,
        auto_scroll: true,
        syncing,
        past_runs,
        selected_run_idx: None,
        history_details_scroll: 0,
        history_selected_file_idx: 0,
        recent_selected_idx: None,
        filtering_recent: false,
        file_selected_idx: 0,
        log_filter,
        recent_filter: search,
        recent_scroll_offset: 0,
        hit_mgr: hits,
        menu_selected_idx: 0,
        settings_tab: 0,
        settings_selected_idx: 0,
        edit_state: EditState::Idle,
        scrollbar_drag: None,
        dry_run: dry,
    }
}

impl ClickState {
    /// The dashboard as the program starts (see `initial_clicks`); the search text is empty.
    pub fn new(boxes: BoxVisibility, log_filter: LogFilter, syncing: bool, past_runs: usize) -> (r: Self)
        ensures
            r.recent_filter@ == Seq::<char>::empty(),
            r.hit_mgr.dashboard@.len() == 0,
            r.hit_mgr.modal@.len() == 0,
            r.hit_mgr.active_modal_area is None,
            !r.dry_run.running && r.dry_run.logs@.len() == 0 && r.dry_run.raw_logs@.len() == 0,
            r == initial_clicks(
                boxes,
                log_filter,
                syncing,
                past_runs,
                r.recent_filter,
                r.hit_mgr,
                r.dry_run,
            ),
    {
        ClickState {
            modal: Modal::Closed,
            focused_panel: FocusedPanel::RecentFiles,
            boxes,
            folder_mode: false,
            running: true,
            auto_scroll: true,
            syncing,
            past_runs,
            selected_run_idx: None,
            history_details_scroll: 0,
            history_selected_file_idx: 0,
            recent_selected_idx: None,
            filtering_recent: false,
            file_selected_idx: 0,
            log_filter,
            recent_filter: String::new(),
            recent_scroll_offset: 0,
            hit_mgr: HitboxManager::new(),
            menu_selected_idx: 0,
            settings_tab: 0,
            settings_selected_idx: 0,
            edit_state: EditState::Idle,
            scrollbar_drag: None,
            dry_run: DryRunState::new(),
        }
    }

    /// Starts the dry-run simulation: its dialog opens, scrolled to the top, showing the
    /// waiting lines while it runs. Returns the message to show.
    pub fn start_dry_run(&mut self, views: &mut ListViews) -> (r: &'static str)
        ensures
            *final(self) == (ClickState {
                modal: Modal::DryRun,
                dry_run: final(self).dry_run,
                ..*old(self)
            }),
            final(self).dry_run.running,
            strings_view(final(self).dry_run.logs@) == dry_run_intro(),
            final(self).dry_run.raw_logs@.len() == 0,
            *final(views) == (ListViews { dry_run_scroll: 0, ..*old(views) }),
            r@ == "🛡 Dry-Run simulation started..."@,
    {
        self.dry_run.start();
        views.dry_run_scroll = 0;
        self.modal = Modal::DryRun;
        "🛡 Dry-Run simulation started..."
    }

    /// The simulation answered: its display lines and raw output are kept and it no longer
    /// runs. Returns the message to show.
    pub fn dry_run_finished(&mut self, lines: Vec<String>, raw: Vec<String>) -> (r: &'static str)
        ensures
            *final(self) == (ClickState { dry_run: final(self).dry_run, ..*old(self) }),
            !final(self).dry_run.running,
            final(self).dry_run.logs == lines,
            final(self).dry_run.raw_logs == raw,
            r@ == "✔ Dry-Run simulation completed!"@,
    {
        self.dry_run.finish(lines, raw);
        "✔ Dry-Run simulation completed!"
    }
}

} // verus!

verus! {

/// What the mouse wheel scrolls.
#[derive(Debug, Clone, Copy, PartialEq, Eq, Structural)]
pub enum WheelRoute {
    /// The open dialog, by its own wheel handler.
    Dialog,
    /// This panel of the dashboard, which takes the focus.
    Panel(FocusedPanel),
    /// Wheel up over no panel: the log goes one line back and stops following.
    LogBack,
    Nothing,
}

/// The dashboard and the route of a wheel turn (`down` or up) with `panel` under the
/// cursor: an open dialog takes every turn; otherwise the panel under the cursor takes the
/// focus and the turn; a turn up over no panel scrolls the log back.
pub open spec fn wheel_outcome(s: ClickState, panel: Option<FocusedPanel>, down: bool) -> (
    ClickState,
    WheelRoute,
) {
    if !(s.modal is Closed) {
        (s, WheelRoute::Dialog)
    } else {
        match panel {
            Some(p) => (ClickState { focused_panel: p, ..s }, WheelRoute::Panel(p)),
            None => if down {
                (s, WheelRoute::Nothing)
            } else {
                (ClickState { auto_scroll: false, ..s }, WheelRoute::LogBack)
            },
        }
    }
}

/// The dashboard, the request and the notice after a left click that reached `outcome`
/// (see `HitboxManager::click`): outside an open dialog the dialog closes, on an area its
/// action runs (with Ctrl held or folder mode on counting as Ctrl), elsewhere nothing happens.
pub open spec fn left_click_outcome(s: ClickState, outcome: ClickOutcome, ctrl: bool) -> (
    ClickState,
    ClickRequest,
    Option<Notice>,
) {
    match outcome {
        ClickOutcome::Dismiss => (dismissed(s), ClickRequest::EndEdit, None),
        ClickOutcome::Hit(a) => click_outcome(s, a, ctrl || s.folder_mode),
        _ => (s, ClickRequest::Nothing, None),
    }
}

/// The dashboard, the request and the notice after a left click at (`col`, `row`): what the
/// click reaches among the areas drawn last (see `click_of`), then `left_click_outcome`.
pub open spec fn left_click_at_outcome(s: ClickState, col: u16, row: u16, ctrl: bool) -> (
    ClickState,
    ClickRequest,
    Option<Notice>,
) {
    left_click_outcome(s, click_of(s.hit_mgr, !(s.modal is Closed), col as int, row as int), ctrl)
}

impl ClickState {
    /// Closes the open dialog and forgets its frame (see `dismissed`).
    pub fn dismiss(&mut self)
        ensures
            *final(self) == dismissed(*old(self)),
    {
        self.modal = Modal::Closed;
        self.hit_mgr.dismiss_modal_area();
    }

    /// The mouse button was released: no scrollbar is dragged any more.
    pub fn release_drag(&mut self)
        ensures
            *final(self) == (ClickState { scrollbar_drag: None, ..*old(self) }),
    {
        self.scrollbar_drag = None;
    }

    /// A left click at (`col`, `row`), with Ctrl held or not (see `left_click_at_outcome`).
    pub fn left_click_at(&mut self, col: u16, row: u16, ctrl: bool) -> (r: (ClickRequest, Option<Notice>))
        ensures
            (*final(self), r.0, r.1) == left_click_at_outcome(*old(self), col, row, ctrl),
    {
        let has_modal = match self.modal {
            Modal::Closed => false,
            _ => true,
        };
        let outcome = self.hit_mgr.click(has_modal, col, row);
        self.left_click(outcome, ctrl)
    }

    /// A wheel turn with `panel` under the cursor (see `wheel_outcome`).
    pub fn wheel(&mut self, panel: Option<FocusedPanel>, down: bool) -> (r: WheelRoute)
        ensures
            (*final(self), r) == wheel_outcome(*old(self), panel, down),
    {
        match self.modal {
            Modal::Closed => {},
            _ => {
                return WheelRoute::Dialog;
            },
        }
        match panel {
            Some(p) => {
                self.focused_panel = p;
                WheelRoute::Panel(p)
            },
            None => if down {
                WheelRoute::Nothing
            } else {
                self.auto_scroll = false;
                WheelRoute::LogBack
            },
        }
    }

    /// A left click that reached `outcome`, with Ctrl held or not (see `left_click_outcome`).
    pub fn left_click(&mut self, outcome: ClickOutcome, ctrl: bool) -> (r: (ClickRequest, Option<Notice>))
        ensures
            (*final(self), r.0, r.1) == left_click_outcome(*old(self), outcome, ctrl),
    {
        match outcome {
            ClickOutcome::Dismiss => {
                self.dismiss();
                (ClickRequest::EndEdit, None)
            },
            ClickOutcome::Hit(a) => {
                let c = ctrl || self.folder_mode;
                self.execute_hit_action(a, c)
            },
            _ => (ClickRequest::Nothing, None),
        }
    }
}

} // verus!

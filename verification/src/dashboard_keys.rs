//! Keyboard shortcuts of the dashboard itself (no dialog open).
use vstd::prelude::*;
use crate::dashboard::FocusedPanel;
use crate::line_edit::Key;

verus! {

/// Whether a key is the folder-mode switch Ctrl+X (also read as the control character it
/// produces on some terminals).
pub fn is_ctrl_x(key: Key, ctrl: bool) -> (r: bool)
    ensures
        r == ((ctrl && (key == Key::Char('x') || key == Key::Char('X'))) || key == Key::Char(
            '\u{18}',
        )),
{
    match key {
        Key::Char('x') | Key::Char('X') => ctrl,
        Key::Char('\u{18}') => true,
        _ => false,
    }
}

/// What a key asks of the dashboard.
#[derive(Debug, Clone, Copy, PartialEq, Eq, Structural)]
pub enum DashboardRequest {
    Nothing,
    /// Open the details of the run selected in the history.
    OpenRunDetails,
    /// Open the selected recent file (its folder when `true`).
    OpenRecent(bool),
    OpenMenu,
    Quit,
    OpenSettings,
    ConfirmDryRun,
    NextLogFilter,
    PrevLogFilter,
    /// Focus the recent files and type a filter for them.
    FilterRecent,
    /// Show or hide box 1 to 5.
    ToggleBox(usize),
    ToggleFileBrowser,
    ToggleFolderMode,
    OpenFilters,
    NextTheme,
    OpenHelp,
    ConfirmSync,
    ConfirmResync,
    /// Ask to cancel the running synchronisation (refused when none runs).
    CancelSync,
    /// Copy what the focused panel selects.
    CopySelection,
    ToggleFollowLogs,
    NextPanel,
    PrevPanel,
    SlowerTicks,
    FasterTicks,
    /// Move in the focused panel: one row up or down, a page up or down, to its start or end.
    MoveUp,
    MoveDown,
    PageUp,
    PageDown,
    MoveHome,
    MoveEnd,
}

/// The request of a key on the dashboard (`ctrl`: with Control held; `folder_mode`: paths
/// shown as folders). Enter opens the history's selected run or the selected recent file;
/// Esc/`m` open the menu; `q` and Ctrl+C quit; letters open dialogs and switch modes; `1` to
/// `5` toggle the boxes; `f` cycles the log filter on the logs panel and filters the recent
/// files elsewhere; Left/Right cycle the log filter on the logs panel; Tab/Shift+Tab move the
/// focus; `+`/`-` change the refresh rate; the other moving keys act in the focused panel.
pub open spec fn dashboard_request(key: Key, ctrl: bool, focused: FocusedPanel, folder_mode: bool) -> DashboardRequest {
    match key {
        Key::Enter => match focused {
            FocusedPanel::History => DashboardRequest::OpenRunDetails,
            FocusedPanel::RecentFiles => DashboardRequest::OpenRecent(ctrl || folder_mode),
            FocusedPanel::Logs => DashboardRequest::Nothing,
        },
        Key::Esc | Key::Char('m') => DashboardRequest::OpenMenu,
        Key::Char('q') => DashboardRequest::Quit,
        Key::Char('c') => if ctrl {
            DashboardRequest::Quit
        } else {
            DashboardRequest::CancelSync
        },
        Key::Char('o') => DashboardRequest::OpenSettings,
        Key::Char('d') => DashboardRequest::ConfirmDryRun,
        Key::Char('f') => if focused == FocusedPanel::Logs {
            DashboardRequest::NextLogFilter
        } else {
            DashboardRequest::FilterRecent
        },
        Key::Char('/') => DashboardRequest::FilterRecent,
        Key::Char('1') => DashboardRequest::ToggleBox(1),
        Key::Char('2') => DashboardRequest::ToggleBox(2),
        Key::Char('3') => DashboardRequest::ToggleBox(3),
        Key::Char('4') => DashboardRequest::ToggleBox(4),
        Key::Char('5') => DashboardRequest::ToggleBox(5),
        Key::Char('b') | Key::Char('B') | Key::Char('p') | Key::Char('P') => DashboardRequest::ToggleFileBrowser,
        Key::Char('x') => if ctrl {
            DashboardRequest::ToggleFolderMode
        } else {
            DashboardRequest::Nothing
        },
        Key::Char('e') => DashboardRequest::OpenFilters,
        Key::Char('t') => DashboardRequest::NextTheme,
        Key::Char('?') | Key::Char('h') => DashboardRequest::OpenHelp,
        Key::Char('s') => DashboardRequest::ConfirmSync,
        Key::Char('r') => DashboardRequest::ConfirmResync,
        Key::Char('y') => DashboardRequest::CopySelection,
        Key::Char(' ') => DashboardRequest::ToggleFollowLogs,
        Key::Tab => DashboardRequest::NextPanel,
        Key::BackTab => DashboardRequest::PrevPanel,
        Key::Char('+') | Key::Char('=') => DashboardRequest::SlowerTicks,
        Key::Char('-') | Key::Char('_') => DashboardRequest::FasterTicks,
        Key::Up | Key::Char('k') => DashboardRequest::MoveUp,
        Key::Down | Key::Char('j') => DashboardRequest::MoveDown,
        Key::PageUp => DashboardRequest::PageUp,
        Key::PageDown => DashboardRequest::PageDown,
        Key::Home => DashboardRequest::MoveHome,
        Key::End => DashboardRequest::MoveEnd,
        Key::Left => if focused == FocusedPanel::Logs {
            DashboardRequest::PrevLogFilter
        } else {
            DashboardRequest::Nothing
        },
        Key::Right => if focused == FocusedPanel::Logs {
            DashboardRequest::NextLogFilter
        } else {
            DashboardRequest::Nothing
        },
        _ => DashboardRequest::Nothing,
    }
}

/// Reads a key on the dashboard (see `dashboard_request`).
pub fn dashboard_key(key: Key, ctrl: bool, focused: FocusedPanel, folder_mode: bool) -> (r: DashboardRequest)
    ensures
        r == dashboard_request(key, ctrl, focused, folder_mode),
{
    match key {
        Key::Enter => match focused {
            FocusedPanel::History => DashboardRequest::OpenRunDetails,
            FocusedPanel::RecentFiles => DashboardRequest::OpenRecent(ctrl || folder_mode),
            FocusedPanel::Logs => DashboardRequest::Nothing,
        },
        Key::Esc | Key::Char('m') => DashboardRequest::OpenMenu,
        Key::Char('q') => DashboardRequest::Quit,
        Key::Char('c') => if ctrl {
            DashboardRequest::Quit
        } else {
            DashboardRequest::CancelSync
        },
        Key::Char('o') => DashboardRequest::OpenSettings,
        Key::Char('d') => DashboardRequest::ConfirmDryRun,
        Key::Char('f') => if focused == FocusedPanel::Logs {
            DashboardRequest::NextLogFilter
        } else {
            DashboardRequest::FilterRecent
        },
        Key::Char('/') => DashboardRequest::FilterRecent,
        Key::Char('1') => DashboardRequest::ToggleBox(1),
        Key::Char('2') => DashboardRequest::ToggleBox(2),
        Key::Char('3') => DashboardRequest::ToggleBox(3),
        Key::Char('4') => DashboardRequest::ToggleBox(4),
        Key::Char('5') => DashboardRequest::ToggleBox(5),
        Key::Char('b') | Key::Char('B') | Key::Char('p') | Key::Char('P') => DashboardRequest::ToggleFileBrowser,
        Key::Char('x') => if ctrl {
            DashboardRequest::ToggleFolderMode
        } else {
            DashboardRequest::Nothing
        },
        Key::Char('e') => DashboardRequest::OpenFilters,
        Key::Char('t') => DashboardRequest::NextTheme,
        Key::Char('?') | Key::Char('h') => DashboardRequest::OpenHelp,
        Key::Char('s') => DashboardRequest::ConfirmSync,
        Key::Char('r') => DashboardRequest::ConfirmResync,
        Key::Char('y') => DashboardRequest::CopySelection,
        Key::Char(' ') => DashboardRequest::ToggleFollowLogs,
        Key::Tab => DashboardRequest::NextPanel,
        Key::BackTab => DashboardRequest::PrevPanel,
        Key::Char('+') | Key::Char('=') => DashboardRequest::SlowerTicks,
        Key::Char('-') | Key::Char('_') => DashboardRequest::FasterTicks,
        Key::Up | Key::Char('k') => DashboardRequest::MoveUp,
        Key::Down | Key::Char('j') => DashboardRequest::MoveDown,
        Key::PageUp => DashboardRequest::PageUp,
        Key::PageDown => DashboardRequest::PageDown,
        Key::Home => DashboardRequest::MoveHome,
        Key::End => DashboardRequest::MoveEnd,
        Key::Left => if focused == FocusedPanel::Logs {
            DashboardRequest::PrevLogFilter
        } else {
            DashboardRequest::Nothing
        },
        Key::Right => if focused == FocusedPanel::Logs {
            DashboardRequest::NextLogFilter
        } else {
            DashboardRequest::Nothing
        },
        _ => DashboardRequest::Nothing,
    }
}

/// What the history's selection designates: the running synchronisation (shown first while
/// one runs), a past run by its index among the past runs, or nothing.
#[derive(Debug, Clone, Copy, PartialEq, Eq, Structural)]
pub enum RunTarget {
    NoRun,
    ActiveSync,
    Past(usize),
}

/// The run a history row designates: while a synchronisation runs, row 0 is that
/// synchronisation and row `k` the past run `k - 1`; otherwise row `k` is the past run `k`.
/// A row beyond the past runs, or no selection, designates nothing.
pub open spec fn run_target_of(selected: Option<usize>, syncing: bool, past_runs: int) -> RunTarget {
    match selected {
        None => RunTarget::NoRun,
        Some(sel) => if syncing && sel == 0 {
            RunTarget::ActiveSync
        } else {
            let k = if syncing {
                sel - 1
            } else {
                sel as int
            };
            if k < past_runs {
                RunTarget::Past(k as usize)
            } else {
                RunTarget::NoRun
            }
        },
    }
}

/// The run the history's selected row designates (see `run_target_of`).
pub fn run_target(selected: Option<usize>, syncing: bool, past_runs: usize) -> (r: RunTarget)
    ensures
        r == run_target_of(selected, syncing, past_runs as int),
{
    match selected {
        None => RunTarget::NoRun,
        Some(sel) => {
            if syncing && sel == 0 {
                RunTarget::ActiveSync
            } else {
                let k = if syncing {
                    sel - 1
                } else {
                    sel
                };
                if k < past_runs {
                    RunTarget::Past(k)
                } else {
                    RunTarget::NoRun
                }
            }
        },
    }
}

/// A designated past run is one of the past runs, and the running synchronisation is
/// designated only while one runs.
pub proof fn law_run_target_valid(selected: Option<usize>, syncing: bool, past_runs: int)
    ensures
        run_target_of(selected, syncing, past_runs) matches RunTarget::Past(k) ==> 0 <= k
            < past_runs,
        run_target_of(selected, syncing, past_runs) == RunTarget::ActiveSync ==> syncing,
{
}

/// Every row of the history designates something: row 0 the running synchronisation, row
/// `k` the past run `k - 1` while one runs.
pub proof fn law_history_rows_designate_runs(sel: usize, syncing: bool, past_runs: int)
    requires
        sel < past_runs + (if syncing {
            1int
        } else {
            0
        }),
    ensures
        run_target_of(Some(sel), syncing, past_runs) != RunTarget::NoRun,
{
}

/// The past run whose errors `y` copies from the history: the selected row, counted among
/// the past runs (one back while a synchronisation runs, the running one's row counting as the
/// first past run); none without a selection.
pub fn copy_run_index(selected: Option<usize>, syncing: bool) -> (r: Option<usize>)
    ensures
        r == match selected {
            Some(sel) => Some(
                if syncing && sel > 0 {
                    (sel - 1) as usize
                } else if syncing {
                    0usize
                } else {
                    sel
                },
            ),
            None => None::<usize>,
        },
{
    match selected {
        Some(sel) => Some(if syncing {
            sel.saturating_sub(1)
        } else {
            sel
        }),
        None => None,
    }
}

/// Whether the cancel request can be honoured: the service is active or the log shows a
/// synchronisation in progress.
pub fn can_cancel_sync(service_active: bool, live_syncing: bool) -> (r: bool)
    ensures
        r == (service_active || live_syncing),
{
    service_active || live_syncing
}

// ---------------------------------------------------------------------------
// Clicks on list rows
// ---------------------------------------------------------------------------

/// What a click on a row of a list does.
#[derive(Debug, Clone, Copy, PartialEq, Eq, Structural)]
pub enum RowClick {
    /// The row is not one of the list's.
    Ignore,
    /// Select the row.
    Select,
    /// The row was already selected: open it.
    Activate,
}

/// A click on row `idx` of a list of `total` rows whose selection is `selected`: a second
/// click on the selected row opens it, a click on another row selects it.
pub open spec fn row_click_of(idx: usize, selected: Option<usize>, total: int) -> RowClick {
    if idx >= total {
        RowClick::Ignore
    } else if selected == Some(idx) {
        RowClick::Activate
    } else {
        RowClick::Select
    }
}

/// What a click on row `idx` does (see `row_click_of`).
pub fn row_click(idx: usize, selected: Option<usize>, total: usize) -> (r: RowClick)
    ensures
        r == row_click_of(idx, selected, total as int),
{
    if idx >= total {
        RowClick::Ignore
    } else if selected == Some(idx) {
        RowClick::Activate
    } else {
        RowClick::Select
    }
}

/// Clicking twice on a row of the list first selects it, then opens it.
pub proof fn law_double_click_opens(idx: usize, selected: Option<usize>, total: int)
    requires
        idx < total,
    ensures
        row_click_of(idx, selected, total) == RowClick::Select ==> row_click_of(
            idx,
            Some(idx),
            total,
        ) == RowClick::Activate,
{
}

} // verus!

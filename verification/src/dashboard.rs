//! State vocabulary of the dashboard: focus, log filters, dialogs, first-run assistant,
//! clickable areas, alerts and cloud quota.
use vstd::prelude::*;
use crate::text::{chars_of, contains_str, lowercase, seq_contains, to_lower, utf8_len, utf8_len_exec};

verus! {

// ---------------------------------------------------------------------------
// Panel focus
// ---------------------------------------------------------------------------

/// The dashboard panel that has the keyboard focus.
#[derive(Debug, Clone, Copy, PartialEq, Eq, Structural)]
pub enum FocusedPanel {
    History,
    Logs,
    RecentFiles,
}

/// Position of a panel in the focus cycle.
pub open spec fn panel_pos(p: FocusedPanel) -> int {
    match p {
        FocusedPanel::History => 0,
        FocusedPanel::Logs => 1,
        FocusedPanel::RecentFiles => 2,
    }
}

/// The panel at a position of the focus cycle (taken modulo 3).
pub open spec fn panel_at(i: int) -> FocusedPanel {
    let k = i % 3;
    if k == 0 {
        FocusedPanel::History
    } else if k == 1 {
        FocusedPanel::Logs
    } else {
        FocusedPanel::RecentFiles
    }
}

/// Label of a panel.
pub open spec fn panel_label(p: FocusedPanel) -> Seq<char> {
    match p {
        FocusedPanel::History => "Historique"@,
        FocusedPanel::Logs => "Logs"@,
        FocusedPanel::RecentFiles => "Récents"@,
    }
}

impl FocusedPanel {
    /// The following panel in the focus cycle.
    pub fn next(self) -> (r: Self)
        ensures
            r == panel_at(panel_pos(self) + 1),
    {
        match self {
            FocusedPanel::History => FocusedPanel::Logs,
            FocusedPanel::Logs => FocusedPanel::RecentFiles,
            FocusedPanel::RecentFiles => FocusedPanel::History,
        }
    }

    /// The preceding panel in the focus cycle.
    pub fn prev(self) -> (r: Self)
        ensures
            r == panel_at(panel_pos(self) + 2),
    {
        match self {
            FocusedPanel::History => FocusedPanel::RecentFiles,
            FocusedPanel::Logs => FocusedPanel::History,
            FocusedPanel::RecentFiles => FocusedPanel::Logs,
        }
    }

    /// Label of the panel.
    pub fn label(self) -> (r: &'static str)
        ensures
            r@ == panel_label(self),
    {
        match self {
            FocusedPanel::History => "Historique",
            FocusedPanel::Logs => "Logs",
            FocusedPanel::RecentFiles => "Récents",
        }
    }
}

/// Moving the focus back undoes moving it forward, and three moves come back to the start.
pub proof fn law_focus_cycle(p: FocusedPanel)
    ensures
        panel_at(panel_pos(panel_at(panel_pos(p) + 1)) + 2) == p,
        panel_at(panel_pos(panel_at(panel_pos(p) + 2)) + 1) == p,
        panel_at(panel_pos(panel_at(panel_pos(panel_at(panel_pos(p) + 1)) + 1)) + 1) == p,
{
}

// ---------------------------------------------------------------------------
// Log filter
// ---------------------------------------------------------------------------

/// Which log lines the log panel shows.
#[derive(Debug, Clone, Copy, PartialEq, Eq, Structural)]
pub enum LogFilter {
    /// Every line.
    All,
    /// Lines about file operations that went through.
    Files,
    /// Errors and warnings.
    Problems,
}

/// Index of a filter tab.
pub open spec fn filter_index(f: LogFilter) -> usize {
    match f {
        LogFilter::All => 0,
        LogFilter::Files => 1,
        LogFilter::Problems => 2,
    }
}

/// The filter of a tab index (any index but 1 and 2 gives `All`).
pub open spec fn filter_of_index(i: int) -> LogFilter {
    if i == 1 {
        LogFilter::Files
    } else if i == 2 {
        LogFilter::Problems
    } else {
        LogFilter::All
    }
}

/// Label of a filter.
pub open spec fn filter_label(f: LogFilter) -> Seq<char> {
    match f {
        LogFilter::All => "All"@,
        LogFilter::Files => "Files"@,
        LogFilter::Problems => "Problems"@,
    }
}

/// A lower-cased line that reports a file operation.
pub open spec fn file_words(ll: Seq<char>) -> bool {
    ||| seq_contains(ll, "copied"@)
    ||| seq_contains(ll, "moved"@)
    ||| seq_contains(ll, "deleted"@)
    ||| seq_contains(ll, "transferred"@)
    ||| seq_contains(ll, "bisync successful"@)
}

/// A lower-cased line that reports a problem.
pub open spec fn problem_words(ll: Seq<char>) -> bool {
    ||| seq_contains(ll, "error"@)
    ||| seq_contains(ll, "failed"@)
    ||| seq_contains(ll, "fatal"@)
    ||| seq_contains(ll, "errno"@)
    ||| seq_contains(ll, "corrupt"@)
    ||| seq_contains(ll, "warn"@)
    ||| seq_contains(ll, "skipped"@)
    ||| seq_contains(ll, "conflict"@)
}

/// Whether `line` passes filter `f` (words are looked for in the lower-cased line).
pub open spec fn filter_matches(f: LogFilter, line: Seq<char>) -> bool {
    match f {
        LogFilter::All => true,
        LogFilter::Files => file_words(lowercase(line)),
        LogFilter::Problems => problem_words(lowercase(line)),
    }
}

impl LogFilter {
    /// The following filter tab.
    pub fn next(self) -> (r: Self)
        ensures
            r == filter_of_index((filter_index(self) + 1) % 3),
    {
        match self {
            LogFilter::All => LogFilter::Files,
            LogFilter::Files => LogFilter::Problems,
            LogFilter::Problems => LogFilter::All,
        }
    }

    /// The preceding filter tab.
    pub fn prev(self) -> (r: Self)
        ensures
            r == filter_of_index((filter_index(self) + 2) % 3),
    {
        match self {
            LogFilter::All => LogFilter::Problems,
            LogFilter::Files => LogFilter::All,
            LogFilter::Problems => LogFilter::Files,
        }
    }

    /// Label of the filter tab.
    pub fn label(self) -> (r: &'static str)
        ensures
            r@ == filter_label(self),
    {
        match self {
            LogFilter::All => "All",
            LogFilter::Files => "Files",
            LogFilter::Problems => "Problems",
        }
    }

    /// Index of the filter tab (0, 1 or 2).
    pub fn index(self) -> (r: usize)
        ensures
            r == filter_index(self),
    {
        match self {
            LogFilter::All => 0,
            LogFilter::Files => 1,
            LogFilter::Problems => 2,
        }
    }

    /// The filter of a tab index; an unknown index gives `All`.
    pub fn from_index(i: usize) -> (r: Self)
        ensures
            r == filter_of_index(i as int),
    {
        match i {
            1 => LogFilter::Files,
            2 => LogFilter::Problems,
            _ => LogFilter::All,
        }
    }

    /// Whether a log line passes this filter.
    pub fn matches(self, line: &str) -> (r: bool)
        ensures
            r == filter_matches(self, line@),
    {
        match self {
            LogFilter::All => true,
            LogFilter::Files => {
                let ll = to_lower(&chars_of(line));
                contains_str(&ll, "copied") || contains_str(&ll, "moved") || contains_str(
                    &ll,
                    "deleted",
                ) || contains_str(&ll, "transferred") || contains_str(&ll, "bisync successful")
            },
            LogFilter::Problems => {
                let ll = to_lower(&chars_of(line));
                contains_str(&ll, "error") || contains_str(&ll, "failed") || contains_str(
                    &ll,
                    "fatal",
                ) || contains_str(&ll, "errno") || contains_str(&ll, "corrupt") || contains_str(
                    &ll,
                    "warn",
                ) || contains_str(&ll, "skipped") || contains_str(&ll, "conflict")
            },
        }
    }
}

/// Tab indexes and filters correspond one to one, and stepping the tabs back undoes
/// stepping them forward.
pub proof fn law_filter_index(f: LogFilter)
    ensures
        filter_of_index(filter_index(f) as int) == f,
        filter_index(f) < 3,
        filter_of_index((filter_index(filter_of_index((filter_index(f) + 1) % 3)) + 2) % 3) == f,
        filter_of_index((filter_index(filter_of_index((filter_index(f) + 2) % 3)) + 1) % 3) == f,
{
}

/// Every tab index below 3 names a filter whose index it is.
pub proof fn law_index_filter(i: usize)
    requires
        i < 3,
    ensures
        filter_index(filter_of_index(i as int)) == i,
{
}

// ---------------------------------------------------------------------------
// Dialogs and first-run assistant
// ---------------------------------------------------------------------------

/// What the event loop must do after an input event.
#[derive(Debug, Clone, Copy, PartialEq, Eq, Structural)]
pub enum Action {
    /// Nothing to do.
    Nothing,
    OpenEditor,
    OpenFullLogs,
}

/// The dialog shown over the dashboard.
#[derive(Debug, Clone, PartialEq, Eq)]
pub enum Modal {
    /// No dialog is open.
    Closed,
    Menu,
    Settings,
    Files,
    Filters,
    DryRun,
    ConfirmSync,
    ConfirmResync,
    ConfirmCancel,
    ConfirmDryRun,
    ConfirmDelete(String),
    Help,
    HistoryDetails(usize),
    FirstRun(Box<FirstRunState>),
}

/// Steps of the first-run assistant.
#[derive(Debug, Clone, Copy, PartialEq, Eq, Structural)]
pub enum FirstRunStep {
    RcloneCheck,
    GoogleCredentials,
}

/// Whether rclone is installed, as the first-run assistant knows it.
#[derive(Debug, Clone, PartialEq, Eq)]
pub enum RcloneInstallStatus {
    NotInstalled,
    Installing,
    /// Installed, with its version.
    Installed(String),
    /// Installation failed, with the reason.
    Failed(String),
}

/// The focused control of the first-run assistant.
#[derive(Debug, Clone, Copy, PartialEq, Eq, Structural)]
pub enum FirstRunField {
    InstallRcloneButton,
    ContinueButton,
    SkipRcloneButton,
    ClientIdInput,
    ClientSecretInput,
    SaveCredentialsButton,
    SkipCredentialsButton,
    ToggleHelpButton,
}

/// State of the first-run assistant.
#[derive(Debug, Clone, PartialEq, Eq)]
pub struct FirstRunState {
    pub step: FirstRunStep,
    pub rclone_status: RcloneInstallStatus,
    pub client_id: String,
    pub client_secret: String,
    pub active_field: FirstRunField,
    pub show_help: bool,
    /// Cursor in `client_id`, in bytes.
    pub client_id_cursor: usize,
    /// Cursor in `client_secret`, in bytes.
    pub client_secret_cursor: usize,
}

/// The view of an optional string, with `""` for none.
pub open spec fn or_empty(o: Option<String>) -> Seq<char> {
    match o {
        Some(s) => s@,
        None => Seq::empty(),
    }
}

impl FirstRunState {
    /// The assistant as it opens: at the rclone check, on `Continue` when rclone is installed
    /// (`rclone_version`), on `Install` otherwise; the credential fields hold the credentials
    /// already configured for the remote, with the cursors at their ends.
    pub fn new(
        rclone_version: Option<String>,
        existing_id: Option<String>,
        existing_secret: Option<String>,
    ) -> (r: Self)
        requires
            utf8_len(or_empty(existing_id)) <= usize::MAX,
            utf8_len(or_empty(existing_secret)) <= usize::MAX,
        ensures
            r.step == FirstRunStep::RcloneCheck,
            match rclone_version {
                Some(v) => r.rclone_status == RcloneInstallStatus::Installed(v) && r.active_field
                    == FirstRunField::ContinueButton,
                None => r.rclone_status == RcloneInstallStatus::NotInstalled && r.active_field
                    == FirstRunField::InstallRcloneButton,
            },
            r.client_id@ == or_empty(existing_id),
            r.client_secret@ == or_empty(existing_secret),
            !r.show_help,
            r.client_id_cursor == utf8_len(r.client_id@),
            r.client_secret_cursor == utf8_len(r.client_secret@),
    {
        let (status, field) = match rclone_version {
            Some(ver) => (RcloneInstallStatus::Installed(ver), FirstRunField::ContinueButton),
            None => (RcloneInstallStatus::NotInstalled, FirstRunField::InstallRcloneButton),
        };
        let client_id = match existing_id {
            Some(s) => s,
            None => String::new(),
        };
        let client_secret = match existing_secret {
            Some(s) => s,
            None => String::new(),
        };
        let client_id_cursor = utf8_len_exec(client_id.as_str());
        let client_secret_cursor = utf8_len_exec(client_secret.as_str());
        FirstRunState {
            step: FirstRunStep::RcloneCheck,
            rclone_status: status,
            client_id,
            client_secret,
            active_field: field,
            show_help: false,
            client_id_cursor,
            client_secret_cursor,
        }
    }
}

/// Inline text editing within the settings or filter dialogs.
#[derive(Debug, Clone, PartialEq, Eq)]
pub enum EditState {
    /// No editing is active.
    Idle,
    /// Editing a setting value (tab and index name the setting; the cursor counts characters).
    Setting { tab: usize, index: usize, buffer: String, cursor: usize },
    /// Editing an existing filter rule.
    Filter { index: usize, buffer: String },
    /// Adding a new filter rule.
    AddingFilter { buffer: String },
}

/// The text being typed, `""` when none.
pub open spec fn edit_text(e: EditState) -> Seq<char> {
    match e {
        EditState::Setting { buffer, .. } => buffer@,
        EditState::Filter { buffer, .. } => buffer@,
        EditState::AddingFilter { buffer } => buffer@,
        EditState::Idle => Seq::empty(),
    }
}

impl EditState {
    /// Whether a setting is being typed.
    pub fn is_editing_setting(&self) -> (r: bool)
        ensures
            r == (*self is Setting),
    {
        match self {
            EditState::Setting { .. } => true,
            _ => false,
        }
    }

    /// Whether a filter rule is being typed (an existing one or a new one).
    pub fn is_editing_filter(&self) -> (r: bool)
        ensures
            r == (*self is Filter || *self is AddingFilter),
    {
        match self {
            EditState::Filter { .. } | EditState::AddingFilter { .. } => true,
            _ => false,
        }
    }

    /// Whether a new filter rule is being typed.
    pub fn is_adding_filter(&self) -> (r: bool)
        ensures
            r == (*self is AddingFilter),
    {
        match self {
            EditState::AddingFilter { .. } => true,
            _ => false,
        }
    }

    /// The text being typed (see `edit_text`).
    pub fn edit_buffer(&self) -> (r: &str)
        ensures
            r@ == edit_text(*self),
    {
        match self {
            EditState::Setting { buffer, .. } => buffer.as_str(),
            EditState::Filter { buffer, .. } => buffer.as_str(),
            EditState::AddingFilter { buffer } => buffer.as_str(),
            EditState::Idle => {
                proof {
                    reveal_strlit("");
                }
                ""
            },
        }
    }

    /// The cursor in the text being typed, in characters: the setting's own cursor, the end of
    /// the text for a rule (rules are typed at their end).
    pub fn edit_cursor(&self) -> (r: usize)
        ensures
            r == match *self {
                EditState::Setting { cursor, .. } => cursor as int,
                _ => edit_text(*self).len() as int,
            },
    {
        match self {
            EditState::Setting { cursor, .. } => *cursor,
            EditState::Filter { buffer, .. } => chars_of(buffer.as_str()).len(),
            EditState::AddingFilter { buffer } => chars_of(buffer.as_str()).len(),
            EditState::Idle => 0,
        }
    }
}

// ---------------------------------------------------------------------------
// Clickable areas
// ---------------------------------------------------------------------------

/// A scrollable list that owns a scrollbar.
#[derive(Debug, Clone, Copy, PartialEq, Eq, Structural)]
pub enum ScrollbarTarget {
    Logs,
    History,
    RecentFiles,
    HistoryDetails(usize),
    Files,
    Filters,
    DryRun,
}

/// What a click on a registered area does.
#[derive(Debug, Clone, Copy, PartialEq, Eq, Structural)]
pub enum HitAction {
    ButtonSync,
    ButtonCancel,
    ButtonDryRun,
    ButtonFiles,
    ButtonFilters,
    ButtonPanel,
    StatsIntervalDec,
    StatsIntervalInc,
    ToggleCtrlMode,
    HistoryRow(usize),
    HistoryFile(usize),
    RecentFile(usize),
    RecentFilterFocus,
    LogsArea,
    HistoryArea,
    RecentFilesArea,
    SettingOption(usize),
    SettingCycle(usize, bool),
    SettingsTab(usize),
    CloseModal,
    MenuOption(usize),
    FileEntry(usize),
    ToggleLogsAuto,
    LogFilterPrev,
    LogFilterNext,
    LogFilterCycle,
    ButtonCopy,
    FilterArea,
    FilterRow(usize),
    FilterCycleType(usize),
    FilterStartEdit,
    FilterAdd,
    FilterDelete(usize),
    FilterOpenEditor,
    FirstRunInstall,
    FirstRunContinue,
    FirstRunSkipRclone,
    FirstRunClientId,
    FirstRunClientSecret,
    FirstRunSaveCredentials,
    FirstRunSkipCredentials,
    FirstRunToggleHelp,
    ToggleBox(usize),
    ScrollbarArrowUp(ScrollbarTarget),
    ScrollbarArrowDown(ScrollbarTarget),
    ScrollbarTrack {
        target: ScrollbarTarget,
        top_y: u16,
        track_height: u16,
        total: usize,
        visible: usize,
    },
}

// ---------------------------------------------------------------------------
// Alerts and quota
// ---------------------------------------------------------------------------

/// Severity of an alert.
#[derive(Debug, Clone, Copy, PartialEq, Eq, Structural)]
pub enum AlertLevel {
    Error,
    Warning,
}

/// An alert shown on the dashboard, with an optional hint on what to do.
#[derive(Debug, Clone)]
pub struct Alert {
    pub level: AlertLevel,
    pub message: String,
    pub hint: Option<String>,
}

/// Cloud storage quota, in bytes.
#[derive(Debug, Clone, Copy, PartialEq, Eq, Structural)]
pub struct CloudQuota {
    pub total_bytes: u64,
    pub used_bytes: u64,
    pub free_bytes: u64,
}

impl CloudQuota {
    /// The quota from the figures `rclone about` reports; none when it reports no total (the
    /// remote did not say).
    pub fn from_about(total: u64, used: u64, free: u64) -> (r: Option<CloudQuota>)
        ensures
            total > 0 ==> r == Some(CloudQuota { total_bytes: total, used_bytes: used, free_bytes: free }),
            total == 0 ==> r is None,
    {
        if total > 0 {
            Some(CloudQuota { total_bytes: total, used_bytes: used, free_bytes: free })
        } else {
            None
        }
    }
}

impl Default for CloudQuota {
    fn default() -> (r: Self)
        ensures
            r.total_bytes == 0 && r.used_bytes == 0 && r.free_bytes == 0,
    {
        CloudQuota { total_bytes: 0, used_bytes: 0, free_bytes: 0 }
    }
}

} // verus!

verus! {

impl FirstRunState {
    /// Takes the outcome of an rclone installation: installed with its version (focus on
    /// `Continue`), or failed with the reason (focus back on `Install`).
    pub fn apply_install_result(&mut self, result: Result<String, String>)
        ensures
            match result {
                Ok(v) => final(self).rclone_status == RcloneInstallStatus::Installed(v)
                    && final(self).active_field == FirstRunField::ContinueButton,
                Err(e) => final(self).rclone_status == RcloneInstallStatus::Failed(e)
                    && final(self).active_field == FirstRunField::InstallRcloneButton,
            },
            final(self).step == old(self).step,
            final(self).client_id == old(self).client_id,
            final(self).client_secret == old(self).client_secret,
            final(self).show_help == old(self).show_help,
            final(self).client_id_cursor == old(self).client_id_cursor,
            final(self).client_secret_cursor == old(self).client_secret_cursor,
    {
        match result {
            Ok(v) => {
                self.rclone_status = RcloneInstallStatus::Installed(v);
                self.active_field = FirstRunField::ContinueButton;
            },
            Err(e) => {
                self.rclone_status = RcloneInstallStatus::Failed(e);
                self.active_field = FirstRunField::InstallRcloneButton;
            },
        }
    }
}

} // verus!

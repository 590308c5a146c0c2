//! The settings dialog: moving among the settings, and editing the ones typed as text.
use vstd::prelude::*;
use crate::config::{AppConfig, opt_view};
use crate::dashboard::EditState;
use crate::dialog_keys::sat_minus;
use crate::line_edit::{Key, clean_clip, clean_clipboard_text, edit_line, edited, paste_line, pasted};
use crate::settings::{SettingId, full_sync_label, full_sync_table, lookup_label, setting_at, tick_label};
use crate::appearance::{border_name, graph_name, layout_name, mid_order_name};
use crate::numparse::decimal_exec;
use crate::text::{append_str, chars_of, seq_eq, string_from, string_of, trim, trim_string};

verus! {

/// How a setting is changed.
#[derive(Debug, Clone, Copy, PartialEq, Eq, Structural)]
pub enum SettingKind {
    /// A value typed as text.
    TextInput,
    /// A command run from the dialog.
    Action,
    /// A value cycled through its choices.
    Cycle,
}

/// How each setting is changed: the local directory, the remote and the Google credentials are
/// typed, the full resynchronisation and the log journal are commands, the others cycle.
pub open spec fn kind_of(s: SettingId) -> SettingKind {
    match s {
        SettingId::LocalDirectory | SettingId::RemoteStorage | SettingId::GoogleClientId
        | SettingId::GoogleClientSecret => SettingKind::TextInput,
        SettingId::ResyncAction | SettingId::LogJournalAction => SettingKind::Action,
        _ => SettingKind::Cycle,
    }
}

impl SettingId {
    /// How the setting is changed (see `kind_of`).
    pub fn kind(&self) -> (r: SettingKind)
        ensures
            r == kind_of(*self),
    {
        match self {
            SettingId::LocalDirectory | SettingId::RemoteStorage | SettingId::GoogleClientId
            | SettingId::GoogleClientSecret => SettingKind::TextInput,
            SettingId::ResyncAction | SettingId::LogJournalAction => SettingKind::Action,
            _ => SettingKind::Cycle,
        }
    }

    /// Whether the setting is typed as text.
    pub fn is_text_input(&self) -> (r: bool)
        ensures
            r == (kind_of(*self) == SettingKind::TextInput),
    {
        self.kind() == SettingKind::TextInput
    }

    /// Whether the setting cycles through choices.
    pub fn is_cycle(&self) -> (r: bool)
        ensures
            r == (kind_of(*self) == SettingKind::Cycle),
    {
        self.kind() == SettingKind::Cycle
    }
}

/// Number of settings on tab `tab` (7 on the first, 6 on the other).
pub fn settings_items_count(tab: usize) -> (r: usize)
    ensures
        r == (if tab == 0 { 10usize } else { 6usize }),
{
    SettingId::tab_count(tab)
}

/// Selects the previous setting of the tab, if any.
pub fn scroll_settings_up(selected: &mut usize)
    ensures
        *final(selected) == if *old(selected) > 0 {
            *old(selected) - 1
        } else {
            *old(selected) as int
        },
{
    if *selected > 0 {
        *selected = *selected - 1;
    }
}

/// Selects the next setting of tab `tab`, if any.
pub fn scroll_settings_down(selected: &mut usize, tab: usize)
    ensures
        *final(selected) == if *old(selected) + 1 < settings_count(tab as int) {
            *old(selected) + 1
        } else {
            *old(selected) as int
        },
{
    let total = settings_items_count(tab);
    if *selected < total - 1 {
        *selected = *selected + 1;
    }
}

/// Number of settings on tab `tab`.
pub open spec fn settings_count(tab: int) -> int {
    if tab == 0 {
        10
    } else {
        6
    }
}

// ---------------------------------------------------------------------------
// Moving among the settings
// ---------------------------------------------------------------------------

/// What the settings dialog asks after a key press (outside text editing).
#[derive(Debug, Clone, Copy, PartialEq, Eq, Structural)]
pub enum SettingsRequest {
    Stay,
    Close,
    /// Start typing the selected setting.
    StartEditing,
    /// Open the full rclone log journal.
    OpenFullLogs,
    /// Ask to confirm a full resynchronisation.
    ConfirmResync,
    /// Move the selected setting to its next choice.
    CycleForward,
    /// Move the selected setting to its previous choice.
    CycleBackward,
}

/// What activating a setting asks: typing it, running its command, or cycling it (forward or
/// backward).
pub open spec fn activate(s: SettingId, forward: bool) -> SettingsRequest {
    match kind_of(s) {
        SettingKind::TextInput => SettingsRequest::StartEditing,
        SettingKind::Action => if s == SettingId::LogJournalAction {
            SettingsRequest::OpenFullLogs
        } else if s == SettingId::ResyncAction {
            SettingsRequest::ConfirmResync
        } else {
            SettingsRequest::Stay
        },
        SettingKind::Cycle => if forward {
            SettingsRequest::CycleForward
        } else {
            SettingsRequest::CycleBackward
        },
    }
}

/// The tab, selected row and request after a key in the settings dialog: Tab switches tabs,
/// `1` and `2` choose one (both back to the first row when the tab changes), the arrows and
/// `k`/`j` move within the tab, Enter and Right/`l` activate the selected setting (cycling
/// forward), Left/`h` too (cycling backward), `e` and Space start typing or cycle forward,
/// Esc closes the dialog.
pub open spec fn settings_after(tab: int, sel: int, key: Key) -> (int, int, SettingsRequest) {
    let here = setting_at(tab, sel);
    match key {
        Key::Esc => (tab, sel, SettingsRequest::Close),
        Key::Tab | Key::BackTab => (if tab == 0 {
            1
        } else {
            0
        }, 0, SettingsRequest::Stay),
        Key::Char('1') => if tab != 0 {
            (0, 0, SettingsRequest::Stay)
        } else {
            (tab, sel, SettingsRequest::Stay)
        },
        Key::Char('2') => if tab != 1 {
            (1, 0, SettingsRequest::Stay)
        } else {
            (tab, sel, SettingsRequest::Stay)
        },
        Key::Up | Key::Char('k') => (tab, if sel > 0 {
            sel - 1
        } else {
            sel
        }, SettingsRequest::Stay),
        Key::Down | Key::Char('j') => (tab, if sel < sat_minus(settings_count(tab), 1) {
            sel + 1
        } else {
            sel
        }, SettingsRequest::Stay),
        Key::Enter | Key::Right | Key::Char('l') => (tab, sel, match here {
            Some(s) => activate(s, true),
            None => SettingsRequest::Stay,
        }),
        Key::Left | Key::Char('h') => (tab, sel, match here {
            Some(s) => activate(s, false),
            None => SettingsRequest::Stay,
        }),
        Key::Char('e') | Key::Char(' ') => (tab, sel, match here {
            Some(s) => if kind_of(s) == SettingKind::TextInput {
                SettingsRequest::StartEditing
            } else if kind_of(s) == SettingKind::Cycle {
                SettingsRequest::CycleForward
            } else {
                SettingsRequest::Stay
            },
            None => SettingsRequest::Stay,
        }),
        _ => (tab, sel, SettingsRequest::Stay),
    }
}

fn activate_exec(s: SettingId, forward: bool) -> (r: SettingsRequest)
    ensures
        r == activate(s, forward),
{
    match s.kind() {
        SettingKind::TextInput => SettingsRequest::StartEditing,
        SettingKind::Action => {
            if s == SettingId::LogJournalAction {
                SettingsRequest::OpenFullLogs
            } else if s == SettingId::ResyncAction {
                SettingsRequest::ConfirmResync
            } else {
                SettingsRequest::Stay
            }
        },
        SettingKind::Cycle => if forward {
            SettingsRequest::CycleForward
        } else {
            SettingsRequest::CycleBackward
        },
    }
}

/// Handles a key in the settings dialog outside text editing (see `settings_after`).
pub fn settings_key(tab: usize, sel: usize, key: Key) -> (r: (usize, usize, SettingsRequest))
    ensures
        (r.0 as int, r.1 as int, r.2) == settings_after(tab as int, sel as int, key),
{
    let here = SettingId::from_tab_and_idx(tab, sel);
    match key {
        Key::Esc => (tab, sel, SettingsRequest::Close),
        Key::Tab | Key::BackTab => (if tab == 0 {
            1
        } else {
            0
        }, 0, SettingsRequest::Stay),
        Key::Char('1') => if tab != 0 {
            (0, 0, SettingsRequest::Stay)
        } else {
            (tab, sel, SettingsRequest::Stay)
        },
        Key::Char('2') => if tab != 1 {
            (1, 0, SettingsRequest::Stay)
        } else {
            (tab, sel, SettingsRequest::Stay)
        },
        Key::Up | Key::Char('k') => (tab, if sel > 0 {
            sel - 1
        } else {
            sel
        }, SettingsRequest::Stay),
        Key::Down | Key::Char('j') => {
            let count = settings_items_count(tab);
            (tab, if sel < count.saturating_sub(1) {
                sel + 1
            } else {
                sel
            }, SettingsRequest::Stay)
        },
        Key::Enter | Key::Right | Key::Char('l') => (tab, sel, match here {
            Some(s) => activate_exec(s, true),
            None => SettingsRequest::Stay,
        }),
        Key::Left | Key::Char('h') => (tab, sel, match here {
            Some(s) => activate_exec(s, false),
            None => SettingsRequest::Stay,
        }),
        Key::Char('e') | Key::Char(' ') => (tab, sel, match here {
            Some(s) => if s.is_text_input() {
                SettingsRequest::StartEditing
            } else if s.is_cycle() {
                SettingsRequest::CycleForward
            } else {
                SettingsRequest::Stay
            },
            None => SettingsRequest::Stay,
        }),
        _ => (tab, sel, SettingsRequest::Stay),
    }
}

// ---------------------------------------------------------------------------
// Typing a setting
// ---------------------------------------------------------------------------

/// Whether a setting is one of the Google Drive credentials stored in rclone's configuration.
pub open spec fn is_credential(s: SettingId) -> bool {
    s == SettingId::GoogleClientId || s == SettingId::GoogleClientSecret
}

/// The stored value of a credential setting (`id` and `secret`: the client id and secret found
/// in rclone's configuration for the remote).
pub open spec fn stored_credential(s: SettingId, id: Option<Seq<char>>, secret: Option<Seq<char>>) -> Option<Seq<char>> {
    if s == SettingId::GoogleClientId {
        id
    } else {
        secret
    }
}

/// The text, `""` for none.
pub open spec fn text_or_empty(o: Option<Seq<char>>) -> Seq<char> {
    match o {
        Some(t) => t,
        None => Seq::empty(),
    }
}

/// The text a typed setting starts from: its current value (`id` and `secret`: the stored
/// Google credentials, empty when there are none).
pub open spec fn text_value(c: AppConfig, s: SettingId, id: Option<Seq<char>>, secret: Option<Seq<char>>) -> Seq<char> {
    if s == SettingId::LocalDirectory {
        c.local_dir@
    } else if s == SettingId::RemoteStorage {
        c.remote@
    } else if is_credential(s) {
        text_or_empty(stored_credential(s, id, secret))
    } else {
        Seq::empty()
    }
}

fn text_or_empty_exec(o: &Option<String>) -> (r: String)
    ensures
        r@ == text_or_empty(opt_view(*o)),
{
    match o {
        Some(t) => t.clone(),
        None => String::new(),
    }
}

/// Starts typing the setting at row `idx` of tab `tab` when it is typed as text: the field
/// holds its current value with the cursor at the end (`stored_id` and `stored_secret`: the
/// Google credentials found in rclone's configuration). `None` (nothing to edit) otherwise.
pub fn start_editing_setting(
    tab: usize,
    idx: usize,
    config: &AppConfig,
    stored_id: &Option<String>,
    stored_secret: &Option<String>,
) -> (r: Option<EditState>)
    ensures
        match setting_at(tab as int, idx as int) {
            Some(s) if kind_of(s) == SettingKind::TextInput => r matches Some(
                EditState::Setting { tab: t, index: i, buffer: b, cursor: c },
            ) && t == tab && i == idx && b@ == text_value(
                *config,
                s,
                opt_view(*stored_id),
                opt_view(*stored_secret),
            ) && c == b@.len(),
            _ => r is None,
        },
{
    let setting = match SettingId::from_tab_and_idx(tab, idx) {
        Some(s) => s,
        None => {
            return None;
        },
    };
    if !setting.is_text_input() {
        return None;
    }
    let buffer = if setting == SettingId::LocalDirectory {
        config.local_dir.clone()
    } else if setting == SettingId::RemoteStorage {
        config.remote.clone()
    } else if setting == SettingId::GoogleClientId {
        text_or_empty_exec(stored_id)
    } else {
        text_or_empty_exec(stored_secret)
    };
    let cursor = chars_of(buffer.as_str()).len();
    Some(EditState::Setting { tab, index: idx, buffer, cursor })
}

/// What a key asks while a setting is typed.
#[derive(Debug, Clone, Copy, PartialEq, Eq, Structural)]
pub enum SettingEditOutcome {
    /// Typing goes on.
    Editing,
    /// Keep the typed value.
    Commit,
    /// Drop the typed value.
    Cancel,
}

/// The typed text and cursor after a key: Ctrl+V pastes the cleaned clipboard `clip`, Enter
/// and Esc end the typing, the editing keys edit the text (characters typed with Control
/// held are ignored).
pub open spec fn setting_edit_after(
    text: Seq<char>,
    cursor: int,
    key: Key,
    ctrl: bool,
    clip: Option<Seq<char>>,
) -> (Seq<char>, int) {
    if ctrl && key == Key::Char('v') {
        match clip {
            Some(p) => pasted(text, cursor, clean_clip(p)),
            None => (text, cursor),
        }
    } else {
        match key {
            Key::Left | Key::Right | Key::Home | Key::End | Key::Backspace | Key::Delete => edited(
                text,
                cursor,
                key,
            ),
            Key::Char(_) => if ctrl {
                (text, cursor)
            } else {
                edited(text, cursor, key)
            },
            _ => (text, cursor),
        }
    }
}

/// Handles a key while a setting is typed (see `setting_edit_after`); `clip` is the
/// clipboard text, read by the caller for Ctrl+V.
pub fn setting_edit_key(
    buffer: &mut String,
    cursor: &mut usize,
    key: Key,
    ctrl: bool,
    clip: Option<String>,
) -> (r: SettingEditOutcome)
    ensures
        r == (if !(ctrl && key == Key::Char('v')) && key == Key::Enter {
            SettingEditOutcome::Commit
        } else if !(ctrl && key == Key::Char('v')) && key == Key::Esc {
            SettingEditOutcome::Cancel
        } else {
            SettingEditOutcome::Editing
        }),
        (final(buffer)@, *final(cursor) as int) == setting_edit_after(
            old(buffer)@,
            *old(cursor) as int,
            key,
            ctrl,
            crate::config::opt_view(clip),
        ),
{
    if ctrl && key == Key::Char('v') {
        if let Some(p) = clip {
            let clean = clean_clipboard_text(p.as_str());
            paste_line(buffer, cursor, clean.as_str());
        }
        return SettingEditOutcome::Editing;
    }
    match key {
        Key::Esc => SettingEditOutcome::Cancel,
        Key::Enter => SettingEditOutcome::Commit,
        Key::Left | Key::Right | Key::Home | Key::End | Key::Backspace | Key::Delete => {
            edit_line(buffer, cursor, key);
            SettingEditOutcome::Editing
        },
        Key::Char(_) => {
            if !ctrl {
                edit_line(buffer, cursor, key);
            }
            SettingEditOutcome::Editing
        },
        _ => SettingEditOutcome::Editing,
    }
}

/// The outcome of keeping a typed setting.
#[derive(Debug, Clone, PartialEq, Eq)]
pub enum SettingCommit {
    /// No setting was being typed; nothing changed.
    NotEditing,
    /// The typing ended without a value to take (no such setting, or not a typed one).
    Ended,
    /// The setting took the new value.
    Changed(SettingId),
    /// The value typed is the current one.
    Kept(SettingId),
    /// The value typed is empty: the current one stays.
    EmptyKept(SettingId),
    /// A Google credential changed: write this client id and client secret to rclone's
    /// configuration for the remote.
    WriteCredentials(SettingId, String, String),
}

/// Keeps a typed setting: the trimmed text becomes the local directory or the remote when it
/// is not empty and differs from the current value; a Google credential that differs from the
/// stored one (`stored_id`, `stored_secret`) is to be written with the other one kept. The
/// typing then ends.
pub fn commit_setting_edit(
    edit: &mut EditState,
    config: &mut AppConfig,
    stored_id: &Option<String>,
    stored_secret: &Option<String>,
) -> (r: SettingCommit)
    ensures
        match *old(edit) {
            EditState::Setting { tab, index, buffer, .. } => {
                &&& *final(edit) == EditState::Idle
                &&& final(config).remote_storage_and_dir_only_change(*old(config))
                &&& match setting_at(tab as int, index as int) {
                    Some(s) if is_credential(s) => {
                        let t = trim(buffer@);
                        &&& *final(config) == *old(config)
                        &&& if stored_credential(s, opt_view(*stored_id), opt_view(*stored_secret))
                            == Some(t) {
                            r == SettingCommit::Kept(s)
                        } else {
                            r matches SettingCommit::WriteCredentials(x, id, secret) && x == s && (
                            if s == SettingId::GoogleClientId {
                                id@ == t && secret@ == text_or_empty(opt_view(*stored_secret))
                            } else {
                                id@ == text_or_empty(opt_view(*stored_id)) && secret@ == t
                            })
                        }
                    },
                    Some(s) if kind_of(s) == SettingKind::TextInput => {
                        let t = trim(buffer@);
                        if t.len() == 0 {
                            r == SettingCommit::EmptyKept(s) && *final(config) == *old(config)
                        } else if t == text_value(*old(config), s, None, None) {
                            r == SettingCommit::Kept(s) && *final(config) == *old(config)
                        } else {
                            &&& r == SettingCommit::Changed(s)
                            &&& text_value(*final(config), s, None, None) == t
                            &&& (s == SettingId::LocalDirectory ==> final(config).remote
                                == old(config).remote)
                            &&& (s == SettingId::RemoteStorage ==> final(config).local_dir
                                == old(config).local_dir)
                        }
                    },
                    _ => r == SettingCommit::Ended && *final(config) == *old(config),
                }
            },
            _ => r == SettingCommit::NotEditing && *final(edit) == *old(edit) && *final(config)
                == *old(config),
        },
{
    let (tab, idx, trimmed) = match &*edit {
        EditState::Setting { tab, index, buffer, .. } => (*tab, *index, trim_string(buffer.as_str())),
        _ => {
            return SettingCommit::NotEditing;
        },
    };
    *edit = EditState::Idle;
    let setting = match SettingId::from_tab_and_idx(tab, idx) {
        Some(s) => s,
        None => {
            return SettingCommit::Ended;
        },
    };
    if !setting.is_text_input() {
        return SettingCommit::Ended;
    }
    let t = chars_of(trimmed.as_str());
    if setting == SettingId::GoogleClientId || setting == SettingId::GoogleClientSecret {
        let stored = if setting == SettingId::GoogleClientId {
            stored_id
        } else {
            stored_secret
        };
        let same = match stored {
            Some(v) => seq_eq(&chars_of(v.as_str()), &t),
            None => false,
        };
        if same {
            return SettingCommit::Kept(setting);
        }
        if setting == SettingId::GoogleClientId {
            return SettingCommit::WriteCredentials(setting, trimmed, text_or_empty_exec(stored_secret));
        } else {
            return SettingCommit::WriteCredentials(setting, text_or_empty_exec(stored_id), trimmed);
        }
    }
    if t.len() == 0 {
        return SettingCommit::EmptyKept(setting);
    }
    if setting == SettingId::LocalDirectory {
        if seq_eq(&chars_of(config.local_dir.as_str()), &t) {
            SettingCommit::Kept(setting)
        } else {
            config.local_dir = trimmed;
            SettingCommit::Changed(setting)
        }
    } else {
        if seq_eq(&chars_of(config.remote.as_str()), &t) {
            SettingCommit::Kept(setting)
        } else {
            config.remote = trimmed;
            SettingCommit::Changed(setting)
        }
    }
}

impl AppConfig {
    /// Whether `self` differs from `before` at most in the remote and the local directory.
    pub open spec fn remote_storage_and_dir_only_change(self, before: AppConfig) -> bool {
        &&& self.timer_interval == before.timer_interval
        &&& self.full_sync_interval == before.full_sync_interval
        &&& self.bwlimit == before.bwlimit
        &&& self.theme == before.theme
        &&& self.tick_rate_ms == before.tick_rate_ms
        &&& self.stats_interval == before.stats_interval
        &&& self.container_layout == before.container_layout
        &&& self.mid_panel_order == before.mid_panel_order
        &&& self.border_style == before.border_style
        &&& self.graph_style == before.graph_style
    }
}

// ---------------------------------------------------------------------------
// Shown values
// ---------------------------------------------------------------------------

/// The tick rate used when none is configured, in milliseconds.
pub open spec fn default_tick_ms() -> u64 {
    250
}

/// The first sixteen characters of `s` (all of them when it is shorter).
pub open spec fn first16(s: Seq<char>) -> Seq<char> {
    if s.len() <= 16 {
        s
    } else {
        s.take(16)
    }
}

/// How the stored client id shows: its first sixteen characters and an ellipsis, `(not set)`
/// when there is none or it is empty.
pub open spec fn client_id_text(id: Option<Seq<char>>) -> Seq<char> {
    match id {
        Some(t) => if t.len() > 0 {
            first16(t) + "…"@
        } else {
            "(not set)"@
        },
        None => "(not set)"@,
    }
}

/// How the stored client secret shows: masked, `(not set)` when there is none or it is empty.
pub open spec fn client_secret_text(secret: Option<Seq<char>>) -> Seq<char> {
    match secret {
        Some(t) => if t.len() > 0 {
            "••••••••••••"@
        } else {
            "(not set)"@
        },
        None => "(not set)"@,
    }
}

/// The value a setting shows in the dialog (`theme`: the name of the active theme; `id` and
/// `secret`: the stored Google credentials): the paused timer as `Never (Paused)`, the
/// full-sync interval by its label, no bandwidth limit as `Disabled`, the commands by what
/// they do, the tick rate in milliseconds, the credentials shortened or masked, the others as
/// configured.
pub open spec fn value_text(
    c: AppConfig,
    s: SettingId,
    theme: Seq<char>,
    id: Option<Seq<char>>,
    secret: Option<Seq<char>>,
) -> Seq<char> {
    match s {
        SettingId::GoogleClientId => client_id_text(id),
        SettingId::GoogleClientSecret => client_secret_text(secret),
        SettingId::TimerInterval => if c.timer_interval@ == "never"@ {
            "Never (Paused)"@
        } else {
            c.timer_interval@
        },
        SettingId::CloudSafetyNet => lookup_label(full_sync_table(), c.full_sync_interval@),
        SettingId::BandwidthLimit => match c.bwlimit {
            Some(b) => b@,
            None => "Disabled"@,
        },
        SettingId::StatsInterval => c.stats_interval@,
        SettingId::LocalDirectory => c.local_dir@,
        SettingId::RemoteStorage => c.remote@,
        SettingId::ResyncAction => "Run (--resync)"@,
        SettingId::LogJournalAction => "Open logs"@,
        SettingId::ColorTheme => theme,
        SettingId::ContainerLayout => layout_name(c.container_layout),
        SettingId::MidPanelOrder => mid_order_name(c.mid_panel_order),
        SettingId::BorderStyle => border_name(c.border_style),
        SettingId::GraphStyle => graph_name(c.graph_style),
        SettingId::TickRate => tick_label(
            match c.tick_rate_ms {
                Some(ms) => ms,
                None => default_tick_ms(),
            },
        ),
    }
}

/// The value `setting` shows in the dialog (see `value_text`).
pub fn setting_value(
    config: &AppConfig,
    setting: SettingId,
    theme: &str,
    stored_id: &Option<String>,
    stored_secret: &Option<String>,
) -> (r: String)
    ensures
        r@ == value_text(*config, setting, theme@, opt_view(*stored_id), opt_view(*stored_secret)),
{
    match setting {
        SettingId::GoogleClientId => match stored_id {
            Some(id) => {
                let c = chars_of(id.as_str());
                if c.len() > 0 {
                    let n: usize = if c.len() <= 16 {
                        c.len()
                    } else {
                        16
                    };
                    let mut v: Vec<char> = Vec::new();
                    let mut k: usize = 0;
                    while k < n
                        invariant
                            k <= n <= c.len(),
                            v@ == c@.take(k as int),
                        decreases n - k,
                    {
                        v.push(c[k]);
                        assert(c@.take(k + 1) =~= c@.take(k as int).push(c@[k as int]));
                        k = k + 1;
                    }
                    assert(c@.take(n as int) =~= first16(c@));
                    append_str(&mut v, "…");
                    string_of(&v)
                } else {
                    string_from("(not set)")
                }
            },
            None => string_from("(not set)"),
        },
        SettingId::GoogleClientSecret => match stored_secret {
            Some(sec) => {
                if chars_of(sec.as_str()).len() > 0 {
                    string_from("••••••••••••")
                } else {
                    string_from("(not set)")
                }
            },
            None => string_from("(not set)"),
        },
        SettingId::TimerInterval => {
            if seq_eq(&chars_of(config.timer_interval.as_str()), &chars_of("never")) {
                string_from("Never (Paused)")
            } else {
                config.timer_interval.clone()
            }
        },
        SettingId::CloudSafetyNet => string_from(full_sync_label(config.full_sync_interval.as_str())),
        SettingId::BandwidthLimit => match &config.bwlimit {
            Some(b) => b.clone(),
            None => string_from("Disabled"),
        },
        SettingId::StatsInterval => config.stats_interval.clone(),
        SettingId::LocalDirectory => config.local_dir.clone(),
        SettingId::RemoteStorage => config.remote.clone(),
        SettingId::ResyncAction => string_from("Run (--resync)"),
        SettingId::LogJournalAction => string_from("Open logs"),
        SettingId::ColorTheme => string_from(theme),
        SettingId::ContainerLayout => string_from(config.container_layout.name()),
        SettingId::MidPanelOrder => string_from(config.mid_panel_order.name()),
        SettingId::BorderStyle => string_from(config.border_style.name()),
        SettingId::GraphStyle => string_from(config.graph_style.name()),
        SettingId::TickRate => {
            let ms: u64 = match config.tick_rate_ms {
                Some(ms) => ms,
                None => 250,
            };
            let mut v = decimal_exec(ms);
            append_str(&mut v, "ms");
            string_of(&v)
        },
    }
}

// ---------------------------------------------------------------------------
// Laws
// ---------------------------------------------------------------------------

/// The selected row stays on a row of the tab, whatever the key.
pub proof fn law_settings_selection_in_tab(tab: int, sel: int, key: Key)
    requires
        0 <= tab <= 1,
        0 <= sel < settings_count(tab),
    ensures
        ({
            let (t, s, _) = settings_after(tab, sel, key);
            &&& 0 <= t <= 1
            &&& 0 <= s < settings_count(t)
        }),
{
}

/// A request to type a setting is made only for a setting typed as text, and a request to
/// cycle only for a cycling one.
pub proof fn law_settings_requests_fit_kind(tab: int, sel: int, key: Key)
    ensures
        ({
            let (t, s, req) = settings_after(tab, sel, key);
            &&& req == SettingsRequest::StartEditing ==> (setting_at(t, s) matches Some(x)
                && kind_of(x) == SettingKind::TextInput)
            &&& (req == SettingsRequest::CycleForward || req == SettingsRequest::CycleBackward)
                ==> (setting_at(t, s) matches Some(x) && kind_of(x) == SettingKind::Cycle)
        }),
{
}

} // verus!

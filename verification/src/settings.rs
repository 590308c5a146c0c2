//! The settings registry: option lists, the settings of each tab with their labels,
//! descriptions and choices, and the persisted configuration.
use vstd::prelude::*;
use crate::appearance::{
    BorderStyleChoice, ContainerLayout, GraphStyleChoice, MidPanelOrder, border_name,
    border_styles, graph_name, layout_name, layouts, mid_order_name,
};
use crate::numparse::{decimal, decimal_exec};
use crate::text::{chars_of, seq_eq, string_of, strings_view};

verus! {

// ---------------------------------------------------------------------------
// Option lists
// ---------------------------------------------------------------------------

/// The bisync timer intervals offered.
pub open spec fn timer_options() -> Seq<Seq<char>> {
    seq!["10min"@, "15min"@, "30min"@, "1h"@, "2h"@, "4h"@]
}

/// The bandwidth limits offered.
pub open spec fn bwlimit_choices() -> Seq<Seq<char>> {
    seq!["Disabled"@, "5M"@, "10M"@, "20M"@, "50M"@]
}

/// The rclone statistics intervals offered, shortest first.
pub open spec fn stats_interval_choices() -> Seq<Seq<char>> {
    seq!["1s"@, "2s"@, "3s"@, "5s"@, "10s"@, "15s"@, "30s"@]
}

/// The rclone statistics intervals offered, shortest first.
pub fn stats_interval_options() -> (r: Vec<&'static str>)
    ensures
        strs_view(r@) == stats_interval_choices(),
{
    let r = vec!["1s", "2s", "3s", "5s", "10s", "15s", "30s"];
    assert(strs_view(r@) =~= stats_interval_choices());
    r
}

/// The full-sync intervals offered, as (stored value, label).
pub open spec fn full_sync_table() -> Seq<(Seq<char>, Seq<char>)> {
    seq![
        ("60"@, "1h (Recommended)"@),
        ("120"@, "2h"@),
        ("240"@, "4h"@),
        ("360"@, "6h"@),
        ("720"@, "12h"@),
        ("1440"@, "24h (1 day)"@),
        ("never"@, "Never (Local)"@),
    ]
}

/// The UI tick-rate steps offered, in milliseconds.
pub open spec fn tick_steps() -> Seq<u64> {
    seq![
        100u64, 200, 250, 300, 400, 500, 600, 700, 800, 900, 1000, 1500, 2000, 2500, 3000, 4000, 5000,
        6000, 7000, 8000, 9000, 10000,
    ]
}

/// The label of a tick-rate step: its decimal value followed by `ms`.
pub open spec fn tick_label(ms: u64) -> Seq<char> {
    decimal(ms as nat) + "ms"@
}

/// The tick-rate labels, in step order.
pub open spec fn tick_labels() -> Seq<Seq<char>> {
    tick_steps().map_values(|ms: u64| tick_label(ms))
}

/// The views of a list of string slices.
pub open spec fn strs_view(v: Seq<&str>) -> Seq<Seq<char>> {
    v.map_values(|s: &str| s@)
}

/// The views of a list grown by one string slice.
pub proof fn lemma_strs_push(v: Seq<&str>, s: &str)
    ensures
        strs_view(v.push(s)) == strs_view(v).push(s@),
{
    assert(strs_view(v.push(s)) =~= strs_view(v).push(s@));
}

/// The views of a list grown by one string.
pub proof fn lemma_strings_push(v: Seq<String>, s: String)
    ensures
        strings_view(v.push(s)) == strings_view(v).push(s@),
{
    assert(strings_view(v.push(s)) =~= strings_view(v).push(s@));
}

/// The bisync timer intervals offered.
pub fn timer_interval_options() -> (r: Vec<&'static str>)
    ensures
        strs_view(r@) == timer_options(),
{
    let r = vec!["10min", "15min", "30min", "1h", "2h", "4h"];
    assert(strs_view(r@) =~= timer_options());
    r
}

/// The bandwidth limits offered.
pub fn bwlimit_options() -> (r: Vec<&'static str>)
    ensures
        strs_view(r@) == bwlimit_choices(),
{
    let r = vec!["Disabled", "5M", "10M", "20M", "50M"];
    assert(strs_view(r@) =~= bwlimit_choices());
    r
}

/// A full-sync interval: the value stored in the configuration and its label.
#[derive(Debug, Clone, Copy, PartialEq, Eq)]
pub struct FullSyncOption {
    pub value: &'static str,
    pub label: &'static str,
}

/// The (value, label) pairs of a list of full-sync options.
pub open spec fn options_view(v: Seq<FullSyncOption>) -> Seq<(Seq<char>, Seq<char>)> {
    v.map_values(|o: FullSyncOption| (o.value@, o.label@))
}

/// The full-sync intervals offered.
pub fn full_sync_options() -> (r: Vec<FullSyncOption>)
    ensures
        options_view(r@) == full_sync_table(),
{
    let r = vec![
        FullSyncOption { value: "60", label: "1h (Recommended)" },
        FullSyncOption { value: "120", label: "2h" },
        FullSyncOption { value: "240", label: "4h" },
        FullSyncOption { value: "360", label: "6h" },
        FullSyncOption { value: "720", label: "12h" },
        FullSyncOption { value: "1440", label: "24h (1 day)" },
        FullSyncOption { value: "never", label: "Never (Local)" },
    ];
    assert(options_view(r@) =~= full_sync_table());
    r
}

/// The label of the first entry of `table` whose value is `v`, or `Custom`.
pub open spec fn lookup_label(table: Seq<(Seq<char>, Seq<char>)>, v: Seq<char>) -> Seq<char>
    decreases table.len(),
{
    if table.len() == 0 {
        "Custom"@
    } else if table[0].0 == v {
        table[0].1
    } else {
        lookup_label(table.drop_first(), v)
    }
}

/// Label of a stored full-sync value (`Custom` for a value that is not offered).
pub fn full_sync_label(val: &str) -> (r: &'static str)
    ensures
        r@ == lookup_label(full_sync_table(), val@),
{
    let opts = full_sync_options();
    let v = chars_of(val);
    let mut i: usize = 0;
    assert(options_view(opts@).skip(0) =~= options_view(opts@));
    while i < opts.len()
        invariant
            i <= opts.len(),
            v@ == val@,
            options_view(opts@) == full_sync_table(),
            lookup_label(options_view(opts@).skip(i as int), v@) == lookup_label(full_sync_table(), v@),
        decreases opts.len() - i,
    {
        let o = opts[i];
        let ov = chars_of(o.value);
        assert(options_view(opts@).skip(i as int).drop_first() =~= options_view(opts@).skip(i + 1));
        if seq_eq(&ov, &v) {
            return o.label;
        }
        i = i + 1;
    }
    "Custom"
}

/// The UI tick-rate steps offered, in milliseconds.
pub fn tick_rate_steps() -> (r: Vec<u64>)
    ensures
        r@ == tick_steps(),
{
    let r = vec![
        100u64, 200, 250, 300, 400, 500, 600, 700, 800, 900, 1000, 1500, 2000, 2500, 3000, 4000,
        5000, 6000, 7000, 8000, 9000, 10000,
    ];
    assert(r@ =~= tick_steps());
    r
}

/// The tick-rate labels (`100ms`, `200ms`, ...), one per step, in step order.
pub fn tick_rate_options() -> (r: Vec<String>)
    ensures
        strings_view(r@) == tick_labels(),
{
    let steps = tick_rate_steps();
    let mut out: Vec<String> = Vec::new();
    let mut i: usize = 0;
    proof {
        reveal_strlit("ms");
    }
    while i < steps.len()
        invariant
            i <= steps.len(),
            steps@ == tick_steps(),
            "ms"@ == seq!['m', 's'],
            strings_view(out@) == tick_labels().take(i as int),
        decreases steps.len() - i,
    {
        let mut d = decimal_exec(steps[i]);
        d.push('m');
        d.push('s');
        let s = string_of(&d);
        assert(s@ == tick_label(steps@[i as int]));
        let ghost before = out@;
        out.push(s);
        proof {
            lemma_strings_push(before, s);
            assert(tick_labels().take(i + 1) =~= tick_labels().take(i as int).push(tick_labels()[i as int]));
        }
        i = i + 1;
    }
    assert(tick_labels().take(steps.len() as int) =~= tick_labels());
    out
}

// ---------------------------------------------------------------------------
// Settings registry
// ---------------------------------------------------------------------------

/// Every setting of the settings dialog. Tab 0 holds the rclone settings (with the Google
/// Drive credentials of the remote), tab 1 the appearance settings.
#[derive(Debug, Clone, Copy, PartialEq, Eq, Structural)]
pub enum SettingId {
    TimerInterval,
    CloudSafetyNet,
    BandwidthLimit,
    StatsInterval,
    LocalDirectory,
    RemoteStorage,
    ResyncAction,
    LogJournalAction,
    GoogleClientId,
    GoogleClientSecret,
    ColorTheme,
    ContainerLayout,
    MidPanelOrder,
    BorderStyle,
    GraphStyle,
    TickRate,
}

/// The setting at row `idx` of tab `tab`, if there is one.
pub open spec fn setting_at(tab: int, idx: int) -> Option<SettingId> {
    if tab == 0 {
        if idx == 0 {
            Some(SettingId::TimerInterval)
        } else if idx == 1 {
            Some(SettingId::CloudSafetyNet)
        } else if idx == 2 {
            Some(SettingId::BandwidthLimit)
        } else if idx == 3 {
            Some(SettingId::StatsInterval)
        } else if idx == 4 {
            Some(SettingId::LocalDirectory)
        } else if idx == 5 {
            Some(SettingId::RemoteStorage)
        } else if idx == 6 {
            Some(SettingId::ResyncAction)
        } else if idx == 7 {
            Some(SettingId::LogJournalAction)
        } else if idx == 8 {
            Some(SettingId::GoogleClientId)
        } else if idx == 9 {
            Some(SettingId::GoogleClientSecret)
        } else {
            None
        }
    } else if tab == 1 {
        if idx == 0 {
            Some(SettingId::ColorTheme)
        } else if idx == 1 {
            Some(SettingId::ContainerLayout)
        } else if idx == 2 {
            Some(SettingId::MidPanelOrder)
        } else if idx == 3 {
            Some(SettingId::BorderStyle)
        } else if idx == 4 {
            Some(SettingId::GraphStyle)
        } else if idx == 5 {
            Some(SettingId::TickRate)
        } else {
            None
        }
    } else {
        None
    }
}

/// Short label of a setting.
pub open spec fn setting_label(s: SettingId) -> Seq<char> {
    match s {
        SettingId::TimerInterval => "Bisync timer interval"@,
        SettingId::CloudSafetyNet => "Cloud safety net"@,
        SettingId::BandwidthLimit => "Bandwidth limit"@,
        SettingId::StatsInterval => "Rclone stats interval"@,
        SettingId::LocalDirectory => "Local directory"@,
        SettingId::RemoteStorage => "Remote storage"@,
        SettingId::ResyncAction => "Full resynchronization"@,
        SettingId::LogJournalAction => "Full rclone log journal"@,
        SettingId::GoogleClientId => "Google Client ID"@,
        SettingId::GoogleClientSecret => "Google Client Secret"@,
        SettingId::ColorTheme => "Color theme"@,
        SettingId::ContainerLayout => "Container layout"@,
        SettingId::MidPanelOrder => "Mid-panel order"@,
        SettingId::BorderStyle => "Border style"@,
        SettingId::GraphStyle => "Graph style"@,
        SettingId::TickRate => "UI Loop frequency"@,
    }
}

/// Title of a setting's description.
pub open spec fn setting_title(s: SettingId) -> Seq<char> {
    match s {
        SettingId::TimerInterval => "Bisync timer interval."@,
        SettingId::CloudSafetyNet => "Cloud safety net."@,
        SettingId::BandwidthLimit => "Bandwidth limit (bwlimit)."@,
        SettingId::StatsInterval => "Rclone statistics interval (--stats)."@,
        SettingId::LocalDirectory => "Monitored local directory."@,
        SettingId::RemoteStorage => "Remote cloud storage."@,
        SettingId::ResyncAction => "Full resynchronization (--resync)."@,
        SettingId::LogJournalAction => "Full rclone log journal (rclone-bisync)."@,
        SettingId::GoogleClientId => "Google Drive OAuth client ID."@,
        SettingId::GoogleClientSecret => "Google Drive OAuth client secret."@,
        SettingId::ColorTheme => "Color theme."@,
        SettingId::ContainerLayout => "Container layout."@,
        SettingId::MidPanelOrder => "Mid-panel order."@,
        SettingId::BorderStyle => "Border style."@,
        SettingId::GraphStyle => "Graph style."@,
        SettingId::TickRate => "UI Loop frequency (tick rate)."@,
    }
}

/// Body of a setting's description.
pub open spec fn setting_intro(s: SettingId) -> Seq<char> {
    match s {
        SettingId::TimerInterval => "Frequency of automatic checks and synchronization managed by systemd.\n\nConfigures how often rclone-bisync.timer wakes up to inspect changes.\nRecommended: 15min for an ideal balance between responsiveness and CPU usage."@,
        SettingId::CloudSafetyNet => "Maximum time elapsed before running a full bidirectional sync.\n\nEnsures files created or updated remotely from another computer or the web interface are retrieved, even if no local changes were detected.\n'Never' triggers sync only upon local changes."@,
        SettingId::StatsInterval => "How often rclone reports its transfer statistics, and how often the dashboard reads them.\n\nShorter intervals give livelier metrics at a small CPU cost."@,
        SettingId::BandwidthLimit => "Maximum allowed transfer speed for rclone.\n\nPreserves your internet connection by limiting network bandwidth used by rclone.\nStored in bwlimit.env and injected into the systemd service.\nValue 'Disabled' uses 100% of available bandwidth."@,
        SettingId::LocalDirectory => "Path to the root local directory synchronized with cloud storage.\n\nContains your local data replicated by bisync."@,
        SettingId::RemoteStorage => "Remote storage name configured in ~/.config/rclone/rclone.conf.\n\nUsed for cloud quota inquiries, remote listings, and bidirectional synchronization."@,
        SettingId::ResyncAction => "In case of critical bisync errors or corrupted sync listings, this action rebuilds listing databases by comparing the local directory and Google Drive (keeping the newest files: --resync-mode newer)."@,
        SettingId::LogJournalAction => "Opens the complete rclone-bisync systemd journal log in your external viewer (less or configured editor).\n\nAllows navigating the full history, searching text, and inspecting detailed file transfers."@,
        SettingId::GoogleClientId => "OAuth client ID of your own Google Cloud project, stored in rclone.conf for the configured remote.\n\nA personal client ID avoids the rate limits shared by all rclone users."@,
        SettingId::GoogleClientSecret => "OAuth client secret that goes with the client ID, stored in rclone.conf for the configured remote.\n\nShown masked once set."@,
        SettingId::ColorTheme => "Sets the color theme applied across the entire dashboard.\n\nEach theme dynamically adapts borders, text, and btop++ gradient charts."@,
        SettingId::ContainerLayout => "Reorder the main dashboard containers to match your preferred workflow.\n\nApplies instantly across the entire dashboard."@,
        SettingId::MidPanelOrder => "Horizontal placement of the middle section containers.\n\nAll keyboard shortcuts and mouse interactions adapt automatically."@,
        SettingId::BorderStyle => "Customize the box-drawing character style for all cards, panels, and modal dialogs.\n\nPersisted across sessions in dash-config.json."@,
        SettingId::GraphStyle => "Select the glyph set used to render multiline activity and speed sparkline charts.\n\nPersisted across sessions in dash-config.json."@,
        SettingId::TickRate => "Refresh rate of the TUI display engine in milliseconds.\n\nControls smoothness of log scrolling, metrics calculation, and micro-animations."@,
    }
}

/// The choices a setting cycles through (`None` for text and action settings). The colour
/// theme offers the theme names it is given.
pub open spec fn setting_choices(s: SettingId, themes: Seq<Seq<char>>) -> Option<Seq<Seq<char>>> {
    match s {
        SettingId::TimerInterval => Some(timer_options()),
        SettingId::CloudSafetyNet => Some(
            full_sync_table().map_values(|p: (Seq<char>, Seq<char>)| p.1),
        ),
        SettingId::BandwidthLimit => Some(bwlimit_choices()),
        SettingId::StatsInterval => Some(stats_interval_choices()),
        SettingId::ColorTheme => Some(themes),
        SettingId::ContainerLayout => Some(
            layouts().map_values(|l: ContainerLayout| layout_name(l)),
        ),
        SettingId::MidPanelOrder => Some(
            seq![MidPanelOrder::HistoryLogs, MidPanelOrder::LogsHistory].map_values(
                |m: MidPanelOrder| mid_order_name(m),
            ),
        ),
        SettingId::BorderStyle => Some(
            border_styles().map_values(|b: BorderStyleChoice| border_name(b)),
        ),
        SettingId::GraphStyle => Some(
            seq![GraphStyleChoice::Braille, GraphStyleChoice::Blocks].map_values(
                |g: GraphStyleChoice| graph_name(g),
            ),
        ),
        SettingId::TickRate => Some(tick_labels()),
        _ => None,
    }
}

/// Owned copies of a list of string slices.
fn to_strings(v: &Vec<&'static str>) -> (r: Vec<String>)
    ensures
        strings_view(r@) == strs_view(v@),
{
    let mut out: Vec<String> = Vec::new();
    let mut i: usize = 0;
    while i < v.len()
        invariant
            i <= v.len(),
            strings_view(out@) == strs_view(v@).take(i as int),
        decreases v.len() - i,
    {
        let s = String::from_str(v[i]);
        let ghost before = out@;
        out.push(s);
        proof {
            lemma_strings_push(before, s);
            assert(strs_view(v@).take(i + 1) =~= strs_view(v@).take(i as int).push(v@[i as int]@));
        }
        i = i + 1;
    }
    assert(strs_view(v@).take(v.len() as int) =~= strs_view(v@));
    out
}

impl SettingId {
    /// The setting at row `idx` of tab `tab`, if there is one.
    pub fn from_tab_and_idx(tab: usize, idx: usize) -> (r: Option<Self>)
        ensures
            r == setting_at(tab as int, idx as int),
    {
        match (tab, idx) {
            (0, 0) => Some(Self::TimerInterval),
            (0, 1) => Some(Self::CloudSafetyNet),
            (0, 2) => Some(Self::BandwidthLimit),
            (0, 3) => Some(Self::StatsInterval),
            (0, 4) => Some(Self::LocalDirectory),
            (0, 5) => Some(Self::RemoteStorage),
            (0, 6) => Some(Self::ResyncAction),
            (0, 7) => Some(Self::LogJournalAction),
            (0, 8) => Some(Self::GoogleClientId),
            (0, 9) => Some(Self::GoogleClientSecret),
            (1, 0) => Some(Self::ColorTheme),
            (1, 1) => Some(Self::ContainerLayout),
            (1, 2) => Some(Self::MidPanelOrder),
            (1, 3) => Some(Self::BorderStyle),
            (1, 4) => Some(Self::GraphStyle),
            (1, 5) => Some(Self::TickRate),
            _ => None,
        }
    }

    /// Number of rows of a tab: 10 for tab 0, 6 for any other.
    pub fn tab_count(tab: usize) -> (r: usize)
        ensures
            r == (if tab == 0 { 10usize } else { 6usize }),
    {
        if tab == 0 {
            10
        } else {
            6
        }
    }

    /// Short label of the setting.
    pub fn label(&self) -> (r: &'static str)
        ensures
            r@ == setting_label(*self),
    {
        match self {
            Self::TimerInterval => "Bisync timer interval",
            Self::CloudSafetyNet => "Cloud safety net",
            Self::BandwidthLimit => "Bandwidth limit",
            Self::StatsInterval => "Rclone stats interval",
            Self::LocalDirectory => "Local directory",
            Self::RemoteStorage => "Remote storage",
            Self::ResyncAction => "Full resynchronization",
            Self::LogJournalAction => "Full rclone log journal",
            Self::GoogleClientId => "Google Client ID",
            Self::GoogleClientSecret => "Google Client Secret",
            Self::ColorTheme => "Color theme",
            Self::ContainerLayout => "Container layout",
            Self::MidPanelOrder => "Mid-panel order",
            Self::BorderStyle => "Border style",
            Self::GraphStyle => "Graph style",
            Self::TickRate => "UI Loop frequency",
        }
    }

    /// Title of the setting's description.
    pub fn desc_title(&self) -> (r: &'static str)
        ensures
            r@ == setting_title(*self),
    {
        match self {
            Self::TimerInterval => "Bisync timer interval.",
            Self::CloudSafetyNet => "Cloud safety net.",
            Self::BandwidthLimit => "Bandwidth limit (bwlimit).",
            Self::StatsInterval => "Rclone statistics interval (--stats).",
            Self::LocalDirectory => "Monitored local directory.",
            Self::RemoteStorage => "Remote cloud storage.",
            Self::ResyncAction => "Full resynchronization (--resync).",
            Self::LogJournalAction => "Full rclone log journal (rclone-bisync).",
            Self::GoogleClientId => "Google Drive OAuth client ID.",
            Self::GoogleClientSecret => "Google Drive OAuth client secret.",
            Self::ColorTheme => "Color theme.",
            Self::ContainerLayout => "Container layout.",
            Self::MidPanelOrder => "Mid-panel order.",
            Self::BorderStyle => "Border style.",
            Self::GraphStyle => "Graph style.",
            Self::TickRate => "UI Loop frequency (tick rate).",
        }
    }

    /// Body of the setting's description.
    pub fn desc_intro(&self) -> (r: &'static str)
        ensures
            r@ == setting_intro(*self),
    {
        match self {
            Self::TimerInterval => "Frequency of automatic checks and synchronization managed by systemd.\n\nConfigures how often rclone-bisync.timer wakes up to inspect changes.\nRecommended: 15min for an ideal balance between responsiveness and CPU usage.",
            Self::CloudSafetyNet => "Maximum time elapsed before running a full bidirectional sync.\n\nEnsures files created or updated remotely from another computer or the web interface are retrieved, even if no local changes were detected.\n'Never' triggers sync only upon local changes.",
            Self::StatsInterval => "How often rclone reports its transfer statistics, and how often the dashboard reads them.\n\nShorter intervals give livelier metrics at a small CPU cost.",
            Self::BandwidthLimit => "Maximum allowed transfer speed for rclone.\n\nPreserves your internet connection by limiting network bandwidth used by rclone.\nStored in bwlimit.env and injected into the systemd service.\nValue 'Disabled' uses 100% of available bandwidth.",
            Self::LocalDirectory => "Path to the root local directory synchronized with cloud storage.\n\nContains your local data replicated by bisync.",
            Self::RemoteStorage => "Remote storage name configured in ~/.config/rclone/rclone.conf.\n\nUsed for cloud quota inquiries, remote listings, and bidirectional synchronization.",
            Self::ResyncAction => "In case of critical bisync errors or corrupted sync listings, this action rebuilds listing databases by comparing the local directory and Google Drive (keeping the newest files: --resync-mode newer).",
            Self::LogJournalAction => "Opens the complete rclone-bisync systemd journal log in your external viewer (less or configured editor).\n\nAllows navigating the full history, searching text, and inspecting detailed file transfers.",
            Self::GoogleClientId => "OAuth client ID of your own Google Cloud project, stored in rclone.conf for the configured remote.\n\nA personal client ID avoids the rate limits shared by all rclone users.",
            Self::GoogleClientSecret => "OAuth client secret that goes with the client ID, stored in rclone.conf for the configured remote.\n\nShown masked once set.",
            Self::ColorTheme => "Sets the color theme applied across the entire dashboard.\n\nEach theme dynamically adapts borders, text, and btop++ gradient charts.",
            Self::ContainerLayout => "Reorder the main dashboard containers to match your preferred workflow.\n\nApplies instantly across the entire dashboard.",
            Self::MidPanelOrder => "Horizontal placement of the middle section containers.\n\nAll keyboard shortcuts and mouse interactions adapt automatically.",
            Self::BorderStyle => "Customize the box-drawing character style for all cards, panels, and modal dialogs.\n\nPersisted across sessions in dash-config.json.",
            Self::GraphStyle => "Select the glyph set used to render multiline activity and speed sparkline charts.\n\nPersisted across sessions in dash-config.json.",
            Self::TickRate => "Refresh rate of the TUI display engine in milliseconds.\n\nControls smoothness of log scrolling, metrics calculation, and micro-animations.",
        }
    }

    /// The choices the setting cycles through, the same list that selection uses; `None` for
    /// text and action settings. `theme_names` are the names of the colour themes.
    pub fn choices(&self, theme_names: &Vec<String>) -> (r: Option<Vec<String>>)
        ensures
            r.is_some() == setting_choices(*self, strings_view(theme_names@)).is_some(),
            r.is_some() ==> strings_view(r.unwrap()@) == setting_choices(
                *self,
                strings_view(theme_names@),
            ).unwrap(),
    {
        match self {
            Self::TimerInterval => Some(to_strings(&timer_interval_options())),
            Self::CloudSafetyNet => {
                let opts = full_sync_options();
                let mut labels: Vec<&'static str> = Vec::new();
                let mut i: usize = 0;
                while i < opts.len()
                    invariant
                        i <= opts.len(),
                        options_view(opts@) == full_sync_table(),
                        strs_view(labels@) == full_sync_table().map_values(
                            |p: (Seq<char>, Seq<char>)| p.1,
                        ).take(i as int),
                    decreases opts.len() - i,
                {
                    let ghost before = labels@;
                    labels.push(opts[i].label);
                    proof {
                        lemma_strs_push(before, opts@[i as int].label);
                        let t = full_sync_table().map_values(|p: (Seq<char>, Seq<char>)| p.1);
                        assert(options_view(opts@)[i as int].1 == opts@[i as int].label@);
                        assert(t.take(i + 1) =~= t.take(i as int).push(t[i as int]));
                    }
                    i = i + 1;
                }
                Some(to_strings(&labels))
            },
            Self::BandwidthLimit => Some(to_strings(&bwlimit_options())),
            Self::StatsInterval => Some(to_strings(&stats_interval_options())),
            Self::ColorTheme => {
                let mut out: Vec<String> = Vec::new();
                let mut i: usize = 0;
                while i < theme_names.len()
                    invariant
                        i <= theme_names.len(),
                        strings_view(out@) == strings_view(theme_names@).take(i as int),
                    decreases theme_names.len() - i,
                {
                    let s = theme_names[i].clone();
                    let ghost before = out@;
                    out.push(s);
                    proof {
                        lemma_strings_push(before, s);
                        let t = strings_view(theme_names@);
                        assert(t.take(i + 1) =~= t.take(i as int).push(t[i as int]));
                    }
                    i = i + 1;
                }
                assert(strings_view(theme_names@).take(theme_names.len() as int) =~= strings_view(
                    theme_names@,
                ));
                Some(out)
            },
            Self::ContainerLayout => {
                let all = ContainerLayout::all();
                let mut names: Vec<&'static str> = Vec::new();
                let mut i: usize = 0;
                while i < all.len()
                    invariant
                        i <= all.len(),
                        all@ == layouts(),
                        strs_view(names@) == layouts().map_values(
                            |l: ContainerLayout| layout_name(l),
                        ).take(i as int),
                    decreases all.len() - i,
                {
                    let n = all[i].name();
                    let ghost before = names@;
                    names.push(n);
                    proof {
                        lemma_strs_push(before, n);
                        let t = layouts().map_values(|l: ContainerLayout| layout_name(l));
                        assert(t.take(i + 1) =~= t.take(i as int).push(t[i as int]));
                    }
                    i = i + 1;
                }
                Some(to_strings(&names))
            },
            Self::MidPanelOrder => {
                let names = vec![MidPanelOrder::HistoryLogs.name(), MidPanelOrder::LogsHistory.name()];
                let ghost want = seq![MidPanelOrder::HistoryLogs, MidPanelOrder::LogsHistory].map_values(
                    |m: MidPanelOrder| mid_order_name(m),
                );
                assert(strs_view(names@) =~= want);
                Some(to_strings(&names))
            },
            Self::BorderStyle => {
                let all = BorderStyleChoice::all();
                let mut names: Vec<&'static str> = Vec::new();
                let mut i: usize = 0;
                while i < all.len()
                    invariant
                        i <= all.len(),
                        all@ == border_styles(),
                        strs_view(names@) == border_styles().map_values(
                            |b: BorderStyleChoice| border_name(b),
                        ).take(i as int),
                    decreases all.len() - i,
                {
                    let n = all[i].name();
                    let ghost before = names@;
                    names.push(n);
                    proof {
                        lemma_strs_push(before, n);
                        let t = border_styles().map_values(|b: BorderStyleChoice| border_name(b));
                        assert(t.take(i + 1) =~= t.take(i as int).push(t[i as int]));
                    }
                    i = i + 1;
                }
                Some(to_strings(&names))
            },
            Self::GraphStyle => {
                let names = vec![GraphStyleChoice::Braille.name(), GraphStyleChoice::Blocks.name()];
                let ghost want = seq![GraphStyleChoice::Braille, GraphStyleChoice::Blocks].map_values(
                    |g: GraphStyleChoice| graph_name(g),
                );
                assert(strs_view(names@) =~= want);
                Some(to_strings(&names))
            },
            Self::TickRate => Some(tick_rate_options()),
            _ => None,
        }
    }
}

/// The rows of the two tabs that name a setting: every row of each tab.
pub proof fn law_settings_rows(tab: int, idx: int)
    ensures
        setting_at(tab, idx).is_some() <==> (0 <= tab <= 1 && 0 <= idx < (if tab == 0 {
            10int
        } else {
            6int
        })),
{
}

} // verus!

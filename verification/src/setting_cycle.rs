//! Cycling a setting of the settings dialog through its choices (left/right keys).
use vstd::prelude::*;
use crate::appearance::{
    BorderStyleChoice, ContainerLayout, GraphStyleChoice, MidPanelOrder, border_pos, border_styles,
    graph_other, layout_pos, layouts, mid_order_other,
};
use crate::config::{AppConfig, opt_view};
use crate::settings::{
    SettingId, bwlimit_choices, bwlimit_options, full_sync_options, full_sync_table, strs_view,
    stats_interval_choices, stats_interval_options, tick_rate_steps, tick_steps,
    timer_interval_options, timer_options,
};
use crate::text::{chars_of, seq_eq, string_of, strings_view};

verus! {

/// Mathematical view of the configuration.
#[verifier::ext_equal]
pub struct ConfigV {
    pub remote: Seq<char>,
    pub local_dir: Seq<char>,
    pub timer_interval: Seq<char>,
    pub full_sync_interval: Seq<char>,
    pub bwlimit: Option<Seq<char>>,
    pub theme: Option<Seq<char>>,
    pub tick_rate_ms: Option<u64>,
    pub stats_interval: Seq<char>,
    pub container_layout: ContainerLayout,
    pub mid_panel_order: MidPanelOrder,
    pub border_style: BorderStyleChoice,
    pub graph_style: GraphStyleChoice,
}

/// View of the configuration.
pub open spec fn config_view(c: AppConfig) -> ConfigV {
    ConfigV {
        remote: c.remote@,
        local_dir: c.local_dir@,
        timer_interval: c.timer_interval@,
        full_sync_interval: c.full_sync_interval@,
        bwlimit: opt_view(c.bwlimit),
        theme: opt_view(c.theme),
        tick_rate_ms: c.tick_rate_ms,
        stats_interval: c.stats_interval@,
        container_layout: c.container_layout,
        mid_panel_order: c.mid_panel_order,
        border_style: c.border_style,
        graph_style: c.graph_style,
    }
}

/// Index of the first entry of `opts[k..]` equal to `v`, or -1.
pub open spec fn first_index<T>(opts: Seq<T>, v: T, k: int) -> int
    decreases opts.len() - k,
{
    if k < 0 || k >= opts.len() {
        -1
    } else if opts[k] == v {
        k
    } else {
        first_index(opts, v, k + 1)
    }
}

/// Index of the first entry of `opts` equal to `v`, or `dflt` when there is none.
pub open spec fn index_or<T>(opts: Seq<T>, v: T, dflt: int) -> int {
    let f = first_index(opts, v, 0);
    if f < 0 {
        dflt
    } else {
        f
    }
}

/// The position one step forward or backward from `pos` among `n` choices, wrapping around.
pub open spec fn cycle_pos(n: int, pos: int, forward: bool) -> int {
    if forward {
        (pos + 1) % n
    } else {
        (pos + n - 1) % n
    }
}

/// The choice one step away from `current` among `opts`; a value that is not one of them
/// counts as the first choice.
pub open spec fn cycled<T>(opts: Seq<T>, current: T, forward: bool) -> T {
    opts[cycle_pos(opts.len() as int, index_or(opts, current, 0), forward)]
}

/// What cycling a setting asks of the dashboard.
#[derive(Debug, Clone, Copy, PartialEq, Eq, Structural)]
pub enum SettingChange {
    /// Nothing changed.
    Nothing,
    /// The configuration changed and is to be saved.
    Changed,
    /// The full resynchronisation is to be confirmed.
    ConfirmResync,
}

/// The configured bandwidth limit as the dialog shows it (`Disabled` for none).
pub open spec fn shown_bwlimit(b: Option<Seq<char>>) -> Seq<char> {
    match b {
        Some(s) => if s == "Désactivé"@ {
            "Disabled"@
        } else {
            s
        },
        None => "Disabled"@,
    }
}

/// The stored values of the full-sync intervals.
pub open spec fn full_sync_values() -> Seq<Seq<char>> {
    full_sync_table().map_values(|p: (Seq<char>, Seq<char>)| p.0)
}

/// The configuration after cycling `setting` forward or backward, and what the dashboard is
/// to do. `themes` are the names of the colour themes, the current one being the configured
/// theme (`TokyoNight` when none is set).
pub open spec fn cycled_config(c: ConfigV, setting: SettingId, forward: bool, themes: Seq<Seq<char>>) -> (ConfigV, SettingChange) {
    match setting {
        SettingId::TimerInterval => (
            ConfigV { timer_interval: cycled(timer_options(), c.timer_interval, forward), ..c },
            SettingChange::Changed,
        ),
        SettingId::StatsInterval => (
            ConfigV { stats_interval: cycled(stats_interval_choices(), c.stats_interval, forward), ..c },
            SettingChange::Changed,
        ),
        SettingId::CloudSafetyNet => (
            ConfigV { full_sync_interval: cycled(full_sync_values(), c.full_sync_interval, forward), ..c },
            SettingChange::Changed,
        ),
        SettingId::BandwidthLimit => {
            let n = cycled(bwlimit_choices(), shown_bwlimit(c.bwlimit), forward);
            (
                ConfigV {
                    bwlimit: if n == "Disabled"@ {
                        None
                    } else {
                        Some(n)
                    },
                    ..c
                },
                SettingChange::Changed,
            )
        },
        SettingId::ColorTheme => if themes.len() == 0 {
            (c, SettingChange::Nothing)
        } else {
            let cur = match c.theme {
                Some(t) => t,
                None => "TokyoNight"@,
            };
            (ConfigV { theme: Some(cycled(themes, cur, forward)), ..c }, SettingChange::Changed)
        },
        SettingId::ContainerLayout => (
            ConfigV {
                container_layout: layouts()[cycle_pos(4, layout_pos(c.container_layout), forward)],
                ..c
            },
            SettingChange::Changed,
        ),
        SettingId::MidPanelOrder => (
            ConfigV { mid_panel_order: mid_order_other(c.mid_panel_order), ..c },
            SettingChange::Changed,
        ),
        SettingId::BorderStyle => (
            ConfigV {
                border_style: border_styles()[cycle_pos(4, border_pos(c.border_style), forward)],
                ..c
            },
            SettingChange::Changed,
        ),
        SettingId::GraphStyle => (
            ConfigV { graph_style: graph_other(c.graph_style), ..c },
            SettingChange::Changed,
        ),
        SettingId::TickRate => {
            let cur = match c.tick_rate_ms {
                Some(v) => v,
                None => 250u64,
            };
            (
                ConfigV {
                    tick_rate_ms: Some(
                        tick_steps()[cycle_pos(22, index_or(tick_steps(), cur, 2), forward)],
                    ),
                    ..c
                },
                SettingChange::Changed,
            )
        },
        SettingId::ResyncAction => (c, SettingChange::ConfirmResync),
        _ => (c, SettingChange::Nothing),
    }
}

proof fn lemma_first_index_bounds<T>(opts: Seq<T>, v: T, k: int)
    requires
        0 <= k,
    ensures
        first_index(opts, v, k) == -1 || (k <= first_index(opts, v, k) < opts.len() && opts[first_index(opts, v, k)] == v),
    decreases opts.len() - k,
{
    if k < opts.len() && opts[k] != v {
        lemma_first_index_bounds(opts, v, k + 1);
    }
}

/// Index of the first of `opts` equal to `v`, or `dflt`.
fn index_of_chars(opts: &Vec<Vec<char>>, v: &Vec<char>, dflt: usize) -> (r: usize)
    requires
        dflt < opts.len(),
    ensures
        r as int == index_or(opts@.map_values(|o: Vec<char>| o@), v@, dflt as int),
        r < opts.len(),
{
    let ghost ov = opts@.map_values(|o: Vec<char>| o@);
    let mut i: usize = 0;
    while i < opts.len()
        invariant
            i <= opts.len(),
            ov == opts@.map_values(|o: Vec<char>| o@),
            first_index(ov, v@, 0) == first_index(ov, v@, i as int),
        decreases opts.len() - i,
    {
        assert(ov[i as int] == opts@[i as int]@);
        if seq_eq(&opts[i], v) {
            return i;
        }
        i = i + 1;
    }
    dflt
}

fn index_of_u64(opts: &Vec<u64>, v: u64, dflt: usize) -> (r: usize)
    requires
        dflt < opts.len(),
    ensures
        r as int == index_or(opts@, v, dflt as int),
        r < opts.len(),
{
    let mut i: usize = 0;
    while i < opts.len()
        invariant
            i <= opts.len(),
            first_index(opts@, v, 0) == first_index(opts@, v, i as int),
        decreases opts.len() - i,
    {
        if opts[i] == v {
            return i;
        }
        i = i + 1;
    }
    dflt
}

fn cycle_pos_exec(n: usize, pos: usize, forward: bool) -> (r: usize)
    requires
        n > 0,
        pos < n,
    ensures
        r as int == cycle_pos(n as int, pos as int, forward),
        r < n,
{
    if forward {
        if pos + 1 == n {
            assert((pos + 1) % (n as int) == 0) by (nonlinear_arith)
                requires
                    pos + 1 == n,
                    n > 0,
            ;
            0
        } else {
            assert((pos + 1) % (n as int) == pos + 1) by (nonlinear_arith)
                requires
                    pos + 1 < n,
            ;
            pos + 1
        }
    } else if pos == 0 {
        assert((pos + n - 1) % (n as int) == n - 1) by (nonlinear_arith)
            requires
                pos == 0,
                n > 0,
        ;
        n - 1
    } else {
        assert((pos + n - 1) % (n as int) == pos - 1) by (nonlinear_arith)
            requires
                0 < pos < n,
        ;
        pos - 1
    }
}

fn chars_list(v: &Vec<&'static str>) -> (r: Vec<Vec<char>>)
    ensures
        r@.map_values(|o: Vec<char>| o@) == strs_view(v@),
{
    let mut out: Vec<Vec<char>> = Vec::new();
    let mut i: usize = 0;
    while i < v.len()
        invariant
            i <= v.len(),
            out@.len() == i,
            forall|j: int| 0 <= j < i ==> #[trigger] out@[j]@ == v@[j]@,
        decreases v.len() - i,
    {
        out.push(chars_of(v[i]));
        i = i + 1;
    }
    assert(out@.map_values(|o: Vec<char>| o@) =~= strs_view(v@));
    out
}

/// The choice one step away from `current` among `opts` (see `cycled`).
fn cycle_choice(opts: &Vec<&'static str>, current: &Vec<char>, forward: bool) -> (r: &'static str)
    requires
        opts.len() > 0,
    ensures
        r@ == cycled(strs_view(opts@), current@, forward),
{
    let cl = chars_list(opts);
    let pos = index_of_chars(&cl, current, 0);
    let next = cycle_pos_exec(opts.len(), pos, forward);
    opts[next]
}

/// Cycles `setting` forward or backward through its choices (see `cycled_config`).
/// `theme_names` are the names of the colour themes.
pub fn cycle_setting(config: &mut AppConfig, setting: SettingId, forward: bool, theme_names: &Vec<String>) -> (r: SettingChange)
    ensures
        (config_view(*final(config)), r) == cycled_config(
            config_view(*old(config)),
            setting,
            forward,
            strings_view(theme_names@),
        ),
{
    match setting {
        SettingId::TimerInterval => {
            let opts = timer_interval_options();
            assert(strs_view(opts@).len() == opts@.len());
            let n = cycle_choice(&opts, &chars_of(config.timer_interval.as_str()), forward);
            config.timer_interval = String::from_str(n);
            assert(config_view(*config) =~= cycled_config(config_view(*old(config)), setting, forward, strings_view(theme_names@)).0);
            SettingChange::Changed
        },
        SettingId::StatsInterval => {
            let opts = stats_interval_options();
            assert(strs_view(opts@).len() == opts@.len());
            let n = cycle_choice(&opts, &chars_of(config.stats_interval.as_str()), forward);
            config.stats_interval = String::from_str(n);
            assert(config_view(*config) =~= cycled_config(config_view(*old(config)), setting, forward, strings_view(theme_names@)).0);
            SettingChange::Changed
        },
        SettingId::CloudSafetyNet => {
            let fs = full_sync_options();
            let mut values: Vec<&'static str> = Vec::new();
            let mut i: usize = 0;
            while i < fs.len()
                invariant
                    i <= fs.len(),
                    crate::settings::options_view(fs@) == full_sync_table(),
                    values@.len() == i,
                    forall|j: int| 0 <= j < i ==> #[trigger] values@[j]@ == full_sync_table()[j].0,
                decreases fs.len() - i,
            {
                assert(crate::settings::options_view(fs@)[i as int].0 == fs@[i as int].value@);
                values.push(fs[i].value);
                i = i + 1;
            }
            assert(strs_view(values@) =~= full_sync_values());
            assert(values@.len() == 7);
            let n = cycle_choice(&values, &chars_of(config.full_sync_interval.as_str()), forward);
            config.full_sync_interval = String::from_str(n);
            assert(config_view(*config) =~= cycled_config(config_view(*old(config)), setting, forward, strings_view(theme_names@)).0);
            SettingChange::Changed
        },
        SettingId::BandwidthLimit => {
            let opts = bwlimit_options();
            assert(strs_view(opts@).len() == opts@.len());
            let cur: Vec<char> = match &config.bwlimit {
                Some(b) => {
                    let bc = chars_of(b.as_str());
                    if seq_eq(&bc, &chars_of("Désactivé")) {
                        chars_of("Disabled")
                    } else {
                        bc
                    }
                },
                None => chars_of("Disabled"),
            };
            let n = cycle_choice(&opts, &cur, forward);
            if seq_eq(&chars_of(n), &chars_of("Disabled")) {
                config.bwlimit = None;
            } else {
                config.bwlimit = Some(String::from_str(n));
            }
            assert(config_view(*config) =~= cycled_config(config_view(*old(config)), setting, forward, strings_view(theme_names@)).0);
            SettingChange::Changed
        },
        SettingId::ColorTheme => {
            if theme_names.len() == 0 {
                return SettingChange::Nothing;
            }
            let cur: Vec<char> = match &config.theme {
                Some(t) => chars_of(t.as_str()),
                None => chars_of("TokyoNight"),
            };
            let mut cl: Vec<Vec<char>> = Vec::new();
            let mut i: usize = 0;
            while i < theme_names.len()
                invariant
                    i <= theme_names.len(),
                    cl@.len() == i,
                    forall|j: int| 0 <= j < i ==> #[trigger] cl@[j]@ == theme_names@[j]@,
                decreases theme_names.len() - i,
            {
                cl.push(chars_of(theme_names[i].as_str()));
                i = i + 1;
            }
            assert(cl@.map_values(|o: Vec<char>| o@) =~= strings_view(theme_names@));
            let pos = index_of_chars(&cl, &cur, 0);
            let next = cycle_pos_exec(theme_names.len(), pos, forward);
            config.theme = Some(theme_names[next].clone());
            assert(config_view(*config) =~= cycled_config(config_view(*old(config)), setting, forward, strings_view(theme_names@)).0);
            SettingChange::Changed
        },
        SettingId::ContainerLayout => {
            config.container_layout = if forward {
                config.container_layout.next()
            } else {
                config.container_layout.prev()
            };
            assert(config_view(*config) =~= cycled_config(config_view(*old(config)), setting, forward, strings_view(theme_names@)).0);
            SettingChange::Changed
        },
        SettingId::MidPanelOrder => {
            config.mid_panel_order = if forward {
                config.mid_panel_order.next()
            } else {
                config.mid_panel_order.prev()
            };
            assert(config_view(*config) =~= cycled_config(config_view(*old(config)), setting, forward, strings_view(theme_names@)).0);
            SettingChange::Changed
        },
        SettingId::BorderStyle => {
            config.border_style = if forward {
                config.border_style.next()
            } else {
                config.border_style.prev()
            };
            assert(config_view(*config) =~= cycled_config(config_view(*old(config)), setting, forward, strings_view(theme_names@)).0);
            SettingChange::Changed
        },
        SettingId::GraphStyle => {
            config.graph_style = if forward {
                config.graph_style.next()
            } else {
                config.graph_style.prev()
            };
            assert(config_view(*config) =~= cycled_config(config_view(*old(config)), setting, forward, strings_view(theme_names@)).0);
            SettingChange::Changed
        },
        SettingId::TickRate => {
            let steps = tick_rate_steps();
            let cur: u64 = match config.tick_rate_ms {
                Some(v) => v,
                None => 250,
            };
            let pos = index_of_u64(&steps, cur, 2);
            let next = cycle_pos_exec(steps.len(), pos, forward);
            config.tick_rate_ms = Some(steps[next]);
            assert(config_view(*config) =~= cycled_config(config_view(*old(config)), setting, forward, strings_view(theme_names@)).0);
            SettingChange::Changed
        },
        SettingId::ResyncAction => SettingChange::ConfirmResync,
        _ => SettingChange::Nothing,
    }
}

/// Cycling a setting forward then backward restores a value that is one of its choices.
pub proof fn law_cycle_round_trip<T>(opts: Seq<T>, v: T)
    requires
        opts.len() > 0,
        forall|i: int, j: int| 0 <= i < j < opts.len() ==> opts[i] != opts[j],
        exists|i: int| 0 <= i < opts.len() && opts[i] == v,
    ensures
        cycled(opts, cycled(opts, v, true), false) == v,
        cycled(opts, cycled(opts, v, false), true) == v,
{
    let k = choose|i: int| 0 <= i < opts.len() && opts[i] == v;
    lemma_index_of_distinct(opts, k);
    let n = opts.len() as int;
    let f = (k + 1) % n;
    let b = (k + n - 1) % n;
    lemma_index_of_distinct(opts, f);
    lemma_index_of_distinct(opts, b);
    assert(cycle_pos(n, f, false) == k) by (nonlinear_arith)
        requires
            f == (k + 1) % n,
            0 <= k < n,
    {
        if k + 1 < n {
            assert(f == k + 1);
        } else {
            assert(f == 0);
        }
    }
    assert(cycle_pos(n, b, true) == k) by (nonlinear_arith)
        requires
            b == (k + n - 1) % n,
            0 <= k < n,
    {
        if k >= 1 {
            assert(b == k - 1);
        } else {
            assert(b == n - 1);
        }
    }
}

/// In a list without repeated entries, an entry's first index is its position.
proof fn lemma_index_of_distinct<T>(opts: Seq<T>, k: int)
    requires
        0 <= k < opts.len(),
        forall|i: int, j: int| 0 <= i < j < opts.len() ==> opts[i] != opts[j],
    ensures
        index_or(opts, opts[k], 0) == k,
{
    lemma_first_index_scan(opts, opts[k], 0, k);
}

proof fn lemma_first_index_scan<T>(opts: Seq<T>, v: T, j: int, k: int)
    requires
        0 <= j <= k < opts.len(),
        opts[k] == v,
        forall|i: int| 0 <= i < k ==> opts[i] != v,
    ensures
        first_index(opts, v, j) == k,
    decreases k - j,
{
    if j < k {
        lemma_first_index_scan(opts, v, j + 1, k);
    }
}

/// Position of the statistics interval `cur` among the choices offered (the first when it
/// is none of them).
pub open spec fn stats_pos(cur: Seq<char>) -> int {
    index_or(stats_interval_choices(), cur, 0)
}

/// The statistics interval one step longer (`increase`) or shorter than `cur`, stopping at
/// the longest and the shortest choice.
pub open spec fn stepped_stats_interval(cur: Seq<char>, increase: bool) -> Seq<char> {
    let n = stats_interval_choices().len() as int;
    let p = stats_pos(cur);
    stats_interval_choices()[if increase {
        if p + 1 < n {
            p + 1
        } else {
            n - 1
        }
    } else if p > 0 {
        p - 1
    } else {
        0
    }]
}

fn stats_pos_exec(cur: &String) -> (r: usize)
    ensures
        r as int == stats_pos(cur@),
        r < stats_interval_choices().len(),
{
    let opts = stats_interval_options();
    let cl = chars_list(&opts);
    assert(cl@.map_values(|o: Vec<char>| o@).len() == 7);
    index_of_chars(&cl, &chars_of(cur.as_str()), 0)
}

/// Steps the statistics interval one choice longer (`increase`) or shorter, stopping at either
/// end (see `stepped_stats_interval`); returns whether it changed, in which case the
/// configuration is to be saved and the data refresh re-timed.
pub fn step_stats_interval(config: &mut AppConfig, increase: bool) -> (r: bool)
    ensures
        r == (stepped_stats_interval(old(config).stats_interval@, increase) != old(config).stats_interval@),
        config_view(*final(config)) == (ConfigV {
            stats_interval: stepped_stats_interval(old(config).stats_interval@, increase),
            ..config_view(*old(config))
        }),
{
    let opts = stats_interval_options();
    let pos = stats_pos_exec(&config.stats_interval);
    let next = if increase {
        if pos + 1 < opts.len() {
            pos + 1
        } else {
            opts.len() - 1
        }
    } else if pos > 0 {
        pos - 1
    } else {
        0
    };
    assert(strs_view(opts@)[next as int] == opts@[next as int]@);
    let n = opts[next];
    let changed = !seq_eq(&chars_of(n), &chars_of(config.stats_interval.as_str()));
    if changed {
        config.stats_interval = String::from_str(n);
    }
    assert(config_view(*config) =~= (ConfigV {
        stats_interval: stepped_stats_interval(old(config).stats_interval@, increase),
        ..config_view(*old(config))
    }));
    changed
}

/// Whether a shorter statistics interval is offered.
pub fn can_dec_stats_interval(config: &AppConfig) -> (r: bool)
    ensures
        r == (stats_pos(config.stats_interval@) > 0),
{
    stats_pos_exec(&config.stats_interval) > 0
}

/// Whether a longer statistics interval is offered.
pub fn can_inc_stats_interval(config: &AppConfig) -> (r: bool)
    ensures
        r == (stats_pos(config.stats_interval@) < stats_interval_choices().len() - 1),
{
    stats_pos_exec(&config.stats_interval) < 6
}


} // verus!

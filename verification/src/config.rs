//! The persisted configuration, the files it lives in, and the text of the small files
//! the dashboard shares with the systemd units (bandwidth limit, filter rules).
use vstd::prelude::*;
use crate::appearance::{BorderStyleChoice, ContainerLayout, GraphStyleChoice, MidPanelOrder};
use crate::text::{
    append_chars, append_str, chars_of, lines, lines_exec, starts_with, starts_with_exec,
    string_of, strings_view, trim, trim_exec,
};

verus! {

/// The dashboard configuration (`dash-config.json`).
#[derive(Debug, Clone)]
pub struct AppConfig {
    pub remote: String,
    pub local_dir: String,
    pub timer_interval: String,
    pub full_sync_interval: String,
    pub bwlimit: Option<String>,
    /// Name of the colour theme.
    pub theme: Option<String>,
    pub tick_rate_ms: Option<u64>,
    /// How often rclone's statistics are read (one of `stats_interval_options`).
    pub stats_interval: String,
    pub container_layout: ContainerLayout,
    pub mid_panel_order: MidPanelOrder,
    pub border_style: BorderStyleChoice,
    pub graph_style: GraphStyleChoice,
}

/// The view of an optional string.
pub open spec fn opt_view(o: Option<String>) -> Option<Seq<char>> {
    match o {
        Some(s) => Some(s@),
        None => None,
    }
}

/// The configuration used when none is saved.
pub open spec fn is_default_config(c: AppConfig) -> bool {
    &&& c.remote@ == "GoogleDrive:"@
    &&& c.local_dir@ == "~/GoogleDrive"@
    &&& c.timer_interval@ == "10min"@
    &&& c.full_sync_interval@ == "60"@
    &&& c.bwlimit.is_none()
    &&& opt_view(c.theme) == Some("TokyoNight"@)
    &&& c.tick_rate_ms == Some(250u64)
    &&& c.stats_interval@ == "2s"@
    &&& c.container_layout == ContainerLayout::Default
    &&& c.mid_panel_order == MidPanelOrder::HistoryLogs
    &&& c.border_style == BorderStyleChoice::Rounded
    &&& c.graph_style == GraphStyleChoice::Braille
}

impl Default for AppConfig {
    fn default() -> (r: Self)
        ensures
            is_default_config(r),
    {
        AppConfig {
            remote: String::from_str("GoogleDrive:"),
            local_dir: String::from_str("~/GoogleDrive"),
            timer_interval: String::from_str("10min"),
            full_sync_interval: String::from_str("60"),
            bwlimit: None,
            theme: Some(String::from_str("TokyoNight")),
            tick_rate_ms: Some(250),
            stats_interval: String::from_str("2s"),
            container_layout: ContainerLayout::Default,
            mid_panel_order: MidPanelOrder::HistoryLogs,
            border_style: BorderStyleChoice::Rounded,
            graph_style: GraphStyleChoice::Braille,
        }
    }
}

/// Last known cloud quota, kept between runs (`.quota-cache.json`).
#[derive(Debug, Clone, Copy, PartialEq, Eq, Structural)]
pub struct CloudQuotaCache {
    pub total_bytes: u64,
    pub used_bytes: u64,
    pub free_bytes: u64,
}

impl Default for CloudQuotaCache {
    fn default() -> (r: Self)
        ensures
            r.total_bytes == 0 && r.used_bytes == 0 && r.free_bytes == 0,
    {
        CloudQuotaCache { total_bytes: 0, used_bytes: 0, free_bytes: 0 }
    }
}

// ---------------------------------------------------------------------------
// Paths
// ---------------------------------------------------------------------------

/// `PathBuf::join` on Unix paths held as text: an absolute `name` replaces `dir`; otherwise
/// `name` is appended, with a `/` between unless `dir` is empty or already ends with one.
pub open spec fn path_join(dir: Seq<char>, name: Seq<char>) -> Seq<char> {
    if name.len() > 0 && name[0] == '/' {
        name
    } else if dir.len() == 0 || dir.last() == '/' {
        dir + name
    } else {
        dir + seq!['/'] + name
    }
}

/// Joins `name` to `dir` as `PathBuf::join` does.
pub fn path_join_exec(dir: &str, name: &str) -> (r: String)
    ensures
        r@ == path_join(dir@, name@),
{
    let d = chars_of(dir);
    let n = chars_of(name);
    if n.len() > 0 && n[0] == '/' {
        return string_of(&n);
    }
    let mut v = d;
    if v.len() > 0 && v[v.len() - 1] != '/' {
        v.push('/');
    }
    append_chars(&mut v, &n);
    string_of(&v)
}

/// The configuration file in the configuration directory.
pub fn config_file(config_dir: &str) -> (r: String)
    ensures
        r@ == path_join(config_dir@, "dash-config.json"@),
{
    path_join_exec(config_dir, "dash-config.json")
}

/// The rclone filter rules file in the configuration directory.
pub fn filters_file(config_dir: &str) -> (r: String)
    ensures
        r@ == path_join(config_dir@, "gdrive-filters.txt"@),
{
    path_join_exec(config_dir, "gdrive-filters.txt")
}

/// The bandwidth-limit environment file in the configuration directory.
pub fn bwlimit_file(config_dir: &str) -> (r: String)
    ensures
        r@ == path_join(config_dir@, "bwlimit.env"@),
{
    path_join_exec(config_dir, "bwlimit.env")
}

/// The marker that asks the service for a forced sync.
pub fn force_sync_marker(config_dir: &str) -> (r: String)
    ensures
        r@ == path_join(config_dir@, ".force-sync"@),
{
    path_join_exec(config_dir, ".force-sync")
}

/// The marker that asks the service for a full resync.
pub fn resync_marker(config_dir: &str) -> (r: String)
    ensures
        r@ == path_join(config_dir@, ".resync"@),
{
    path_join_exec(config_dir, ".resync")
}

/// The marker holding the time of the last full sync.
pub fn last_full_sync_marker(config_dir: &str) -> (r: String)
    ensures
        r@ == path_join(config_dir@, ".last-full-sync"@),
{
    path_join_exec(config_dir, ".last-full-sync")
}

/// The cloud quota cache in the configuration directory.
pub fn quota_cache_file(config_dir: &str) -> (r: String)
    ensures
        r@ == path_join(config_dir@, ".quota-cache.json"@),
{
    path_join_exec(config_dir, ".quota-cache.json")
}

/// `s` without the separators and `.` components at its start (a `.` followed by `/` or
/// ending the path).
pub open spec fn skip_leading_curdirs(s: Seq<char>) -> Seq<char>
    decreases s.len(),
{
    if s.len() > 0 && (s[0] == '/' || (s[0] == '.' && (s.len() == 1 || s[1] == '/'))) {
        skip_leading_curdirs(s.drop_first())
    } else {
        s
    }
}

/// `s` without the separators and `.` components at its end (a `.` preceded by `/` or
/// starting the path).
pub open spec fn drop_trailing_curdirs(s: Seq<char>) -> Seq<char>
    decreases s.len(),
{
    if s.len() > 0 && (s.last() == '/' || (s.last() == '.' && (s.len() == 1 || s[s.len() - 2]
        == '/'))) {
        drop_trailing_curdirs(s.drop_last())
    } else {
        s
    }
}

/// What follows a leading `~` component: `None` when the first component is not `~`,
/// else the rest of the path without the separators and `.` components around it.
pub open spec fn after_tilde(p: Seq<char>) -> Option<Seq<char>> {
    if p == seq!['~'] {
        Some(Seq::empty())
    } else if p.len() >= 2 && p[0] == '~' && p[1] == '/' {
        Some(drop_trailing_curdirs(skip_leading_curdirs(p.skip(2))))
    } else {
        None
    }
}

/// A path whose first component is `~` is taken relative to the home directory, when one
/// is known. `.` components right after the `~` or at the end are dropped; those inside
/// the rest stay as written.
pub open spec fn expand_tilde_spec(p: Seq<char>, home: Option<Seq<char>>) -> Seq<char> {
    match (after_tilde(p), home) {
        (Some(rest), Some(h)) => if rest.len() == 0 {
            h
        } else {
            path_join(h, rest)
        },
        _ => p,
    }
}

/// The view of an optional string slice.
pub open spec fn opt_str_view(o: Option<&str>) -> Option<Seq<char>> {
    match o {
        Some(s) => Some(s@),
        None => None,
    }
}

/// Expands a leading `~` component of `path` to `home` (the `HOME` directory, when set).
pub fn expand_tilde(path: &str, home: Option<&str>) -> (r: String)
    ensures
        r@ == expand_tilde_spec(path@, opt_str_view(home)),
{
    let p = chars_of(path);
    let h = match home {
        Some(h) => h,
        None => {
            return string_of(&p);
        },
    };
    if p.len() == 1 && p[0] == '~' {
        assert(p@ =~= seq!['~']);
        return String::from_str(h);
    }
    if !(p.len() >= 2 && p[0] == '~' && p[1] == '/') {
        assert(p@ != seq!['~']);
        return string_of(&p);
    }
    let mut a: usize = 2;
    while a < p.len() && (p[a] == '/' || (p[a] == '.' && (a + 1 == p.len() || p[a + 1] == '/')))
        invariant
            2 <= a <= p.len(),
            skip_leading_curdirs(p@.skip(2)) == skip_leading_curdirs(p@.skip(a as int)),
        decreases p.len() - a,
    {
        assert(p@.skip(a as int).drop_first() =~= p@.skip(a + 1));
        a = a + 1;
    }
    assert(skip_leading_curdirs(p@.skip(a as int)) == p@.skip(a as int));
    let mut b: usize = p.len();
    while b > a && (p[b - 1] == '/' || (p[b - 1] == '.' && (b - 1 == a || p[b - 2] == '/')))
        invariant
            a <= b <= p.len(),
            drop_trailing_curdirs(p@.skip(a as int)) == drop_trailing_curdirs(
                p@.subrange(a as int, b as int),
            ),
        decreases b - a,
    {
        assert(p@.subrange(a as int, b as int).drop_last() =~= p@.subrange(a as int, b - 1));
        b = b - 1;
    }
    assert(p@.skip(a as int) =~= p@.subrange(a as int, p.len() as int));
    let ghost rest = p@.subrange(a as int, b as int);
    assert(drop_trailing_curdirs(rest) == rest);
    assert(p@ != seq!['~']);
    if a == b {
        return String::from_str(h);
    }
    let mut v: Vec<char> = Vec::new();
    let mut k: usize = a;
    while k < b
        invariant
            a <= k <= b,
            b <= p.len(),
            v@ == p@.subrange(a as int, k as int),
        decreases b - k,
    {
        v.push(p[k]);
        assert(p@.subrange(a as int, k + 1) =~= p@.subrange(a as int, k as int).push(p@[k as int]));
        k = k + 1;
    }
    let rest_s = string_of(&v);
    path_join_exec(h, rest_s.as_str())
}

// ---------------------------------------------------------------------------
// Bandwidth limit file (`bwlimit.env`) and filter rules file
// ---------------------------------------------------------------------------

/// The value of the first `RCLONE_BWLIMIT=` line among `ls`, trimmed.
pub open spec fn bwlimit_in(ls: Seq<Seq<char>>) -> Option<Seq<char>>
    decreases ls.len(),
{
    if ls.len() == 0 {
        None
    } else if starts_with(ls[0], "RCLONE_BWLIMIT="@) {
        Some(trim(ls[0].skip("RCLONE_BWLIMIT="@.len() as int)))
    } else {
        bwlimit_in(ls.drop_first())
    }
}

/// The bandwidth limit set in the content of `bwlimit.env`, if any.
pub fn parse_bwlimit(content: &str) -> (r: Option<String>)
    ensures
        opt_view(r) == bwlimit_in(lines(content@)),
{
    let c = chars_of(content);
    let ls = lines_exec(&c);
    let key = chars_of("RCLONE_BWLIMIT=");
    let ghost lv = ls@.map_values(|l: Vec<char>| l@);
    let mut i: usize = 0;
    assert(lv.skip(0) =~= lv);
    while i < ls.len()
        invariant
            i <= ls.len(),
            lv == ls@.map_values(|l: Vec<char>| l@),
            lv == lines(content@),
            key@ == "RCLONE_BWLIMIT="@,
            bwlimit_in(lv.skip(i as int)) == bwlimit_in(lv),
        decreases ls.len() - i,
    {
        assert(lv.skip(i as int).drop_first() =~= lv.skip(i + 1));
        assert(lv.skip(i as int)[0] == ls@[i as int]@);
        if starts_with_exec(&ls[i], &key) {
            let l = &ls[i];
            let mut v: Vec<char> = Vec::new();
            let mut k: usize = key.len();
            while k < l.len()
                invariant
                    key.len() <= k <= l.len(),
                    v@ == l@.subrange(key.len() as int, k as int),
                decreases l.len() - k,
            {
                v.push(l[k]);
                assert(l@.subrange(key.len() as int, k + 1) =~= l@.subrange(
                    key.len() as int,
                    k as int,
                ).push(l@[k as int]));
                k = k + 1;
            }
            assert(v@ =~= l@.skip(key.len() as int));
            let t = trim_exec(&v);
            return Some(string_of(&t));
        }
        i = i + 1;
    }
    None
}

/// Content of `bwlimit.env` for a limit: empty when the limit is blank or `Désactivé`,
/// else one `RCLONE_BWLIMIT=` line with the trimmed limit.
pub open spec fn bwlimit_content(limit: Seq<char>) -> Seq<char> {
    if trim(limit).len() == 0 || limit == "Désactivé"@ {
        Seq::empty()
    } else {
        "RCLONE_BWLIMIT="@ + trim(limit) + seq!['\n']
    }
}

/// Text to write to `bwlimit.env` for `limit`.
pub fn bwlimit_file_content(limit: &str) -> (r: String)
    ensures
        r@ == bwlimit_content(limit@),
{
    let l = chars_of(limit);
    let t = trim_exec(&l);
    let off = chars_of("Désactivé");
    if t.len() == 0 || crate::text::seq_eq(&l, &off) {
        return String::new();
    }
    let mut v: Vec<char> = Vec::new();
    append_str(&mut v, "RCLONE_BWLIMIT=");
    append_chars(&mut v, &t);
    v.push('\n');
    string_of(&v)
}

/// Rules joined by new lines, with a final new line; nothing for no rule.
pub open spec fn filters_content(rules: Seq<Seq<char>>) -> Seq<char> {
    if rules.len() == 0 {
        Seq::empty()
    } else {
        crate::text::join_lines(rules) + seq!['\n']
    }
}

/// Text to write to the filter rules file.
pub fn filters_file_content(rules: &Vec<String>) -> (r: String)
    ensures
        r@ == filters_content(strings_view(rules@)),
{
    if rules.len() == 0 {
        return String::new();
    }
    let mut ls: Vec<Vec<char>> = Vec::new();
    let mut i: usize = 0;
    while i < rules.len()
        invariant
            i <= rules.len(),
            ls@.len() == i,
            forall|j: int| 0 <= j < i ==> #[trigger] ls@[j]@ == rules@[j]@,
        decreases rules.len() - i,
    {
        ls.push(chars_of(rules[i].as_str()));
        i = i + 1;
    }
    assert(ls@.map_values(|l: Vec<char>| l@) =~= strings_view(rules@));
    let mut v = crate::text::join_lines_exec(&ls);
    v.push('\n');
    string_of(&v)
}

/// The filter rules held in the content of the rules file, one per line.
pub fn parse_filters(content: &str) -> (r: Vec<String>)
    ensures
        strings_view(r@) == lines(content@),
{
    let c = chars_of(content);
    let ls = lines_exec(&c);
    let mut out: Vec<String> = Vec::new();
    let mut i: usize = 0;
    while i < ls.len()
        invariant
            i <= ls.len(),
            out@.len() == i,
            forall|j: int| 0 <= j < i ==> #[trigger] out@[j]@ == ls@[j]@,
        decreases ls.len() - i,
    {
        out.push(string_of(&ls[i]));
        i = i + 1;
    }
    assert(strings_view(out@) =~= ls@.map_values(|l: Vec<char>| l@));
    out
}

} // verus!

verus! {

/// Writing filter rules and reading the file back gives the same rules, as long as each
/// rule is a single line (no new line inside, no carriage return at its end).
pub proof fn law_filters_round_trip(rules: Seq<Seq<char>>)
    requires
        forall|k: int| 0 <= k < rules.len() ==> crate::text::one_line(#[trigger] rules[k]),
    ensures
        lines(filters_content(rules)) == rules,
{
    if rules.len() > 0 {
        crate::text::lemma_join_terminated(rules);
    } else {
        assert(lines(Seq::<char>::empty()) =~= rules);
    }
    crate::text::lemma_lines_terminated(rules);
}

/// Saving a bandwidth limit and reading the file back gives the limit, trimmed, for any
/// limit on one line that is neither blank nor `Désactivé`.
pub proof fn law_bwlimit_round_trip(limit: Seq<char>)
    requires
        trim(limit).len() > 0,
        limit != "Désactivé"@,
        forall|k: int| 0 <= k < limit.len() ==> limit[k] != '\n',
    ensures
        bwlimit_in(lines(bwlimit_content(limit))) == Some(trim(limit)),
{
    let t = trim(limit);
    crate::text::lemma_trim_result_ends(limit);
    reveal_strlit("RCLONE_BWLIMIT=");
    let key = "RCLONE_BWLIMIT="@;
    let line = key + t;
    crate::text::lemma_skip_ws_stop(limit, 0);
    crate::text::lemma_skip_ws_back_stop(limit, crate::text::skip_ws(limit, 0), limit.len() as int);
    assert forall|k: int| 0 <= k < line.len() implies line[k] != '\n' by {
        if k >= key.len() {
            assert(line[k] == t[k - key.len()]);
            assert(t[k - key.len()] == limit[crate::text::skip_ws(limit, 0) + k - key.len()]);
        }
    }
    assert(line.last() == t.last());
    assert(crate::text::one_line(line));
    let ls = seq![line];
    assert(ls.drop_first() =~= Seq::<Seq<char>>::empty());
    assert(crate::text::terminated(ls.drop_first()) == Seq::<char>::empty());
    assert(bwlimit_content(limit) =~= crate::text::terminated(ls));
    crate::text::lemma_lines_terminated(ls);
    assert(starts_with(line, key)) by {
        assert(line.subrange(0, key.len() as int) =~= key);
    }
    assert(line.skip(key.len() as int) =~= t);
}

} // verus!

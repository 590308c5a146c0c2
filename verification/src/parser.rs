//! Parsers for individual pieces of rclone bisync log text.
use vstd::prelude::*;
use crate::ansi::{strip_ansi_chars, strip_ansi_spec};
use crate::events::{ActiveFile, FileAction, ModifiedFileDetail, SyncedFile, TransferStats, instant_now};
use crate::numparse::{parse_u8_or_zero, parse_u32_or_zero, parse_u8_or_zero_exec, parse_u32_or_zero_exec};
use crate::pattern::{captures, group, group_exec, groups_view, opt_text, regex_captures};
use crate::text::{
    matches_at,    ascii_lower, chars_of, contains_str, find, find_spec, lowercase, seq_contains, slice_chars,
    string_of, to_ascii_lower, to_lower, trim, trim_exec,
};

verus! {

// ---------------------------------------------------------------------------
// Resync triggers
// ---------------------------------------------------------------------------

/// A lower-cased line that reports a critical error asking for `--resync`.
pub open spec fn resync_text(ll: Seq<char>) -> bool {
    ||| seq_contains(ll, "cannot find prior"@)
    ||| seq_contains(ll, "must run --resync"@)
    ||| seq_contains(ll, "--resync to recover"@)
    ||| seq_contains(ll, "path1 and path2 are out of sync"@)
    ||| seq_contains(ll, "prior or current is not in sync"@)
}

/// Exec version of `resync_text`.
pub fn resync_text_exec(ll: &Vec<char>) -> (r: bool)
    ensures
        r == resync_text(ll@),
{
    contains_str(ll, "cannot find prior") || contains_str(ll, "must run --resync") || contains_str(
        ll,
        "--resync to recover",
    ) || contains_str(ll, "path1 and path2 are out of sync") || contains_str(
        ll,
        "prior or current is not in sync",
    )
}

/// Detects a critical message asking for a `--resync`, case-insensitively.
pub fn is_resync_trigger(line: &str) -> (r: bool)
    ensures
        r == resync_text(lowercase(line@)),
{
    let v = chars_of(line);
    let ll = to_lower(&v);
    resync_text_exec(&ll)
}

/// `is_resync_trigger` on characters.
pub fn is_resync_trigger_chars(line: &Vec<char>) -> (r: bool)
    ensures
        r == resync_text(lowercase(line@)),
{
    let ll = to_lower(line);
    resync_text_exec(&ll)
}

// ---------------------------------------------------------------------------
// Diff lines
// ---------------------------------------------------------------------------

/// Action and its keyword recognised in a lower-cased diff line.
pub open spec fn diff_action(ll: Seq<char>) -> Option<(FileAction, Seq<char>)> {
    if seq_contains(ll, "file is new"@) {
        Some((FileAction::New, "file is new"@))
    } else if seq_contains(ll, "file changed"@) {
        Some((FileAction::Modified, "file changed"@))
    } else if seq_contains(ll, "file was deleted"@) {
        Some((FileAction::Deleted, "file was deleted"@))
    } else if seq_contains(ll, "file deleted"@) {
        Some((FileAction::Deleted, "file deleted"@))
    } else if seq_contains(ll, "queue copy"@) {
        Some((FileAction::Copied, "queue copy"@))
    } else if seq_contains(ll, "queue delete"@) {
        Some((FileAction::Deleted, "queue delete"@))
    } else {
        None
    }
}

/// A file name with a remote prefix (`Remote{id}:/` or `remote:/`) removed.
pub open spec fn strip_remote_prefix(f: Seq<char>) -> Seq<char> {
    match find_spec(f, "}:/"@) {
        Some(p) => f.subrange(p + 3, f.len() as int),
        None => match find_spec(f, ":/"@) {
            Some(p) => f.subrange(p + 2, f.len() as int),
            None => f,
        },
    }
}

/// Side of a diff line: `true` for Path2 (local), `false` for Path1 (remote).
pub open spec fn diff_is_local(ll: Seq<char>) -> bool {
    if seq_contains(ll, "path2:"@) || seq_contains(ll, "- path2"@) {
        true
    } else if seq_contains(ll, "path1:"@) || seq_contains(ll, "- path1"@) {
        false
    } else {
        seq_contains(ll, "path2"@) && !seq_contains(ll, "path1"@)
    }
}

/// The file and action reported by a diff line, if it is one:
/// `Path1|Path2 ... <action keyword> ... - <file>`.
pub open spec fn parse_diff_spec(raw: Seq<char>) -> Option<(bool, Seq<char>, FileAction)> {
    let clean = strip_ansi_spec(raw);
    let ll = ascii_lower(clean);
    if !seq_contains(ll, "path1"@) && !seq_contains(ll, "path2"@) {
        None
    } else {
        match diff_action(ll) {
            None => None,
            Some((action, kw)) => match find_spec(ll, kw) {
                None => None,
                Some(pos) => {
                    let after = clean.subrange(pos + kw.len(), clean.len() as int);
                    match find_spec(after, " - "@) {
                        None => None,
                        Some(d) => {
                            let f0 = trim(after.subrange(d + 3, after.len() as int));
                            if f0.len() == 0 {
                                None
                            } else {
                                let f = strip_remote_prefix(f0);
                                let fl = ascii_lower(f);
                                if seq_contains(fl, "path1"@) || seq_contains(fl, "path2"@)
                                    || seq_contains(f, "\""@) {
                                    None
                                } else {
                                    Some((diff_is_local(ll), f, action))
                                }
                            }
                        },
                    }
                },
            },
        }
    }
}

fn diff_action_exec(ll: &Vec<char>) -> (r: Option<(FileAction, &'static str)>)
    ensures
        r matches Some((a, k)) ==> diff_action(ll@) == Some((a, k@)),
        r is None ==> diff_action(ll@) is None,
{
    if contains_str(ll, "file is new") {
        Some((FileAction::New, "file is new"))
    } else if contains_str(ll, "file changed") {
        Some((FileAction::Modified, "file changed"))
    } else if contains_str(ll, "file was deleted") {
        Some((FileAction::Deleted, "file was deleted"))
    } else if contains_str(ll, "file deleted") {
        Some((FileAction::Deleted, "file deleted"))
    } else if contains_str(ll, "queue copy") {
        Some((FileAction::Copied, "queue copy"))
    } else if contains_str(ll, "queue delete") {
        Some((FileAction::Deleted, "queue delete"))
    } else {
        None
    }
}

fn strip_remote_prefix_exec(f: &Vec<char>) -> (r: Vec<char>)
    ensures
        r@ == strip_remote_prefix(f@),
{
    let p1 = chars_of("}:/");
    match find(f, &p1) {
        Some(p) => {
            proof {
                crate::text::lemma_contains_find(f@, p1@);
                reveal_strlit("}:/");
            }
            slice_chars(f, p + p1.len(), f.len())
        },
        None => {
            let p2 = chars_of(":/");
            match find(f, &p2) {
                Some(p) => {
                    proof {
                        crate::text::lemma_contains_find(f@, p2@);
                        reveal_strlit(":/");
                        assert(matches_at(f@, p2@, p as int));
                        assert(p + p2@.len() <= f@.len());
                    }
                    assert(p + p2.len() <= f.len());
                    slice_chars(f, p + p2.len(), f.len())
                },
                None => slice_chars(f, 0, f.len()),
            }
        },
    }
}

fn diff_is_local_exec(ll: &Vec<char>) -> (r: bool)
    ensures
        r == diff_is_local(ll@),
{
    if contains_str(ll, "path2:") || contains_str(ll, "- path2") {
        true
    } else if contains_str(ll, "path1:") || contains_str(ll, "- path1") {
        false
    } else {
        contains_str(ll, "path2") && !contains_str(ll, "path1")
    }
}

/// Parses a diff line into its side (`true` = local / Path2) and the changed file.
pub fn parse_diff_file(raw_line: &str) -> (r: Option<(bool, ModifiedFileDetail)>)
    ensures
        r matches Some((b, d)) ==> parse_diff_spec(raw_line@) == Some((b, d.path@, d.action)),
        r is None ==> parse_diff_spec(raw_line@) is None,
{
    let raw = chars_of(raw_line);
    parse_diff_chars(&raw)
}

/// `parse_diff_file` on characters.
pub fn parse_diff_chars(raw: &Vec<char>) -> (r: Option<(bool, ModifiedFileDetail)>)
    ensures
        r matches Some((b, d)) ==> parse_diff_spec(raw@) == Some((b, d.path@, d.action)),
        r is None ==> parse_diff_spec(raw@) is None,
{
    let clean = strip_ansi_chars(raw);
    let ll = to_ascii_lower(&clean);
    if !contains_str(&ll, "path1") && !contains_str(&ll, "path2") {
        return None;
    }
    let (action, kw) = match diff_action_exec(&ll) {
        Some(x) => x,
        None => return None,
    };
    let kwv = chars_of(kw);
    let pos = match find(&ll, &kwv) {
        Some(p) => p,
        None => return None,
    };
    proof {
        crate::text::lemma_contains_find(ll@, kwv@);
        assert(matches_at(ll@, kwv@, pos as int));
        assert(ll@.len() == clean@.len());
        assert(pos + kwv@.len() <= clean@.len());
    }
    assert(pos + kwv.len() <= clean.len());
    let after = slice_chars(&clean, pos + kwv.len(), clean.len());
    let dash = chars_of(" - ");
    let d = match find(&after, &dash) {
        Some(d) => d,
        None => return None,
    };
    proof {
        crate::text::lemma_contains_find(after@, dash@);
        reveal_strlit(" - ");
    }
    let tail = slice_chars(&after, d + dash.len(), after.len());
    let f0 = trim_exec(&tail);
    if f0.len() == 0 {
        return None;
    }
    let f = strip_remote_prefix_exec(&f0);
    let fl = to_ascii_lower(&f);
    if contains_str(&fl, "path1") || contains_str(&fl, "path2") || contains_str(&f, "\"") {
        return None;
    }
    let is_local = diff_is_local_exec(&ll);
    Some((is_local, ModifiedFileDetail { path: string_of(&f), action }))
}

// ---------------------------------------------------------------------------
// Transfer statistics (text form)
// ---------------------------------------------------------------------------

/// `Transferred: <done> / <total>, <pct>%` (data amounts).
pub const RE_TRANSFER_BYTES: &'static str = "(?i)transferred:\\s+([\\d.]+\\s*\\S+)\\s*/\\s*([\\d.]+\\s*\\S+),\\s*(\\d+|-)\\s*%?";

/// A speed such as `2.400 MiB/s`.
pub const RE_SPEED: &'static str = "(?i)([\\d.]+\\s*\\S+/s)";

/// `ETA <value>`.
pub const RE_ETA: &'static str = "(?i)ETA\\s+(\\S+)";

/// `Transferred: <done> / <total>` (file counts).
pub const RE_FILES: &'static str = "(?i)transferred:\\s+(\\d+)\\s*/\\s*(\\d+),?";

/// `Checks: <done> / <total>`.
pub const RE_CHECKS: &'static str = "(?i)checks:\\s+(\\d+)\\s*/\\s*(\\d+)";

/// `Elapsed time: <value>`.
pub const RE_ELAPSED: &'static str = "(?i)elapsed time:\\s*(\\S+)";

/// Text view of the transfer metrics.
pub struct StatsView {
    pub bytes_done: Seq<char>,
    pub bytes_total: Seq<char>,
    pub pct: u8,
    pub speed: Seq<char>,
    pub eta: Seq<char>,
    pub files_done: u32,
    pub files_total: u32,
    pub checks_done: u32,
    pub checks_total: u32,
    pub elapsed: Seq<char>,
}

/// View of `TransferStats`.
pub open spec fn stats_view(s: TransferStats) -> StatsView {
    StatsView {
        bytes_done: s.bytes_done@,
        bytes_total: s.bytes_total@,
        pct: s.pct,
        speed: s.speed@,
        eta: s.eta@,
        files_done: s.files_done,
        files_total: s.files_total,
        checks_done: s.checks_done,
        checks_total: s.checks_total,
        elapsed: s.elapsed@,
    }
}

/// Metrics after reading the captures of `RE_TRANSFER_BYTES` (on the lower-cased line).
pub open spec fn upd_bytes(c: Option<Seq<Option<Seq<char>>>>, s: StatsView) -> StatsView {
    match (group(c, 1), group(c, 2), group(c, 3)) {
        (Some(d), Some(t), Some(p)) => StatsView {
            bytes_done: trim(d),
            bytes_total: trim(t),
            pct: parse_u8_or_zero(trim(p)),
            ..s
        },
        _ => s,
    }
}

/// Metrics after reading the captures of `RE_FILES` (on the lower-cased line).
pub open spec fn upd_files(c: Option<Seq<Option<Seq<char>>>>, s: StatsView) -> StatsView {
    match (group(c, 1), group(c, 2)) {
        (Some(d), Some(t)) => StatsView {
            files_done: parse_u32_or_zero(d),
            files_total: parse_u32_or_zero(t),
            ..s
        },
        _ => s,
    }
}

/// Metrics after reading the captures of `RE_CHECKS` (on the lower-cased line).
pub open spec fn upd_checks(c: Option<Seq<Option<Seq<char>>>>, s: StatsView) -> StatsView {
    match (group(c, 1), group(c, 2)) {
        (Some(d), Some(t)) => StatsView {
            checks_done: parse_u32_or_zero(d),
            checks_total: parse_u32_or_zero(t),
            ..s
        },
        _ => s,
    }
}

/// Metrics after reading the captures of `RE_SPEED` (on the line, its letter case kept).
pub open spec fn upd_speed(c: Option<Seq<Option<Seq<char>>>>, s: StatsView) -> StatsView {
    match group(c, 1) {
        Some(v) => StatsView { speed: trim(v), ..s },
        None => s,
    }
}

/// Metrics after reading the captures of `RE_ETA` (on the line, its letter case kept).
pub open spec fn upd_eta(c: Option<Seq<Option<Seq<char>>>>, s: StatsView) -> StatsView {
    match group(c, 1) {
        Some(v) => StatsView { eta: trim(v), ..s },
        None => s,
    }
}

/// Metrics after reading the captures of `RE_ELAPSED` (on the lower-cased line).
pub open spec fn upd_elapsed(c: Option<Seq<Option<Seq<char>>>>, s: StatsView) -> StatsView {
    match group(c, 1) {
        Some(v) => StatsView { elapsed: trim(v), ..s },
        None => s,
    }
}

/// Metrics after reading the captures of the six metric patterns, in this order: each
/// recognised field overwrites the old value, the others stay.
pub open spec fn stats_after_captures(
    bytes: Option<Seq<Option<Seq<char>>>>,
    files: Option<Seq<Option<Seq<char>>>>,
    checks: Option<Seq<Option<Seq<char>>>>,
    speed: Option<Seq<Option<Seq<char>>>>,
    eta: Option<Seq<Option<Seq<char>>>>,
    elapsed: Option<Seq<Option<Seq<char>>>>,
    s: StatsView,
) -> StatsView {
    upd_elapsed(elapsed, upd_eta(eta, upd_speed(speed, upd_checks(checks, upd_files(files, upd_bytes(bytes, s))))))
}

/// Metrics after reading one text line: data amounts, file and check counts and the elapsed
/// time are matched on the lower-cased line, speed and ETA on the line itself.
pub open spec fn transfer_update(line: Seq<char>, s: StatsView) -> StatsView {
    let ll = lowercase(line);
    stats_after_captures(
        regex_captures(RE_TRANSFER_BYTES@, ll),
        regex_captures(RE_FILES@, ll),
        regex_captures(RE_CHECKS@, ll),
        regex_captures(RE_SPEED@, line),
        regex_captures(RE_ETA@, line),
        regex_captures(RE_ELAPSED@, ll),
        s,
    )
}

/// Reads the transfer metrics found in a text line into `stats`.
pub fn parse_transfer_stats(line: &str, stats: &mut TransferStats)
    ensures
        stats_view(*final(stats)) == transfer_update(line@, stats_view(*old(stats))),
{
    let v = chars_of(line);
    parse_transfer_stats_chars(&v, stats);
}

/// `parse_transfer_stats` on characters.
pub fn parse_transfer_stats_chars(line: &Vec<char>, stats: &mut TransferStats)
    ensures
        stats_view(*final(stats)) == transfer_update(line@, stats_view(*old(stats))),
{
    let ll = to_lower(line);
    let bytes = captures(RE_TRANSFER_BYTES, &ll);
    let files = captures(RE_FILES, &ll);
    let checks = captures(RE_CHECKS, &ll);
    let speed = captures(RE_SPEED, line);
    let eta = captures(RE_ETA, line);
    let elapsed = captures(RE_ELAPSED, &ll);
    apply_stats_captures(&bytes, &files, &checks, &speed, &eta, &elapsed, stats);
}

/// Reads into `stats` the metrics held by the captures of the six metric patterns (see
/// `stats_after_captures`).
pub fn apply_stats_captures(
    bytes: &Option<Vec<Option<String>>>,
    files: &Option<Vec<Option<String>>>,
    checks: &Option<Vec<Option<String>>>,
    speed: &Option<Vec<Option<String>>>,
    eta: &Option<Vec<Option<String>>>,
    elapsed: &Option<Vec<Option<String>>>,
    stats: &mut TransferStats,
)
    ensures
        stats_view(*final(stats)) == stats_after_captures(
            groups_view(*bytes),
            groups_view(*files),
            groups_view(*checks),
            groups_view(*speed),
            groups_view(*eta),
            groups_view(*elapsed),
            stats_view(*old(stats)),
        ),
{
    let ghost s0 = stats_view(*stats);

    let g1 = group_exec(bytes, 1);
    let g2 = group_exec(bytes, 2);
    let g3 = group_exec(bytes, 3);
    match (g1, g2, g3) {
        (Some(d), Some(t), Some(p)) => {
            stats.bytes_done = crate::text::trim_string(d.as_str());
            stats.bytes_total = crate::text::trim_string(t.as_str());
            let pv = chars_of(p.as_str());
            let pt = trim_exec(&pv);
            stats.pct = parse_u8_or_zero_exec(&pt);
        },
        _ => {},
    }
    let ghost s1 = stats_view(*stats);
    assert(s1 == upd_bytes(groups_view(*bytes), s0));

    let g1 = group_exec(files, 1);
    let g2 = group_exec(files, 2);
    match (g1, g2) {
        (Some(d), Some(t)) => {
            let dv = chars_of(d.as_str());
            let tv = chars_of(t.as_str());
            stats.files_done = parse_u32_or_zero_exec(&dv);
            stats.files_total = parse_u32_or_zero_exec(&tv);
        },
        _ => {},
    }
    let ghost s2 = stats_view(*stats);
    assert(s2 == upd_files(groups_view(*files), s1));

    let g1 = group_exec(checks, 1);
    let g2 = group_exec(checks, 2);
    match (g1, g2) {
        (Some(d), Some(t)) => {
            let dv = chars_of(d.as_str());
            let tv = chars_of(t.as_str());
            stats.checks_done = parse_u32_or_zero_exec(&dv);
            stats.checks_total = parse_u32_or_zero_exec(&tv);
        },
        _ => {},
    }
    let ghost s3 = stats_view(*stats);
    assert(s3 == upd_checks(groups_view(*checks), s2));

    match group_exec(speed, 1) {
        Some(v) => {
            stats.speed = crate::text::trim_string(v.as_str());
        },
        None => {},
    }
    let ghost s4 = stats_view(*stats);
    assert(s4 == upd_speed(groups_view(*speed), s3));

    match group_exec(eta, 1) {
        Some(v) => {
            stats.eta = crate::text::trim_string(v.as_str());
        },
        None => {},
    }
    let ghost s5 = stats_view(*stats);
    assert(s5 == upd_eta(groups_view(*eta), s4));

    match group_exec(elapsed, 1) {
        Some(v) => {
            stats.elapsed = crate::text::trim_string(v.as_str());
        },
        None => {},
    }
}

// ---------------------------------------------------------------------------
// Active transfers (text form)
// ---------------------------------------------------------------------------

/// `* <name>: <pct>% /<size>, <speed>, <eta>`.
pub const RE_ACTIVE_FULL: &'static str = "(?i)\\*\\s+(.+?):\\s*(\\d+)%\\s*/([^,]+),\\s*([^,]+),\\s*(\\S+)";

/// `* <name>: <pct>% /<size>`.
pub const RE_ACTIVE_SHORT: &'static str = "(?i)\\*\\s+(.+?):\\s*(\\d+)%\\s*/(\\S+)";

/// `* <name>: checking` or `* <name>: transferring`.
pub const RE_ACTIVE_STATUS: &'static str = "(?i)\\*\\s+(.+?):\\s*(checking|transferring)\\s*$";

/// Name, percentage and speed of a transfer, from the captures of `RE_ACTIVE_FULL`,
/// `RE_ACTIVE_SHORT` and `RE_ACTIVE_STATUS` on its line: the first pattern that matched
/// decides.
pub open spec fn active_of_captures(
    full: Option<Seq<Option<Seq<char>>>>,
    short: Option<Seq<Option<Seq<char>>>>,
    status: Option<Seq<Option<Seq<char>>>>,
) -> Option<(Seq<char>, u8, Seq<char>)> {
    if full is Some {
        match (group(full, 1), group(full, 2)) {
            (Some(n), Some(p)) => Some(
                (
                    trim(n),
                    parse_u8_or_zero(p),
                    match group(full, 4) {
                        Some(sp) => trim(sp),
                        None => Seq::empty(),
                    },
                ),
            ),
            _ => None,
        }
    } else if short is Some {
        match (group(short, 1), group(short, 2)) {
            (Some(n), Some(p)) => Some((trim(n), parse_u8_or_zero(p), Seq::empty())),
            _ => None,
        }
    } else if status is Some {
        match group(status, 1) {
            Some(n) => Some((trim(n), 0u8, Seq::empty())),
            None => None,
        }
    } else {
        None
    }
}

/// Name, percentage and speed of the transfer described by a line.
pub open spec fn active_spec(line: Seq<char>) -> Option<(Seq<char>, u8, Seq<char>)> {
    active_of_captures(
        regex_captures(RE_ACTIVE_FULL@, line),
        regex_captures(RE_ACTIVE_SHORT@, line),
        regex_captures(RE_ACTIVE_STATUS@, line),
    )
}

/// Parses an active-transfer line; the transfer is stamped with the current instant.
pub fn parse_active_file(line: &str) -> (r: Option<ActiveFile>)
    ensures
        r matches Some(a) ==> active_spec(line@) == Some((a.name@, a.pct, a.speed@)),
        r is None ==> active_spec(line@) is None,
{
    let v = chars_of(line);
    parse_active_chars(&v)
}

/// `parse_active_file` on characters.
pub fn parse_active_chars(line: &Vec<char>) -> (r: Option<ActiveFile>)
    ensures
        r matches Some(a) ==> active_spec(line@) == Some((a.name@, a.pct, a.speed@)),
        r is None ==> active_spec(line@) is None,
{
    let full = captures(RE_ACTIVE_FULL, line);
    let short = captures(RE_ACTIVE_SHORT, line);
    let status = captures(RE_ACTIVE_STATUS, line);
    active_from_captures(&full, &short, &status, instant_now())
}

/// The transfer described by the captures of the three active-transfer patterns (see
/// `active_of_captures`), stamped with `seen`.
pub fn active_from_captures(
    full: &Option<Vec<Option<String>>>,
    short: &Option<Vec<Option<String>>>,
    status: &Option<Vec<Option<String>>>,
    seen: std::time::Instant,
) -> (r: Option<ActiveFile>)
    ensures
        match r {
            Some(a) => active_of_captures(groups_view(*full), groups_view(*short), groups_view(*status))
                == Some((a.name@, a.pct, a.speed@)) && a.last_seen == seen,
            None => active_of_captures(groups_view(*full), groups_view(*short), groups_view(*status))
                is None,
        },
{
    if full.is_some() {
        let n = group_exec(full, 1);
        let p = group_exec(full, 2);
        match (n, p) {
            (Some(n), Some(p)) => {
                let pv = chars_of(p.as_str());
                let speed = match group_exec(full, 4) {
                    Some(sp) => crate::text::trim_string(sp.as_str()),
                    None => String::new(),
                };
                return Some(
                    ActiveFile {
                        name: crate::text::trim_string(n.as_str()),
                        pct: parse_u8_or_zero_exec(&pv),
                        speed,
                        last_seen: seen,
                    },
                );
            },
            _ => return None,
        }
    }
    if short.is_some() {
        let n = group_exec(short, 1);
        let p = group_exec(short, 2);
        match (n, p) {
            (Some(n), Some(p)) => {
                let pv = chars_of(p.as_str());
                return Some(
                    ActiveFile {
                        name: crate::text::trim_string(n.as_str()),
                        pct: parse_u8_or_zero_exec(&pv),
                        speed: String::new(),
                        last_seen: seen,
                    },
                );
            },
            _ => return None,
        }
    }
    if status.is_some() {
        match group_exec(status, 1) {
            Some(n) => {
                return Some(
                    ActiveFile {
                        name: crate::text::trim_string(n.as_str()),
                        pct: 0,
                        speed: String::new(),
                        last_seen: seen,
                    },
                );
            },
            None => return None,
        }
    }
    None
}

// ---------------------------------------------------------------------------
// Synced files (text form)
// ---------------------------------------------------------------------------

/// `<level> : <path>: <result>` for a completed file operation.
pub const RE_SYNCED: &'static str = "(?i)(?:.*?\\s+)?(?:INFO|NOTICE|DEBUG|WARN|WARNING)\\s*:\\s+(.*?):\\s+(Copied \\(new\\)|Copied \\(replaced existing\\)|Updated modification time in destination|Deleted|Updated file)";

/// Action named by the result text of a completed file operation.
pub open spec fn synced_action(act: Seq<char>) -> FileAction {
    if seq_contains(act, "Copied (new)"@) {
        FileAction::New
    } else if seq_contains(act, "Deleted"@) {
        FileAction::Deleted
    } else {
        FileAction::Modified
    }
}

/// Path and action of a completed file operation, from the captures of `RE_SYNCED` on its
/// line.
pub open spec fn synced_of_captures(c: Option<Seq<Option<Seq<char>>>>) -> Option<(Seq<char>, FileAction)> {
    match (group(c, 1), group(c, 2)) {
        (Some(p), Some(a)) => Some((trim(p), synced_action(trim(a)))),
        _ => None,
    }
}

/// Path and action of the completed file operation a line reports.
pub open spec fn synced_spec(line: Seq<char>) -> Option<(Seq<char>, FileAction)> {
    synced_of_captures(regex_captures(RE_SYNCED@, line))
}

/// A time of day written `HH:MM:SS`: eight characters, two-digit fields separated by colons.
pub open spec fn hms_shape(t: Seq<char>) -> bool {
    &&& t.len() == 8
    &&& t[2] == ':' && t[5] == ':'
    &&& forall|i: int| 0 <= i < 8 && i != 2 && i != 5 ==> '0' <= #[trigger] t[i] <= '9'
}

/// `chrono::Local::now().format("%H:%M:%S")`: the local wall-clock time. What time it is is
/// not stated; the format's fields `%H`, `%M` and `%S` are documented as zero-padded two-digit
/// numbers, so the text has the shape `HH:MM:SS`.
#[verifier::external_body]
pub(crate) fn local_time_hms() -> (r: String)
    ensures
        hms_shape(r@),
{
    chrono::Local::now().format("%H:%M:%S").to_string()
}

/// Parses a completed-file line, stamping it with the given time.
pub fn parse_synced_at(line: &Vec<char>, time: String) -> (r: Option<SyncedFile>)
    ensures
        r matches Some(f) ==> synced_spec(line@) == Some((f.path@, f.action)) && f.time == time,
        r is None ==> synced_spec(line@) is None,
{
    let c = captures(RE_SYNCED, line);
    synced_from_captures(&c, time)
}

/// The completed file described by the captures of `RE_SYNCED` (see `synced_of_captures`),
/// stamped with `time`.
pub fn synced_from_captures(c: &Option<Vec<Option<String>>>, time: String) -> (r: Option<SyncedFile>)
    ensures
        match r {
            Some(f) => synced_of_captures(groups_view(*c)) == Some((f.path@, f.action)) && f.time
                == time,
            None => synced_of_captures(groups_view(*c)) is None,
        },
{
    let p = group_exec(c, 1);
    let a = group_exec(c, 2);
    match (p, a) {
        (Some(p), Some(a)) => {
            let av = chars_of(a.as_str());
            let at = trim_exec(&av);
            let action = if contains_str(&at, "Copied (new)") {
                FileAction::New
            } else if contains_str(&at, "Deleted") {
                FileAction::Deleted
            } else {
                FileAction::Modified
            };
            Some(SyncedFile { path: crate::text::trim_string(p.as_str()), action, time })
        },
        _ => None,
    }
}

/// Parses a completed-file line; the file is stamped with the local time of day.
pub fn parse_synced_file(line: &str) -> (r: Option<SyncedFile>)
    ensures
        r matches Some(f) ==> synced_spec(line@) == Some((f.path@, f.action)) && hms_shape(f.time@),
        r is None ==> synced_spec(line@) is None,
{
    let v = chars_of(line);
    let now = local_time_hms();
    parse_synced_at(&v, now)
}

} // verus!

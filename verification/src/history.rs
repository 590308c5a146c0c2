//! History of past bisync runs, rebuilt from the systemd journal.
use vstd::prelude::*;
use crate::events::{FileAction, SyncEvent, action_name};
use crate::logline::{EventV, JsonLog, event_view, events_view, log_line_events, log_line_events_at};
use crate::parser::{resync_text, resync_text_exec};
use crate::text::{
    chars_of, contains_str, find, find_spec, lines, lines_exec, lowercase, matches_at, seq_contains,
    skip_ws, slice_chars, string_of, to_lower,
};

verus! {

/// Outcome of a past run.
#[derive(Debug, Clone, Copy, PartialEq, Eq, Structural)]
pub enum RunStatus {
    Success,
    Failed,
    Skipped,
}

/// One past execution of the bisync service.
#[derive(Debug, Clone)]
pub struct PastRun {
    pub id: usize,
    pub date: String,
    pub time: String,
    pub duration: String,
    pub status: RunStatus,
    pub files_copied: Vec<String>,
    pub files_modified: Vec<String>,
    pub files_deleted: Vec<String>,
    /// `(action, path, time)` of each completed file, first occurrence of each path.
    pub synced_files: Vec<(String, String, String)>,
    pub errors: Vec<String>,
}

/// Mathematical view of a run.
#[verifier::ext_equal]
pub struct RunV {
    pub id: usize,
    pub date: Seq<char>,
    pub time: Seq<char>,
    pub duration: Seq<char>,
    pub status: RunStatus,
    pub copied: Seq<Seq<char>>,
    pub modified: Seq<Seq<char>>,
    pub deleted: Seq<Seq<char>>,
    pub synced: Seq<(Seq<char>, Seq<char>, Seq<char>)>,
    pub errors: Seq<Seq<char>>,
}

/// Views of a vector of strings.
pub open spec fn sv(v: Seq<String>) -> Seq<Seq<char>> {
    v.map_values(|s: String| s@)
}

/// View of a triple of strings.
pub open spec fn triple_view(t: (String, String, String)) -> (Seq<char>, Seq<char>, Seq<char>) {
    (t.0@, t.1@, t.2@)
}

/// Views of a list of `(action, path, time)` triples.
pub open spec fn synced_view(v: Seq<(String, String, String)>) -> Seq<(Seq<char>, Seq<char>, Seq<char>)> {
    v.map_values(|t: (String, String, String)| triple_view(t))
}

/// View of a run.
pub open spec fn run_view(r: PastRun) -> RunV {
    RunV {
        id: r.id,
        date: r.date@,
        time: r.time@,
        duration: r.duration@,
        status: r.status,
        copied: sv(r.files_copied@),
        modified: sv(r.files_modified@),
        deleted: sv(r.files_deleted@),
        synced: synced_view(r.synced_files@),
        errors: sv(r.errors@),
    }
}

// ---------------------------------------------------------------------------
// Affected files
// ---------------------------------------------------------------------------

/// `list` extended with `(tag, f)` for each file `f` of `files` whose path is not listed yet.
pub open spec fn add_missing(list: Seq<(Seq<char>, Seq<char>)>, files: Seq<Seq<char>>, tag: Seq<
    char,
>) -> Seq<(Seq<char>, Seq<char>)>
    decreases files.len(),
{
    if files.len() == 0 {
        list
    } else {
        let prev = add_missing(list, files.drop_last(), tag);
        let f = files.last();
        if exists|k: int| 0 <= k < prev.len() && (#[trigger] prev[k]).1 == f {
            prev
        } else {
            prev.push((tag, f))
        }
    }
}

/// Every file touched by a run, with its action: completed files first, then copied,
/// modified and deleted files not listed yet.
pub open spec fn affected_spec(r: RunV) -> Seq<(Seq<char>, Seq<char>)> {
    let base = r.synced.map_values(|t: (Seq<char>, Seq<char>, Seq<char>)| (t.0, t.1));
    add_missing(
        add_missing(add_missing(base, r.copied, "new"@), r.modified, "modified"@),
        r.deleted,
        "deleted"@,
    )
}

/// View of a list of `(&str, &str)` pairs.
pub open spec fn pairs_view(v: Seq<(&str, &str)>) -> Seq<(Seq<char>, Seq<char>)> {
    v.map_values(|p: (&str, &str)| (p.0@, p.1@))
}

fn listed<'a>(list: &Vec<(&'a str, &'a str)>, f: &str) -> (r: bool)
    ensures
        r == exists|k: int| 0 <= k < list@.len() && (#[trigger] pairs_view(list@)[k]).1 == f@,
{
    let mut k: usize = 0;
    while k < list.len()
        invariant
            k <= list.len(),
            forall|j: int| 0 <= j < k ==> (#[trigger] pairs_view(list@)[j]).1 != f@,
        decreases list.len() - k,
    {
        let p = list[k].1;
        if str_eq(p, f) {
            assert(pairs_view(list@)[k as int].1 == f@);
            return true;
        }
        k = k + 1;
    }
    false
}

/// `str == str`, compared character by character.
fn str_eq(a: &str, b: &str) -> (r: bool)
    ensures
        r == (a@ == b@),
{
    crate::text::seq_eq(&chars_of(a), &chars_of(b))
}

fn add_missing_exec<'a>(list: &mut Vec<(&'a str, &'a str)>, files: &'a Vec<String>, tag: &'static str)
    ensures
        pairs_view(final(list)@) == add_missing(pairs_view(old(list)@), sv(files@), tag@),
{
    let ghost start = pairs_view(list@);
    let mut i: usize = 0;
    while i < files.len()
        invariant
            i <= files.len(),
            pairs_view(list@) == add_missing(start, sv(files@).subrange(0, i as int), tag@),
        decreases files.len() - i,
    {
        let f: &'a str = files[i].as_str();
        let ghost prev = pairs_view(list@);
        assert(sv(files@).subrange(0, i + 1).drop_last() =~= sv(files@).subrange(0, i as int));
        if !listed(list, f) {
            list.push((tag, f));
            assert(pairs_view(list@) =~= prev.push((tag@, f@)));
        }
        i = i + 1;
    }
    assert(sv(files@).subrange(0, files.len() as int) =~= sv(files@));
}

impl PastRun {
    /// Every file touched by the run with its action (see `affected_spec`).
    pub fn all_affected_files(&self) -> (r: Vec<(&str, &str)>)
        ensures
            pairs_view(r@) == affected_spec(run_view(*self)),
    {
        let mut list: Vec<(&str, &str)> = Vec::new();
        let mut i: usize = 0;
        while i < self.synced_files.len()
            invariant
                i <= self.synced_files.len(),
                pairs_view(list@) == self.synced_files@.subrange(0, i as int).map_values(
                    |t: (String, String, String)| (t.0@, t.1@),
                ),
            decreases self.synced_files.len() - i,
        {
            let t = &self.synced_files[i];
            let ghost prev = pairs_view(list@);
            let a = t.0.as_str();
            let b = t.1.as_str();
            list.push((a, b));
            assert(pairs_view(list@) =~= prev.push((a@, b@)));
            assert(a@ == self.synced_files@[i as int].0@);
            assert(b@ == self.synced_files@[i as int].1@);
            assert(self.synced_files@.subrange(0, i + 1) =~= self.synced_files@.subrange(
                0,
                i as int,
            ).push(self.synced_files@[i as int]));
            assert(pairs_view(list@) =~= self.synced_files@.subrange(0, i + 1).map_values(
                |t: (String, String, String)| (t.0@, t.1@),
            ));
            i = i + 1;
        }
        assert(self.synced_files@.subrange(0, self.synced_files.len() as int)
            =~= self.synced_files@);
        assert(pairs_view(list@) =~= run_view(*self).synced.map_values(
            |t: (Seq<char>, Seq<char>, Seq<char>)| (t.0, t.1),
        ));
        add_missing_exec(&mut list, &self.files_copied, "new");
        add_missing_exec(&mut list, &self.files_modified, "modified");
        add_missing_exec(&mut list, &self.files_deleted, "deleted");
        list
    }
}

} // verus!

verus! {

// ---------------------------------------------------------------------------
// Analysis of one run
// ---------------------------------------------------------------------------

/// What the analysis of a run has gathered so far.
#[verifier::ext_equal]
pub struct RunAcc {
    pub status: RunStatus,
    pub copied: Seq<Seq<char>>,
    pub modified: Seq<Seq<char>>,
    pub deleted: Seq<Seq<char>>,
    pub synced: Seq<(Seq<char>, Seq<char>, Seq<char>)>,
    pub errors: Seq<Seq<char>>,
    pub duration: Seq<char>,
}

/// Nothing gathered yet: a successful run shorter than a second.
pub open spec fn acc_init() -> RunAcc {
    RunAcc {
        status: RunStatus::Success,
        copied: Seq::empty(),
        modified: Seq::empty(),
        deleted: Seq::empty(),
        synced: Seq::empty(),
        errors: Seq::empty(),
        duration: "< 1s"@,
    }
}

/// `s` with `x` appended unless already present.
pub open spec fn push_unique(s: Seq<Seq<char>>, x: Seq<char>) -> Seq<Seq<char>> {
    if s.contains(x) {
        s
    } else {
        s.push(x)
    }
}

/// Some entry of `synced` is about `path`.
pub open spec fn has_path(synced: Seq<(Seq<char>, Seq<char>, Seq<char>)>, path: Seq<char>) -> bool {
    exists|k: int| 0 <= k < synced.len() && (#[trigger] synced[k]).1 == path
}

/// Effect of one event of the run; `time` is the run's start time.
pub open spec fn run_event(acc: RunAcc, e: EventV, time: Seq<char>) -> RunAcc {
    match e {
        EventV::FileSynced(path, action, _) => {
            let acc1 = match action {
                FileAction::New => RunAcc { copied: push_unique(acc.copied, path), ..acc },
                FileAction::Copied => RunAcc { copied: push_unique(acc.copied, path), ..acc },
                FileAction::Deleted => RunAcc { deleted: push_unique(acc.deleted, path), ..acc },
                FileAction::Modified => RunAcc { modified: push_unique(acc.modified, path), ..acc },
            };
            if has_path(acc1.synced, path) {
                acc1
            } else {
                RunAcc { synced: acc1.synced.push((action_name(action), path, time)), ..acc1 }
            }
        },
        EventV::StatsUpdated(st) => if st.elapsed.len() > 0 && st.elapsed != "0.0s"@ {
            RunAcc { duration: st.elapsed, ..acc }
        } else {
            acc
        },
        EventV::ResyncRequired(err) => RunAcc {
            status: RunStatus::Failed,
            errors: push_unique(acc.errors, err),
            ..acc
        },
        EventV::SyncCompleted(success, msg) => if !success {
            RunAcc {
                status: RunStatus::Failed,
                errors: match msg {
                    Some(m) => push_unique(acc.errors, m),
                    None => acc.errors,
                },
                ..acc
            }
        } else {
            acc
        },
        _ => acc,
    }
}

/// Effect of a list of events, in order.
pub open spec fn run_events(acc: RunAcc, es: Seq<EventV>, time: Seq<char>) -> RunAcc
    decreases es.len(),
{
    if es.len() == 0 {
        acc
    } else {
        run_event(run_events(acc, es.drop_last(), time), es.last(), time)
    }
}

/// A lower-cased journal line of a run skipped by the guard.
pub open spec fn skip_text(ll: Seq<char>) -> bool {
    seq_contains(ll, "aucun changement local"@) || seq_contains(ll, "sync ignoré"@)
        || seq_contains(ll, "garde légère"@)
}

/// A lower-cased journal line that reports a failure.
pub open spec fn failure_text(ll: Seq<char>) -> bool {
    (seq_contains(ll, "error :"@) || seq_contains(ll, "fatal error"@) || seq_contains(ll, "failed"@)
        || resync_text(ll)) && !seq_contains(ll, "0 errors"@)
}

/// Effect of the wording of a journal line on the run.
pub open spec fn line_status(acc: RunAcc, line: Seq<char>) -> RunAcc {
    let ll = lowercase(line);
    if skip_text(ll) {
        RunAcc { status: RunStatus::Skipped, ..acc }
    } else if failure_text(ll) {
        RunAcc { status: RunStatus::Failed, errors: acc.errors.push(line), ..acc }
    } else {
        acc
    }
}

/// Effect of one journal line (its wording, then its events).
pub open spec fn run_line(acc: RunAcc, line: Seq<char>, rec: Option<JsonLog>, time: Seq<char>) -> RunAcc {
    run_events(line_status(acc, line), log_line_events(line, rec, Seq::empty()), time)
}

/// Effect of the first `k` lines of a run.
pub open spec fn run_fold(ls: Seq<(Seq<char>, Option<JsonLog>)>, k: int, time: Seq<char>) -> RunAcc
    decreases k,
{
    if k <= 0 {
        acc_init()
    } else {
        run_line(run_fold(ls, k - 1, time), ls[k - 1].0, ls[k - 1].1, time)
    }
}

/// End of the white-space-free token that starts at `i`.
pub open spec fn token_end(s: Seq<char>, i: int) -> int
    decreases s.len() - i,
{
    if 0 <= i < s.len() && !crate::text::is_ws(s[i]) {
        token_end(s, i + 1)
    } else {
        i
    }
}

/// First white-space separated token of a line (`split_whitespace().next()`).
pub open spec fn first_token(s: Seq<char>) -> Option<Seq<char>> {
    let a = skip_ws(s, 0);
    if a >= s.len() {
        None
    } else {
        Some(s.subrange(a, token_end(s, a)))
    }
}

/// Date and time of day of a run, from the ISO timestamp that starts its first line
/// (`2026-09-17T21:45:00+0200`): the text before the `T`, and the 8 characters after it.
pub open spec fn run_date_time(first: Seq<char>) -> (Seq<char>, Seq<char>) {
    match first_token(first) {
        Some(ts) => match find_spec(ts, "T"@) {
            Some(p) => (
                ts.subrange(0, p),
                ts.subrange(
                    p + 1,
                    if p + 9 <= ts.len() {
                        p + 9
                    } else {
                        ts.len() as int
                    },
                ),
            ),
            None => ("--"@, "--"@),
        },
        None => ("--"@, "--"@),
    }
}

/// Analysis of the journal lines of one run (with their decoded records), numbered `id`.
pub open spec fn analyze_spec(ls: Seq<(Seq<char>, Option<JsonLog>)>, id: usize) -> Option<RunV> {
    if ls.len() == 0 {
        None
    } else {
        let (date, time) = run_date_time(ls[0].0);
        let acc = run_fold(ls, ls.len() as int, time);
        Some(
            RunV {
                id,
                date,
                time,
                duration: acc.duration,
                status: acc.status,
                copied: acc.copied,
                modified: acc.modified,
                deleted: acc.deleted,
                synced: acc.synced,
                errors: acc.errors,
            },
        )
    }
}

/// Exec form of `RunAcc`.
struct RunAccExec {
    status: RunStatus,
    copied: Vec<String>,
    modified: Vec<String>,
    deleted: Vec<String>,
    synced: Vec<(String, String, String)>,
    errors: Vec<String>,
    duration: String,
}

spec fn acc_view(a: RunAccExec) -> RunAcc {
    RunAcc {
        status: a.status,
        copied: sv(a.copied@),
        modified: sv(a.modified@),
        deleted: sv(a.deleted@),
        synced: synced_view(a.synced@),
        errors: sv(a.errors@),
        duration: a.duration@,
    }
}

/// `v.contains(x)` on strings.
fn contains_string(v: &Vec<String>, x: &String) -> (r: bool)
    ensures
        r == sv(v@).contains(x@),
{
    let mut k: usize = 0;
    while k < v.len()
        invariant
            k <= v.len(),
            forall|j: int| 0 <= j < k ==> (#[trigger] sv(v@)[j]) != x@,
        decreases v.len() - k,
    {
        if v[k] == *x {
            assert(sv(v@)[k as int] == x@);
            return true;
        }
        k = k + 1;
    }
    false
}

fn push_unique_exec(v: &mut Vec<String>, x: &String)
    ensures
        sv(final(v)@) == push_unique(sv(old(v)@), x@),
{
    if !contains_string(v, x) {
        let ghost prev = sv(v@);
        v.push(x.clone());
        assert(sv(v@) =~= prev.push(x@));
    }
}

fn synced_has(v: &Vec<(String, String, String)>, path: &String) -> (r: bool)
    ensures
        r == has_path(synced_view(v@), path@),
{
    let ghost m = synced_view(v@);
    let mut k: usize = 0;
    while k < v.len()
        invariant
            k <= v.len(),
            m == synced_view(v@),
            forall|j: int| 0 <= j < k ==> (#[trigger] m[j]).1 != path@,
        decreases v.len() - k,
    {
        if v[k].1 == *path {
            assert(m[k as int].1 == path@);
            return true;
        }
        k = k + 1;
    }
    false
}

fn run_event_exec(acc: &mut RunAccExec, e: &SyncEvent, time: &String)
    ensures
        acc_view(*final(acc)) == run_event(acc_view(*old(acc)), event_view(*e), time@),
{
    match e {
        SyncEvent::FileSynced(f) => {
            let ghost a0 = acc_view(*acc);
            match f.action {
                FileAction::New => push_unique_exec(&mut acc.copied, &f.path),
                FileAction::Copied => push_unique_exec(&mut acc.copied, &f.path),
                FileAction::Deleted => push_unique_exec(&mut acc.deleted, &f.path),
                FileAction::Modified => push_unique_exec(&mut acc.modified, &f.path),
            }
            let ghost a1 = acc_view(*acc);
            assert(a1 == match f.action {
                FileAction::New => RunAcc { copied: push_unique(a0.copied, f.path@), ..a0 },
                FileAction::Copied => RunAcc { copied: push_unique(a0.copied, f.path@), ..a0 },
                FileAction::Deleted => RunAcc { deleted: push_unique(a0.deleted, f.path@), ..a0 },
                FileAction::Modified => RunAcc { modified: push_unique(a0.modified, f.path@), ..a0 },
            });
            let found = synced_has(&acc.synced, &f.path);
            if !found {
                let ghost prev = synced_view(acc.synced@);
                let entry = (f.action.to_string(), f.path.clone(), time.clone());
                acc.synced.push(entry);
                assert(synced_view(acc.synced@) =~= prev.push(
                    (action_name(f.action), f.path@, time@),
                ));
                assert(acc_view(*acc) == RunAcc { synced: a1.synced.push((action_name(f.action), f.path@, time@)), ..a1 });
            } else {
                assert(acc_view(*acc) == a1);
            }
            assert(event_view(*e) == EventV::FileSynced(f.path@, f.action, f.time@));
        },
        SyncEvent::StatsUpdated(st) => {
            let ev = chars_of(st.elapsed.as_str());
            let zero = chars_of("0.0s");
            if ev.len() > 0 && !crate::text::seq_eq(&ev, &zero) {
                acc.duration = st.elapsed.clone();
            }
        },
        SyncEvent::ResyncRequired(err) => {
            acc.status = RunStatus::Failed;
            push_unique_exec(&mut acc.errors, err);
        },
        SyncEvent::SyncCompleted { success, error_msg } => {
            if !*success {
                acc.status = RunStatus::Failed;
                match error_msg {
                    Some(m) => push_unique_exec(&mut acc.errors, m),
                    None => {},
                }
            }
        },
        _ => {},
    }
}

fn run_events_exec(acc: &mut RunAccExec, es: &Vec<SyncEvent>, time: &String)
    ensures
        acc_view(*final(acc)) == run_events(acc_view(*old(acc)), events_view(es@), time@),
{
    let ghost start = acc_view(*acc);
    let mut j: usize = 0;
    while j < es.len()
        invariant
            j <= es.len(),
            acc_view(*acc) == run_events(start, events_view(es@).subrange(0, j as int), time@),
        decreases es.len() - j,
    {
        run_event_exec(acc, &es[j], time);
        assert(events_view(es@).subrange(0, j + 1).drop_last() =~= events_view(es@).subrange(
            0,
            j as int,
        ));
        j = j + 1;
    }
    assert(events_view(es@).subrange(0, es.len() as int) =~= events_view(es@));
}

fn line_status_exec(acc: &mut RunAccExec, line: &Vec<char>)
    ensures
        acc_view(*final(acc)) == line_status(acc_view(*old(acc)), line@),
{
    let ll = to_lower(line);
    if contains_str(&ll, "aucun changement local") || contains_str(&ll, "sync ignoré") || contains_str(
        &ll,
        "garde légère",
    ) {
        acc.status = RunStatus::Skipped;
    } else if (contains_str(&ll, "error :") || contains_str(&ll, "fatal error") || contains_str(
        &ll,
        "failed",
    ) || resync_text_exec(&ll)) && !contains_str(&ll, "0 errors") {
        acc.status = RunStatus::Failed;
        let ghost prev = sv(acc.errors@);
        acc.errors.push(string_of(line));
        assert(sv(acc.errors@) =~= prev.push(line@));
    }
}

/// The run lines selected by `idx` from the journal lines and their records.
pub open spec fn selected(
    lines: Seq<Seq<char>>,
    recs: Seq<Option<JsonLog>>,
    idx: Seq<usize>,
) -> Seq<(Seq<char>, Option<JsonLog>)> {
    idx.map_values(|k: usize| (lines[k as int], rec_at(recs, k as int)))
}

/// Record decoded for journal line `k` (none past the end of the list).
pub open spec fn rec_at(recs: Seq<Option<JsonLog>>, k: int) -> Option<JsonLog> {
    if 0 <= k < recs.len() {
        recs[k]
    } else {
        None
    }
}

fn rec_at_exec<'a>(recs: &'a Vec<Option<JsonLog>>, k: usize, none: &'a Option<JsonLog>) -> (r: &'a Option<JsonLog>)
    requires
        *none is None,
    ensures
        *r == rec_at(recs@, k as int),
{
    if k < recs.len() {
        &recs[k]
    } else {
        none
    }
}

proof fn lemma_token_end(s: Seq<char>, i: int)
    requires
        0 <= i <= s.len(),
    ensures
        i <= token_end(s, i) <= s.len(),
    decreases s.len() - i,
{
    if i < s.len() && !crate::text::is_ws(s[i]) {
        lemma_token_end(s, i + 1);
    }
}

fn run_date_time_exec(first: &Vec<char>) -> (r: (String, String))
    ensures
        (r.0@, r.1@) == run_date_time(first@),
{
    let a = crate::text::skip_ws_exec(first, 0);
    if a >= first.len() {
        return (String::from_str("--"), String::from_str("--"));
    }
    let mut e = a;
    while e < first.len() && !crate::text::is_ws_exec(first[e])
        invariant
            a <= e <= first.len(),
            token_end(first@, a as int) == token_end(first@, e as int),
        decreases first.len() - e,
    {
        e = e + 1;
    }
    let ts = slice_chars(first, a, e);
    let tpat = chars_of("T");
    match find(&ts, &tpat) {
        Some(p) => {
            proof {
                crate::text::lemma_contains_find(ts@, tpat@);
                reveal_strlit("T");
                assert(matches_at(ts@, tpat@, p as int));
            }
            assert(p + 1 <= ts.len());
            let end = if ts.len() - p >= 9 {
                p + 9
            } else {
                ts.len()
            };
            let d = slice_chars(&ts, 0, p);
            let t = slice_chars(&ts, p + 1, end);
            (string_of(&d), string_of(&t))
        },
        None => (String::from_str("--"), String::from_str("--")),
    }
}

/// Analyses the journal lines `idx` of one run, numbering it `id`.
fn analyze_run(
    lines: &Vec<Vec<char>>,
    recs: &Vec<Option<JsonLog>>,
    idx: &Vec<usize>,
    id: usize,
) -> (r: Option<PastRun>)
    requires
        forall|j: int| 0 <= j < idx@.len() ==> #[trigger] idx@[j] < lines@.len(),
    ensures
        r matches Some(run) ==> analyze_spec(
            selected(lines@.map_values(|l: Vec<char>| l@), recs@, idx@),
            id,
        ) == Some(run_view(run)),
        r is None ==> analyze_spec(
            selected(lines@.map_values(|l: Vec<char>| l@), recs@, idx@),
            id,
        ) is None,
{
    let ghost lv = lines@.map_values(|l: Vec<char>| l@);
    let ghost ls = selected(lv, recs@, idx@);
    if idx.len() == 0 {
        return None;
    }
    let (date, time) = run_date_time_exec(&lines[idx[0]]);
    let mut acc = RunAccExec {
        status: RunStatus::Success,
        copied: Vec::new(),
        modified: Vec::new(),
        deleted: Vec::new(),
        synced: Vec::new(),
        errors: Vec::new(),
        duration: String::from_str("< 1s"),
    };
    assert(acc_view(acc) =~= acc_init());
    let no_rec: Option<JsonLog> = None;
    let empty_now = String::new();
    let mut j: usize = 0;
    while j < idx.len()
        invariant
            j <= idx.len(),
            forall|q: int| 0 <= q < idx@.len() ==> #[trigger] idx@[q] < lines@.len(),
            lv == lines@.map_values(|l: Vec<char>| l@),
            ls == selected(lv, recs@, idx@),
            no_rec is None,
            empty_now@ == Seq::<char>::empty(),
            acc_view(acc) == run_fold(ls, j as int, time@),
        decreases idx.len() - j,
    {
        let k = idx[j];
        let line = &lines[k];
        let rec = rec_at_exec(recs, k, &no_rec);
        assert(ls[j as int] == (line@, rec_at(recs@, k as int)));
        line_status_exec(&mut acc, line);
        let es = log_line_events_at(line, rec, &empty_now);
        run_events_exec(&mut acc, &es, &time);
        j = j + 1;
    }
    Some(
        PastRun {
            id,
            date,
            time,
            duration: acc.duration,
            status: acc.status,
            files_copied: acc.copied,
            files_modified: acc.modified,
            files_deleted: acc.deleted,
            synced_files: acc.synced,
            errors: acc.errors,
        },
    )
}

} // verus!

verus! {

// ---------------------------------------------------------------------------
// The journal
// ---------------------------------------------------------------------------

/// State of the journal scan: runs found so far, lines of the run in progress.
#[verifier::ext_equal]
pub struct JState {
    pub runs: Seq<RunV>,
    pub cur: Seq<(Seq<char>, Option<JsonLog>)>,
    pub in_run: bool,
}

/// A lower-cased line where systemd starts the service.
pub open spec fn systemd_start(ll: Seq<char>) -> bool {
    seq_contains(ll, "systemd"@) && (seq_contains(ll, "starting"@) || seq_contains(ll, "started"@))
        && seq_contains(ll, "rclone-bisync"@)
}

/// A lower-cased line written by the guard script or the dashboard.
pub open spec fn guard_word(ll: Seq<char>) -> bool {
    seq_contains(ll, "rclone-bisync-guard"@) || seq_contains(ll, "rclonedash"@)
}

/// A lower-cased line where the guard decides about a run.
pub open spec fn guard_start(ll: Seq<char>) -> bool {
    guard_word(ll) && (seq_contains(ll, "lancement du bisync"@) || seq_contains(
        ll,
        "aucun changement"@,
    ) || seq_contains(ll, "sync ignoré"@))
}

/// A lower-cased line that ends a run.
pub open spec fn run_finish(ll: Seq<char>) -> bool {
    ||| (seq_contains(ll, "systemd"@) && (seq_contains(ll, "finished"@) || seq_contains(
        ll,
        "deactivated"@,
    )) && seq_contains(ll, "rclone-bisync"@))
    ||| seq_contains(ll, "bisync successful"@)
    ||| (guard_word(ll) && (seq_contains(ll, "aucun changement"@) || seq_contains(
        ll,
        "sync ignoré"@,
    )))
}

/// `runs` with the analysis of `cur` appended, unless it was skipped by the guard.
pub open spec fn close_run(runs: Seq<RunV>, cur: Seq<(Seq<char>, Option<JsonLog>)>) -> Seq<RunV> {
    match analyze_spec(cur, (runs.len() + 1) as usize) {
        Some(r) => if r.status != RunStatus::Skipped {
            runs.push(r)
        } else {
            runs
        },
        None => runs,
    }
}

/// One journal line: a start closes the run in progress and opens a new one; inside a run
/// the line is gathered, and a finish closes the run.
pub open spec fn journal_step(st: JState, line: Seq<char>, rec: Option<JsonLog>) -> JState {
    let ll = lowercase(line);
    let start = systemd_start(ll) || (!st.in_run && guard_start(ll));
    let st1 = if start {
        if st.in_run && st.cur.len() > 0 {
            JState { runs: close_run(st.runs, st.cur), cur: Seq::empty(), in_run: true }
        } else {
            JState { in_run: true, ..st }
        }
    } else {
        st
    };
    if st1.in_run {
        let cur2 = st1.cur.push((line, rec));
        if run_finish(ll) {
            JState { runs: close_run(st1.runs, cur2), cur: Seq::empty(), in_run: false }
        } else {
            JState { cur: cur2, ..st1 }
        }
    } else {
        st1
    }
}

/// Journal scan of the first `k` lines.
pub open spec fn journal_fold(ls: Seq<Seq<char>>, recs: Seq<Option<JsonLog>>, k: int) -> JState
    decreases k,
{
    if k <= 0 {
        JState { runs: Seq::empty(), cur: Seq::empty(), in_run: false }
    } else {
        journal_step(journal_fold(ls, recs, k - 1), ls[k - 1], rec_at(recs, k - 1))
    }
}

/// The completed, non-skipped runs of a journal, most recent first, at most `limit` of them.
/// `recs[k]` is the structured record decoded from line `k` (see `json_candidate`), if any.
pub open spec fn journal_history(text: Seq<char>, limit: usize, recs: Seq<Option<JsonLog>>) -> Seq<RunV> {
    let ls = lines(text);
    let runs = journal_fold(ls, recs, ls.len() as int).runs;
    let rev = runs.reverse();
    rev.take(
        if (limit as int) < rev.len() {
            limit as int
        } else {
            rev.len() as int
        },
    )
}

fn systemd_start_exec(ll: &Vec<char>) -> (r: bool)
    ensures
        r == systemd_start(ll@),
{
    contains_str(ll, "systemd") && (contains_str(ll, "starting") || contains_str(ll, "started"))
        && contains_str(ll, "rclone-bisync")
}

fn guard_word_exec(ll: &Vec<char>) -> (r: bool)
    ensures
        r == guard_word(ll@),
{
    contains_str(ll, "rclone-bisync-guard") || contains_str(ll, "rclonedash")
}

fn guard_start_exec(ll: &Vec<char>) -> (r: bool)
    ensures
        r == guard_start(ll@),
{
    guard_word_exec(ll) && (contains_str(ll, "lancement du bisync") || contains_str(
        ll,
        "aucun changement",
    ) || contains_str(ll, "sync ignoré"))
}

fn run_finish_exec(ll: &Vec<char>) -> (r: bool)
    ensures
        r == run_finish(ll@),
{
    (contains_str(ll, "systemd") && (contains_str(ll, "finished") || contains_str(
        ll,
        "deactivated",
    )) && contains_str(ll, "rclone-bisync")) || contains_str(ll, "bisync successful") || (
    guard_word_exec(ll) && (contains_str(ll, "aucun changement") || contains_str(
        ll,
        "sync ignoré",
    )))
}

/// Views of a list of runs.
pub open spec fn runs_view(v: Seq<PastRun>) -> Seq<RunV> {
    v.map_values(|r: PastRun| run_view(r))
}

fn close_run_exec(
    runs: &mut Vec<PastRun>,
    lines: &Vec<Vec<char>>,
    recs: &Vec<Option<JsonLog>>,
    cur: &Vec<usize>,
)
    requires
        forall|j: int| 0 <= j < cur@.len() ==> #[trigger] cur@[j] < lines@.len(),
        old(runs)@.len() < usize::MAX,
    ensures
        runs_view(final(runs)@) == close_run(
            runs_view(old(runs)@),
            selected(lines@.map_values(|l: Vec<char>| l@), recs@, cur@),
        ),
        final(runs)@.len() <= old(runs)@.len() + 1,
{
    let id = runs.len() + 1;
    match analyze_run(lines, recs, cur, id) {
        Some(run) => {
            if run.status != RunStatus::Skipped {
                let ghost prev = runs_view(runs@);
                runs.push(run);
                assert(runs_view(runs@) =~= prev.push(run_view(run)));
            }
        },
        None => {},
    }
}

fn journal_step_exec(
    lines: &Vec<Vec<char>>,
    records: &Vec<Option<JsonLog>>,
    j: usize,
    runs: &mut Vec<PastRun>,
    cur: &mut Vec<usize>,
    in_run: &mut bool,
)
    requires
        j < lines.len(),
        old(runs)@.len() + old(cur)@.len() <= j,
        forall|q: int| 0 <= q < old(cur)@.len() ==> #[trigger] old(cur)@[q] < j,
    ensures
        final(runs)@.len() + final(cur)@.len() <= j + 1,
        forall|q: int| 0 <= q < final(cur)@.len() ==> #[trigger] final(cur)@[q] < j + 1,
        journal_step(
            JState {
                runs: runs_view(old(runs)@),
                cur: selected(lines@.map_values(|l: Vec<char>| l@), records@, old(cur)@),
                in_run: *old(in_run),
            },
            lines@[j as int]@,
            rec_at(records@, j as int),
        ) == (JState {
            runs: runs_view(final(runs)@),
            cur: selected(lines@.map_values(|l: Vec<char>| l@), records@, final(cur)@),
            in_run: *final(in_run),
        }),
{
    let ghost lv = lines@.map_values(|l: Vec<char>| l@);
    let ll = to_lower(&lines[j]);
    let start = systemd_start_exec(&ll) || (!*in_run && guard_start_exec(&ll));
    if start {
        if *in_run && cur.len() > 0 {
            close_run_exec(runs, lines, records, cur);
            *cur = Vec::new();
            assert(selected(lv, records@, cur@) =~= Seq::<(Seq<char>, Option<JsonLog>)>::empty());
        }
        *in_run = true;
    }
    if *in_run {
        let ghost before = selected(lv, records@, cur@);
        cur.push(j);
        assert(selected(lv, records@, cur@) =~= before.push((lv[j as int], rec_at(records@, j as int))));
        if run_finish_exec(&ll) {
            close_run_exec(runs, lines, records, cur);
            *cur = Vec::new();
            assert(selected(lv, records@, cur@) =~= Seq::<(Seq<char>, Option<JsonLog>)>::empty());
            *in_run = false;
        }
    }
}

/// Rebuilds the history of past runs from journal text (`journalctl --output=short-iso`):
/// the completed, non-skipped runs, most recent first, at most `limit` of them. A run still
/// in progress at the end of the text is not included. `records[k]` is the structured record
/// decoded from line `k` of the text, if any.
pub fn parse_journal_history(
    journal_text: &str,
    limit: usize,
    records: &Vec<Option<JsonLog>>,
) -> (r: Vec<PastRun>)
    ensures
        runs_view(r@) == journal_history(journal_text@, limit, records@),
{
    let text = chars_of(journal_text);
    let lines = lines_exec(&text);
    let ghost lv = lines@.map_values(|l: Vec<char>| l@);
    assert(lv == crate::text::lines(text@));
    let mut runs: Vec<PastRun> = Vec::new();
    let mut cur: Vec<usize> = Vec::new();
    let mut in_run = false;
    let mut j: usize = 0;
    assert(runs_view(runs@) =~= Seq::<RunV>::empty());
    assert(selected(lv, records@, cur@) =~= Seq::<(Seq<char>, Option<JsonLog>)>::empty());
    while j < lines.len()
        invariant
            j <= lines.len(),
            lv == lines@.map_values(|l: Vec<char>| l@),
            runs@.len() + cur@.len() <= j,
            forall|q: int| 0 <= q < cur@.len() ==> #[trigger] cur@[q] < j,
            journal_fold(lv, records@, j as int) == (JState {
                runs: runs_view(runs@),
                cur: selected(lv, records@, cur@),
                in_run,
            }),
        decreases lines.len() - j,
    {
        journal_step_exec(&lines, records, j, &mut runs, &mut cur, &mut in_run);
        j = j + 1;
    }
    assert(lv.len() == lines@.len());
    // Most recent first, at most `limit`.
    let mut out: Vec<PastRun> = Vec::new();
    let n = runs.len();
    let ghost all = runs_view(runs@);
    let mut k: usize = 0;
    while k < n && k < limit
        invariant
            n == runs@.len(),
            k <= n,
            k <= limit,
            all == runs_view(runs@),
            runs_view(out@) == all.reverse().take(k as int),
        decreases n - k,
    {
        let run = runs[n - 1 - k].clone_run();
        let ghost prev = runs_view(out@);
        out.push(run);
        assert(runs_view(out@) =~= prev.push(run_view(run)));
        assert(all.reverse().take(k + 1) =~= all.reverse().take(k as int).push(all[n - 1 - k]));
        k = k + 1;
    }
    assert(all == journal_fold(lv, records@, lv.len() as int).runs);
    assert(all.reverse().len() == n);
    assert(lv == crate::text::lines(journal_text@));
    assert(k == (if (limit as int) < n { limit as int } else { n as int }));
    out
}

fn clone_strings(v: &Vec<String>) -> (r: Vec<String>)
    ensures
        sv(r@) == sv(v@),
{
    let mut out: Vec<String> = Vec::new();
    let mut i: usize = 0;
    while i < v.len()
        invariant
            i <= v.len(),
            sv(out@) == sv(v@).subrange(0, i as int),
        decreases v.len() - i,
    {
        let c = v[i].clone();
        assert(c@ == v@[i as int]@);
        let ghost prev = sv(out@);
        out.push(c);
        assert(sv(out@) =~= prev.push(c@));
        assert(sv(out@) =~= sv(v@).subrange(0, i + 1));
        i = i + 1;
    }
    assert(sv(v@).subrange(0, v.len() as int) =~= sv(v@));
    out
}

impl PastRun {
    /// A copy of the run.
    pub fn clone_run(&self) -> (r: PastRun)
        ensures
            run_view(r) == run_view(*self),
    {
        let mut synced: Vec<(String, String, String)> = Vec::new();
        let mut i: usize = 0;
        while i < self.synced_files.len()
            invariant
                i <= self.synced_files.len(),
                synced_view(synced@) == synced_view(self.synced_files@).subrange(0, i as int),
            decreases self.synced_files.len() - i,
        {
            let t = &self.synced_files[i];
            let c = (t.0.clone(), t.1.clone(), t.2.clone());
            assert(triple_view(c) == triple_view(self.synced_files@[i as int]));
            let ghost prev = synced_view(synced@);
            synced.push(c);
            assert(synced_view(synced@) =~= prev.push(triple_view(c)));
            assert(synced_view(synced@) =~= synced_view(self.synced_files@).subrange(0, i + 1));
            i = i + 1;
        }
        assert(synced_view(self.synced_files@).subrange(0, self.synced_files.len() as int)
            =~= synced_view(self.synced_files@));
        let r = PastRun {
            id: self.id,
            date: self.date.clone(),
            time: self.time.clone(),
            duration: self.duration.clone(),
            status: self.status,
            files_copied: clone_strings(&self.files_copied),
            files_modified: clone_strings(&self.files_modified),
            files_deleted: clone_strings(&self.files_deleted),
            synced_files: synced,
            errors: clone_strings(&self.errors),
        };
        assert(run_view(r) =~= run_view(*self));
        r
    }
}

} // verus!

verus! {

/// The runs found so far are numbered from 1 in journal order and none was skipped.
pub open spec fn runs_numbered(runs: Seq<RunV>) -> bool {
    forall|i: int| 0 <= i < runs.len() ==> (#[trigger] runs[i]).id == i + 1 && runs[i].status != RunStatus::Skipped
}

proof fn lemma_close_run(runs: Seq<RunV>, cur: Seq<(Seq<char>, Option<JsonLog>)>)
    requires
        runs_numbered(runs),
        runs.len() + 1 <= usize::MAX,
    ensures
        runs_numbered(close_run(runs, cur)),
        close_run(runs, cur).len() <= runs.len() + 1,
{
    match analyze_spec(cur, (runs.len() + 1) as usize) {
        Some(r) => {
            if r.status != RunStatus::Skipped {
                assert forall|i: int| 0 <= i < runs.push(r).len() implies (#[trigger] runs.push(r)[i]).id
                    == i + 1 && runs.push(r)[i].status != RunStatus::Skipped by {
                    if i < runs.len() {
                        assert(runs.push(r)[i] == runs[i]);
                    }
                }
            }
        },
        None => {},
    }
}

/// The scan of the first `k` lines: its runs are numbered from 1 in journal order, none was
/// skipped, and runs and gathered lines together do not outnumber the lines read.
pub proof fn lemma_fold_runs(ls: Seq<Seq<char>>, recs: Seq<Option<JsonLog>>, k: int)
    requires
        0 <= k <= ls.len(),
        ls.len() < usize::MAX,
    ensures
        runs_numbered(journal_fold(ls, recs, k).runs),
        journal_fold(ls, recs, k).runs.len() + journal_fold(ls, recs, k).cur.len() <= k,
    decreases k,
{
    if k > 0 {
        lemma_fold_runs(ls, recs, k - 1);
        let st = journal_fold(ls, recs, k - 1);
        let line = ls[k - 1];
        let ll = lowercase(line);
        let start = systemd_start(ll) || (!st.in_run && guard_start(ll));
        if start && st.in_run && st.cur.len() > 0 {
            lemma_close_run(st.runs, st.cur);
        }
        let st1 = if start {
            if st.in_run && st.cur.len() > 0 {
                JState { runs: close_run(st.runs, st.cur), cur: Seq::empty(), in_run: true }
            } else {
                JState { in_run: true, ..st }
            }
        } else {
            st
        };
        if st1.in_run && run_finish(ll) {
            lemma_close_run(st1.runs, st1.cur.push((line, rec_at(recs, k - 1))));
        }
    }
}

/// The history holds at most `limit` runs, none of them skipped, most recent first and
/// numbered down from the count of runs in the journal: the run shown at row `k` is run
/// number `n - k`.
pub proof fn law_history_order(text: Seq<char>, limit: usize, recs: Seq<Option<JsonLog>>)
    requires
        lines(text).len() < usize::MAX,
    ensures
        journal_history(text, limit, recs).len() <= limit,
        forall|k: int|
            0 <= k < journal_history(text, limit, recs).len() ==> (#[trigger] journal_history(
                text,
                limit,
                recs,
            )[k]).status != RunStatus::Skipped && journal_history(text, limit, recs)[k].id
                == journal_fold(lines(text), recs, lines(text).len() as int).runs.len() - k,
{
    let ls = lines(text);
    lemma_fold_runs(ls, recs, ls.len() as int);
    let runs = journal_fold(ls, recs, ls.len() as int).runs;
    assert forall|k: int| 0 <= k < journal_history(text, limit, recs).len() implies (#[trigger] journal_history(
        text,
        limit,
        recs,
    )[k]).status != RunStatus::Skipped && journal_history(text, limit, recs)[k].id == runs.len()
        - k by {
        assert(journal_history(text, limit, recs)[k] == runs.reverse()[k]);
        assert(runs.reverse()[k] == runs[runs.len() - 1 - k]);
    }
}

} // verus!

verus! {

/// A completed file goes to the list named after its action: a deleted file to the deleted
/// files, a modified one to the modified files, a new or copied one to the copied files, each
/// path once; the other two lists stay as they were.
pub proof fn law_run_file_lists(acc: RunAcc, path: Seq<char>, action: FileAction, t: Seq<char>, time: Seq<char>)
    ensures
        ({
            let r = run_event(acc, EventV::FileSynced(path, action, t), time);
            &&& action == FileAction::Deleted ==> r.deleted.contains(path) && r.copied == acc.copied
                && r.modified == acc.modified
            &&& action == FileAction::Modified ==> r.modified.contains(path) && r.copied
                == acc.copied && r.deleted == acc.deleted
            &&& (action == FileAction::New || action == FileAction::Copied) ==> r.copied.contains(
                path,
            ) && r.modified == acc.modified && r.deleted == acc.deleted
            &&& r.copied.len() <= acc.copied.len() + 1
            &&& r.modified.len() <= acc.modified.len() + 1
            &&& r.deleted.len() <= acc.deleted.len() + 1
            &&& (acc.deleted.contains(path) ==> r.deleted == acc.deleted)
            &&& (acc.modified.contains(path) ==> r.modified == acc.modified)
            &&& (acc.copied.contains(path) ==> r.copied == acc.copied)
        }),
{
    let r = run_event(acc, EventV::FileSynced(path, action, t), time);
    if !acc.deleted.contains(path) {
        assert(acc.deleted.push(path)[acc.deleted.len() as int] == path);
    }
    if !acc.modified.contains(path) {
        assert(acc.modified.push(path)[acc.modified.len() as int] == path);
    }
    if !acc.copied.contains(path) {
        assert(acc.copied.push(path)[acc.copied.len() as int] == path);
    }
}

} // verus!

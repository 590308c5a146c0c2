//! The recent-files list (live sync first, then the history) and the clipboard text of a run.
use vstd::prelude::*;
use crate::events::{SyncedFile, action_name};
use crate::history::{PastRun, RunStatus, RunV, run_view, runs_view, sv, synced_view, triple_view};
use crate::numparse::{decimal, decimal_exec};
use crate::text::{
    append_chars, append_str, chars_of, contains, lowercase, seq_contains, string_of, to_lower,
};

verus! {

/// Most entries the recent-files list holds.
pub const RECENT_LIMIT: usize = 100;

/// An entry: (action, path, time).
pub type Entry = (Seq<char>, Seq<char>, Seq<char>);

/// Entries for files of one kind, most recent first.
pub open spec fn tagged(files: Seq<Seq<char>>, tag: Seq<char>, time: Seq<char>) -> Seq<Entry> {
    files.reverse().map_values(|f: Seq<char>| (tag, f, time))
}

/// The entries of a past run: its completed files, most recent first, or else its copied,
/// modified and deleted files, stamped with the run's time.
pub open spec fn run_entries(r: RunV) -> Seq<Entry> {
    if r.synced.len() > 0 {
        r.synced.reverse()
    } else {
        tagged(r.copied, "new"@, r.time) + tagged(r.modified, "modified"@, r.time) + tagged(
            r.deleted,
            "deleted"@,
            r.time,
        )
    }
}

/// `list` followed by the entries of `runs`, run after run, stopping after the run that
/// brings the list to `RECENT_LIMIT` entries or more.
pub open spec fn gather(list: Seq<Entry>, runs: Seq<RunV>) -> Seq<Entry>
    decreases runs.len(),
{
    if runs.len() == 0 {
        list
    } else {
        let l2 = list + run_entries(runs[0]);
        if l2.len() >= RECENT_LIMIT {
            l2
        } else {
            gather(l2, runs.drop_first())
        }
    }
}

/// The entries whose lower-cased path contains `q`.
pub open spec fn matching(list: Seq<Entry>, q: Seq<char>) -> Seq<Entry>
    decreases list.len(),
{
    if list.len() == 0 {
        list
    } else {
        let rest = matching(list.drop_last(), q);
        if seq_contains(lowercase(list.last().1), q) {
            rest.push(list.last())
        } else {
            rest
        }
    }
}

/// The recent-files list: files of the live sync (most recent first), then those of the past
/// runs; when a search text is set, only paths containing it (ignoring case); at most
/// `RECENT_LIMIT` entries.
pub open spec fn recent_spec(live: Seq<Entry>, runs: Seq<RunV>, filter: Seq<char>) -> Seq<Entry> {
    let all = gather(live.reverse(), runs);
    let kept = if filter.len() == 0 {
        all
    } else {
        matching(all, lowercase(filter))
    };
    if kept.len() > RECENT_LIMIT {
        kept.take(RECENT_LIMIT as int)
    } else {
        kept
    }
}

/// View of a completed file of the live sync.
pub open spec fn live_entry(f: SyncedFile) -> Entry {
    (action_name(f.action), f.path@, f.time@)
}

/// Views of a list of entries.
pub open spec fn entries_view(v: Seq<(String, String, String)>) -> Seq<Entry> {
    v.map_values(|t: (String, String, String)| triple_view(t))
}

fn push_entry(out: &mut Vec<(String, String, String)>, a: String, p: String, t: String)
    ensures
        entries_view(final(out)@) == entries_view(old(out)@).push((a@, p@, t@)),
{
    let ghost before = out@;
    out.push((a, p, t));
    assert(entries_view(out@) =~= entries_view(before).push((a@, p@, t@)));
}

fn push_tagged(out: &mut Vec<(String, String, String)>, files: &Vec<String>, tag: &str, time: &String)
    ensures
        entries_view(final(out)@) == entries_view(old(out)@) + tagged(sv(files@), tag@, time@),
{
    let ghost start = entries_view(out@);
    let ghost t = tagged(sv(files@), tag@, time@);
    let mut k: usize = files.len();
    while k > 0
        invariant
            k <= files.len(),
            t == tagged(sv(files@), tag@, time@),
            t.len() == files.len(),
            entries_view(out@) == start + t.take(files.len() - k),
        decreases k,
    {
        k = k - 1;
        assert(t[files.len() - 1 - k] == (tag@, files@[k as int]@, time@));
        push_entry(out, String::from_str(tag), files[k].clone(), time.clone());
        assert(t.take(files.len() - k) =~= t.take(files.len() - 1 - k).push(t[files.len() - 1 - k]));
    }
    assert(t.take(files.len() as int) =~= t);
}

fn push_run_entries(out: &mut Vec<(String, String, String)>, r: &PastRun)
    ensures
        entries_view(final(out)@) == entries_view(old(out)@) + run_entries(run_view(*r)),
{
    if r.synced_files.len() > 0 {
        let ghost start = entries_view(out@);
        let ghost t = run_view(*r).synced.reverse();
        let n = r.synced_files.len();
        let mut k: usize = n;
        while k > 0
            invariant
                k <= n,
                n == r.synced_files.len(),
                t == run_view(*r).synced.reverse(),
                t.len() == n,
                entries_view(out@) == start + t.take(n - k),
            decreases k,
        {
            k = k - 1;
            let e = &r.synced_files[k];
            assert(t[n - 1 - k] == triple_view(r.synced_files@[k as int]));
            push_entry(out, e.0.clone(), e.1.clone(), e.2.clone());
            assert(t.take(n - k) =~= t.take(n - 1 - k).push(t[n - 1 - k]));
        }
        assert(t.take(n as int) =~= t);
    } else {
        let ghost start = entries_view(out@);
        push_tagged(out, &r.files_copied, "new", &r.time);
        push_tagged(out, &r.files_modified, "modified", &r.time);
        push_tagged(out, &r.files_deleted, "deleted", &r.time);
        assert(entries_view(out@) =~= start + run_entries(run_view(*r)));
    }
}

/// The recent-files list as `(action, path, time)` (see `recent_spec`). `live` are the
/// completed files of the sync under way, `past_runs` the history (most recent first) and
/// `filter` the search text. The dashboard adds each file's size.
pub fn recent_files(live: &Vec<SyncedFile>, past_runs: &Vec<PastRun>, filter: &str) -> (r: Vec<(String, String, String)>)
    ensures
        entries_view(r@) == recent_spec(
            live@.map_values(|f: SyncedFile| live_entry(f)),
            runs_view(past_runs@),
            filter@,
        ),
{
    let ghost lv = live@.map_values(|f: SyncedFile| live_entry(f));
    let ghost rv = runs_view(past_runs@);
    let mut list: Vec<(String, String, String)> = Vec::new();
    let mut k: usize = live.len();
    while k > 0
        invariant
            k <= live.len(),
            lv == live@.map_values(|f: SyncedFile| live_entry(f)),
            entries_view(list@) == lv.reverse().take(live.len() - k),
        decreases k,
    {
        k = k - 1;
        let f = &live[k];
        assert(lv.reverse()[live.len() - 1 - k] == live_entry(live@[k as int]));
        push_entry(&mut list, f.action.to_string(), f.path.clone(), f.time.clone());
        assert(lv.reverse().take(live.len() - k) =~= lv.reverse().take(live.len() - 1 - k).push(
            lv.reverse()[live.len() - 1 - k],
        ));
    }
    assert(lv.reverse().take(live.len() as int) =~= lv.reverse());
    let mut i: usize = 0;
    assert(rv.skip(0) =~= rv);
    while i < past_runs.len() && (i == 0 || list.len() < RECENT_LIMIT)
        invariant
            i <= past_runs.len(),
            rv == runs_view(past_runs@),
            rv.len() == past_runs.len(),
            gather(lv.reverse(), rv) == (if i > 0 && entries_view(list@).len() >= RECENT_LIMIT {
                entries_view(list@)
            } else {
                gather(entries_view(list@), rv.skip(i as int))
            }),
        decreases past_runs.len() - i,
    {
        assert(rv.skip(i as int)[0] == run_view(past_runs@[i as int]));
        assert(rv.skip(i as int).drop_first() =~= rv.skip(i + 1));
        push_run_entries(&mut list, &past_runs[i]);
        i = i + 1;
    }
    assert(gather(lv.reverse(), rv) == entries_view(list@)) by {
        if i == past_runs.len() {
            assert(rv.skip(i as int) =~= Seq::<RunV>::empty());
        }
    }
    let ghost all = entries_view(list@);
    let fc = chars_of(filter);
    let mut kept: Vec<(String, String, String)> = Vec::new();
    if fc.len() == 0 {
        kept = list;
    } else {
        let q = to_lower(&fc);
        let mut j: usize = 0;
        while j < list.len()
            invariant
                j <= list.len(),
                all == entries_view(list@),
                entries_view(kept@) == matching(all.take(j as int), q@),
            decreases list.len() - j,
        {
            assert(all.take(j + 1).drop_last() =~= all.take(j as int));
            assert(all.take(j + 1).last() == triple_view(list@[j as int]));
            let pl = to_lower(&chars_of(list[j].1.as_str()));
            if contains(&pl, &q) {
                let e = &list[j];
                push_entry(&mut kept, e.0.clone(), e.1.clone(), e.2.clone());
            }
            j = j + 1;
        }
        assert(all.take(list.len() as int) =~= all);
    }
    if kept.len() > RECENT_LIMIT {
        let ghost kv = entries_view(kept@);
        kept.truncate(RECENT_LIMIT);
        assert(entries_view(kept@) =~= kv.take(RECENT_LIMIT as int));
    }
    kept
}

// ---------------------------------------------------------------------------
// Clipboard text of a run
// ---------------------------------------------------------------------------

/// Name of a run status (`{:?}`).
pub open spec fn status_name(s: RunStatus) -> Seq<char> {
    match s {
        RunStatus::Success => "Success"@,
        RunStatus::Failed => "Failed"@,
        RunStatus::Skipped => "Skipped"@,
    }
}

/// The errors, one per line, each after a bullet.
pub open spec fn bullet_lines(errs: Seq<Seq<char>>) -> Seq<char> {
    crate::text::join_lines(errs.map_values(|e: Seq<char>| "• "@ + e))
}

/// The text copied for a run: its errors when it has some, else its status, duration and
/// file counts.
pub open spec fn run_text(r: RunV) -> Seq<char> {
    let head = "Run #"@ + decimal(r.id as nat) + " ("@ + r.date + seq![' '] + r.time + ")"@;
    if r.errors.len() > 0 {
        head + " - "@ + decimal(r.errors.len()) + " errors detected:\n"@ + bullet_lines(r.errors)
    } else {
        head + " - Status: "@ + status_name(r.status) + " (Duration: "@ + r.duration + ")\nFiles copied: "@
            + decimal(r.copied.len()) + "\nFiles modified: "@ + decimal(r.modified.len())
            + "\nFiles deleted: "@ + decimal(r.deleted.len())
    }
}

/// The text copied to the clipboard for a run of the history (see `run_text`).
pub fn run_clipboard_text(run: &PastRun) -> (r: String)
    ensures
        r@ == run_text(run_view(*run)),
{
    let ghost rv = run_view(*run);
    let mut v = chars_of("Run #");
    append_chars(&mut v, &decimal_exec(run.id as u64));
    append_str(&mut v, " (");
    append_str(&mut v, run.date.as_str());
    v.push(' ');
    append_str(&mut v, run.time.as_str());
    append_str(&mut v, ")");
    if run.errors.len() > 0 {
        append_str(&mut v, " - ");
        append_chars(&mut v, &decimal_exec(run.errors.len() as u64));
        append_str(&mut v, " errors detected:\n");
        let mut lines: Vec<Vec<char>> = Vec::new();
        let mut i: usize = 0;
        while i < run.errors.len()
            invariant
                i <= run.errors.len(),
                lines@.len() == i,
                forall|j: int| 0 <= j < i ==> #[trigger] lines@[j]@ == "• "@ + run.errors@[j]@,
            decreases run.errors.len() - i,
        {
            let mut l = chars_of("• ");
            append_str(&mut l, run.errors[i].as_str());
            lines.push(l);
            i = i + 1;
        }
        assert(lines@.map_values(|l: Vec<char>| l@) =~= rv.errors.map_values(|e: Seq<char>| "• "@ + e));
        append_chars(&mut v, &crate::text::join_lines_exec(&lines));
    } else {
        append_str(&mut v, " - Status: ");
        append_str(
            &mut v,
            match run.status {
                RunStatus::Success => "Success",
                RunStatus::Failed => "Failed",
                RunStatus::Skipped => "Skipped",
            },
        );
        append_str(&mut v, " (Duration: ");
        append_str(&mut v, run.duration.as_str());
        append_str(&mut v, ")\nFiles copied: ");
        append_chars(&mut v, &decimal_exec(run.files_copied.len() as u64));
        append_str(&mut v, "\nFiles modified: ");
        append_chars(&mut v, &decimal_exec(run.files_modified.len() as u64));
        append_str(&mut v, "\nFiles deleted: ");
        append_chars(&mut v, &decimal_exec(run.files_deleted.len() as u64));
    }
    assert(v@ =~= run_text(rv));
    string_of(&v)
}

} // verus!

//! Figures shown on the dashboard's overview: failures in a row, today's runs and
//! conflicts, whether a sync is under way, and the UI refresh rate steps.
use vstd::prelude::*;
use crate::history::{PastRun, RunStatus, RunV, runs_view};
use crate::settings::tick_steps;
use crate::systemd::ServiceState;
use crate::text::{chars_of, contains_str, lowercase, seq_contains, seq_eq, to_lower};

verus! {

/// Number of failed runs at the head of `runs` (the most recent first).
pub open spec fn leading_failures(runs: Seq<RunV>) -> nat
    decreases runs.len(),
{
    if runs.len() > 0 && runs[0].status == RunStatus::Failed {
        1 + leading_failures(runs.drop_first())
    } else {
        0
    }
}

/// Number of consecutive failed runs, counted from the most recent.
pub fn consecutive_failures(runs: &Vec<PastRun>) -> (r: usize)
    ensures
        r == leading_failures(runs_view(runs@)),
{
    let ghost rv = runs_view(runs@);
    let mut i: usize = 0;
    assert(rv.skip(0) =~= rv);
    while i < runs.len() && runs[i].status == RunStatus::Failed
        invariant
            i <= runs.len(),
            rv == runs_view(runs@),
            rv.len() == runs.len(),
            leading_failures(rv) == i + leading_failures(rv.skip(i as int)),
        decreases runs.len() - i,
    {
        assert(rv.skip(i as int).drop_first() =~= rv.skip(i + 1));
        i = i + 1;
    }
    i
}

/// A run that went through (successful or skipped).
pub open spec fn run_ok(r: RunV) -> bool {
    r.status == RunStatus::Success || r.status == RunStatus::Skipped
}

/// `(succeeded, failed)` counts of the runs of `runs` dated `today`.
pub open spec fn today_counts(runs: Seq<RunV>, today: Seq<char>) -> (nat, nat)
    decreases runs.len(),
{
    if runs.len() == 0 {
        (0, 0)
    } else {
        let rest = today_counts(runs.drop_last(), today);
        let r = runs.last();
        if r.date == today && run_ok(r) {
            (rest.0 + 1, rest.1)
        } else if r.date == today && r.status == RunStatus::Failed {
            (rest.0, rest.1 + 1)
        } else {
            rest
        }
    }
}

/// Numbers of runs dated `today` that went through and that failed.
pub fn runs_today_stats(runs: &Vec<PastRun>, today: &str) -> (r: (usize, usize))
    ensures
        r.0 == today_counts(runs_view(runs@), today@).0,
        r.1 == today_counts(runs_view(runs@), today@).1,
{
    let ghost rv = runs_view(runs@);
    let t = chars_of(today);
    let mut ok: usize = 0;
    let mut err: usize = 0;
    let mut i: usize = 0;
    while i < runs.len()
        invariant
            i <= runs.len(),
            rv == runs_view(runs@),
            rv.len() == runs.len(),
            t@ == today@,
            ok == today_counts(rv.take(i as int), today@).0,
            err == today_counts(rv.take(i as int), today@).1,
            ok + err <= i,
        decreases runs.len() - i,
    {
        assert(rv.take(i + 1).drop_last() =~= rv.take(i as int));
        let d = chars_of(runs[i].date.as_str());
        if seq_eq(&d, &t) {
            if runs[i].status == RunStatus::Success || runs[i].status == RunStatus::Skipped {
                ok = ok + 1;
            } else if runs[i].status == RunStatus::Failed {
                err = err + 1;
            }
        }
        i = i + 1;
    }
    assert(rv.take(runs.len() as int) =~= rv);
    (ok, err)
}

/// Number of runs of `runs` that went through.
pub open spec fn ok_count(runs: Seq<RunV>) -> nat
    decreases runs.len(),
{
    if runs.len() == 0 {
        0
    } else {
        ok_count(runs.drop_last()) + if run_ok(runs.last()) {
            1nat
        } else {
            0nat
        }
    }
}

proof fn lemma_ok_count_bound(runs: Seq<RunV>)
    ensures
        ok_count(runs) <= runs.len(),
    decreases runs.len(),
{
    if runs.len() > 0 {
        lemma_ok_count_bound(runs.drop_last());
    }
}

/// The figures of the success rate: how many of the past runs went through (successful or
/// skipped), and how many runs there are. The rate itself is `ok / total`, 100 % with no run.
pub fn success_counts(runs: &Vec<PastRun>) -> (r: (usize, usize))
    ensures
        r.0 == ok_count(runs_view(runs@)),
        r.1 == runs@.len(),
        r.0 <= r.1,
{
    let ghost rv = runs_view(runs@);
    let mut ok: usize = 0;
    let mut i: usize = 0;
    while i < runs.len()
        invariant
            i <= runs.len(),
            rv == runs_view(runs@),
            rv.len() == runs.len(),
            ok == ok_count(rv.take(i as int)),
            ok <= i,
        decreases runs.len() - i,
    {
        assert(rv.take(i + 1).drop_last() =~= rv.take(i as int));
        if runs[i].status == RunStatus::Success || runs[i].status == RunStatus::Skipped {
            ok = ok + 1;
        }
        i = i + 1;
    }
    assert(rv.take(runs.len() as int) =~= rv);
    (ok, runs.len())
}

/// `v` brought into `lo..=hi`.
pub open spec fn clamp_u8(v: u8, lo: u8, hi: u8) -> u8 {
    if v < lo {
        lo
    } else if v > hi {
        hi
    } else {
        v
    }
}

/// Overall progress of a synchronisation, in percent: 0 when none runs and 100 once it is
/// done; otherwise rclone's own percentage (kept within 1..=99), else the share of files
/// transferred (`file_pct`, the percentage of `files_done / files_total` rounded down, within
/// 1..=99 when above 0), else a figure for the phase: listing 10 to 20 (one more per second
/// elapsed, `elapsed_secs`), 25 for the remote differences, 40 to 60 for the local ones
/// (`check_pct`, 40 plus 20 times the share of checks done, rounded; 50 before any check),
/// 70 while applying and 95 while updating the listings.
pub open spec fn progress_pct_of(
    syncing: bool,
    phase_index: usize,
    transfer_pct: u8,
    files_done: u32,
    files_total: u32,
    file_pct: u8,
    elapsed_secs: Option<u64>,
    checks_done: u32,
    checks_total: u32,
    check_pct: u8,
) -> u8 {
    if !syncing {
        0
    } else if phase_index >= 5 {
        100
    } else if transfer_pct > 0 {
        clamp_u8(transfer_pct, 1, 99)
    } else if files_total > 0 && files_done > 0 && file_pct > 0 {
        clamp_u8(file_pct, 1, 99)
    } else if phase_index == 0 {
        match elapsed_secs {
            Some(secs) => (10 + if secs < 10 {
                secs as int
            } else {
                10
            }) as u8,
            None => 10,
        }
    } else if phase_index == 1 {
        25
    } else if phase_index == 2 {
        if checks_total > 0 && checks_done > 0 {
            check_pct
        } else {
            50
        }
    } else if phase_index == 3 {
        70
    } else {
        95
    }
}

/// Overall progress of a synchronisation (see `progress_pct_of`). The two ratios, taken in
/// floating point, come in as their percentages: `file_pct` for the files and `check_pct`
/// for the checks; `elapsed_secs` is the time since the start, when one is recorded.
pub fn overall_progress_pct(
    syncing: bool,
    phase_index: usize,
    transfer_pct: u8,
    files_done: u32,
    files_total: u32,
    file_pct: u8,
    elapsed_secs: Option<u64>,
    checks_done: u32,
    checks_total: u32,
    check_pct: u8,
) -> (r: u8)
    ensures
        r == progress_pct_of(
            syncing,
            phase_index,
            transfer_pct,
            files_done,
            files_total,
            file_pct,
            elapsed_secs,
            checks_done,
            checks_total,
            check_pct,
        ),
{
    if !syncing {
        return 0;
    }
    if phase_index >= 5 {
        return 100;
    }
    if transfer_pct > 0 {
        return if transfer_pct < 1 {
            1
        } else if transfer_pct > 99 {
            99
        } else {
            transfer_pct
        };
    }
    if files_total > 0 && files_done > 0 && file_pct > 0 {
        return if file_pct > 99 {
            99
        } else {
            file_pct
        };
    }
    if phase_index == 0 {
        match elapsed_secs {
            Some(secs) => {
                let add: u8 = if secs < 10 {
                    secs as u8
                } else {
                    10
                };
                10 + add
            },
            None => 10,
        }
    } else if phase_index == 1 {
        25
    } else if phase_index == 2 {
        if checks_total > 0 && checks_done > 0 {
            check_pct
        } else {
            50
        }
    } else if phase_index == 3 {
        70
    } else {
        95
    }
}

/// Number of errors of `errs` that mention a conflict (in any case).
pub open spec fn conflict_count(errs: Seq<Seq<char>>) -> nat
    decreases errs.len(),
{
    if errs.len() == 0 {
        0
    } else {
        conflict_count(errs.drop_last()) + if seq_contains(lowercase(errs.last()), "conflict"@) {
            1nat
        } else {
            0nat
        }
    }
}

/// Number of conflict errors in the runs of `runs` dated `today`.
pub open spec fn today_conflicts(runs: Seq<RunV>, today: Seq<char>) -> nat
    decreases runs.len(),
{
    if runs.len() == 0 {
        0
    } else {
        today_conflicts(runs.drop_last(), today) + if runs.last().date == today {
            conflict_count(runs.last().errors)
        } else {
            0
        }
    }
}

proof fn lemma_conflict_count_bound(errs: Seq<Seq<char>>)
    ensures
        conflict_count(errs) <= errs.len(),
    decreases errs.len(),
{
    if errs.len() > 0 {
        lemma_conflict_count_bound(errs.drop_last());
    }
}

/// Number of errors mentioning a conflict in the runs dated `today`.
pub fn conflicts_today_stats(runs: &Vec<PastRun>, today: &str) -> (r: usize)
    requires
        today_conflicts(runs_view(runs@), today@) <= usize::MAX,
    ensures
        r == today_conflicts(runs_view(runs@), today@),
{
    let ghost rv = runs_view(runs@);
    let t = chars_of(today);
    let mut n: usize = 0;
    let mut i: usize = 0;
    while i < runs.len()
        invariant
            i <= runs.len(),
            rv == runs_view(runs@),
            rv.len() == runs.len(),
            t@ == today@,
            n == today_conflicts(rv.take(i as int), today@),
            today_conflicts(rv, today@) <= usize::MAX,
        decreases runs.len() - i,
    {
        assert(rv.take(i + 1).drop_last() =~= rv.take(i as int));
        proof {
            lemma_today_conflicts_prefix(rv, today@, i + 1);
        }
        let d = chars_of(runs[i].date.as_str());
        if seq_eq(&d, &t) {
            let errs = &runs[i].errors;
            let ghost ev = rv[i as int].errors;
            let mut j: usize = 0;
            let mut c: usize = 0;
            while j < errs.len()
                invariant
                    j <= errs.len(),
                    ev == errs@.map_values(|e: String| e@),
                    c == conflict_count(ev.take(j as int)),
                    n + conflict_count(ev) <= usize::MAX,
                decreases errs.len() - j,
            {
                assert(ev.take(j + 1).drop_last() =~= ev.take(j as int));
                proof {
                    lemma_conflict_prefix(ev, j + 1);
                }
                let ll = to_lower(&chars_of(errs[j].as_str()));
                if contains_str(&ll, "conflict") {
                    c = c + 1;
                }
                j = j + 1;
            }
            assert(ev.take(errs.len() as int) =~= ev);
            n = n + c;
        }
        i = i + 1;
    }
    assert(rv.take(runs.len() as int) =~= rv);
    n
}

proof fn lemma_conflict_prefix(errs: Seq<Seq<char>>, k: int)
    requires
        0 <= k <= errs.len(),
    ensures
        conflict_count(errs.take(k)) <= conflict_count(errs),
    decreases errs.len() - k,
{
    if k < errs.len() {
        lemma_conflict_prefix(errs, k + 1);
        assert(errs.take(k + 1).drop_last() =~= errs.take(k));
    } else {
        assert(errs.take(k) =~= errs);
    }
}

proof fn lemma_today_conflicts_prefix(runs: Seq<RunV>, today: Seq<char>, k: int)
    requires
        0 <= k <= runs.len(),
    ensures
        today_conflicts(runs.take(k), today) <= today_conflicts(runs, today),
    decreases runs.len() - k,
{
    if k < runs.len() {
        lemma_today_conflicts_prefix(runs, today, k + 1);
        assert(runs.take(k + 1).drop_last() =~= runs.take(k));
    } else {
        assert(runs.take(k) =~= runs);
    }
}

/// A sync is under way when the log or the service says so and the last phase is not
/// reached yet.
pub open spec fn syncing(live: bool, state: ServiceState, phase_index: usize) -> bool {
    (live || state == ServiceState::Active) && phase_index < 5
}

/// Whether a sync is under way.
pub fn is_syncing(live_syncing: bool, state: ServiceState, phase_index: usize) -> (r: bool)
    ensures
        r == syncing(live_syncing, state, phase_index),
{
    (live_syncing || state == ServiceState::Active) && phase_index < 5
}

/// Number of history rows: the past runs, plus one for the sync under way.
pub fn total_history_runs(past_runs: usize, syncing_now: bool) -> (r: usize)
    requires
        past_runs < usize::MAX,
    ensures
        r == past_runs + if syncing_now {
            1usize
        } else {
            0usize
        },
{
    if syncing_now {
        past_runs + 1
    } else {
        past_runs
    }
}

// ---------------------------------------------------------------------------
// UI refresh rate
// ---------------------------------------------------------------------------

/// Distance between two rates.
pub open spec fn rate_gap(a: u64, b: u64) -> int {
    if a >= b {
        a - b
    } else {
        b - a
    }
}

/// Index of the first step of `steps[..k]` closest to `current`.
pub open spec fn closest_upto(steps: Seq<u64>, current: u64, k: int) -> int
    decreases k,
{
    if k <= 1 {
        0
    } else {
        let best = closest_upto(steps, current, k - 1);
        if rate_gap(steps[k - 1], current) < rate_gap(steps[best], current) {
            k - 1
        } else {
            best
        }
    }
}

/// Index of the first step closest to `current`.
pub open spec fn closest_step(current: u64) -> int {
    closest_upto(tick_steps(), current, tick_steps().len() as int)
}

/// The rate after one step towards faster (shorter) or slower (longer) refreshes, from the
/// step closest to the current rate; it stays at the first or last step.
pub open spec fn stepped_rate(current: u64, faster: bool) -> u64 {
    let pos = closest_step(current);
    let next = if faster {
        if pos > 0 {
            pos - 1
        } else {
            0
        }
    } else if pos + 1 < tick_steps().len() {
        pos + 1
    } else {
        tick_steps().len() - 1
    };
    tick_steps()[next]
}

proof fn lemma_closest_bounds(steps: Seq<u64>, current: u64, k: int)
    requires
        1 <= k <= steps.len(),
    ensures
        0 <= closest_upto(steps, current, k) < k,
    decreases k,
{
    if k > 1 {
        lemma_closest_bounds(steps, current, k - 1);
    }
}

/// The refresh rate one step faster or slower than `current` (milliseconds).
pub fn step_tick_rate(current: u64, faster: bool) -> (r: u64)
    ensures
        r == stepped_rate(current, faster),
{
    let steps = crate::settings::tick_rate_steps();
    let mut best: usize = 0;
    let mut i: usize = 1;
    while i < steps.len()
        invariant
            1 <= i <= steps.len(),
            steps@ == tick_steps(),
            best as int == closest_upto(steps@, current, i as int),
            best < i,
        decreases steps.len() - i,
    {
        let gi: u64 = if steps[i] >= current {
            steps[i] - current
        } else {
            current - steps[i]
        };
        let gb: u64 = if steps[best] >= current {
            steps[best] - current
        } else {
            current - steps[best]
        };
        if gi < gb {
            best = i;
        }
        i = i + 1;
    }
    let next: usize = if faster {
        if best > 0 {
            best - 1
        } else {
            0
        }
    } else if best + 1 < steps.len() {
        best + 1
    } else {
        steps.len() - 1
    };
    steps[next]
}

/// Whether the refresh rate can still be made faster.
pub fn can_dec_tick_rate(current: u64) -> (r: bool)
    ensures
        r == (current > tick_steps()[0]),
{
    current > 100
}

/// Whether the refresh rate can still be made slower.
pub fn can_inc_tick_rate(current: u64) -> (r: bool)
    ensures
        r == (current < tick_steps()[tick_steps().len() - 1]),
{
    current < 10000
}

/// Each step is its own closest step when the steps are distinct.
proof fn lemma_closest_self(steps: Seq<u64>, j: int, k: int)
    requires
        forall|a: int, b: int| 0 <= a < b < steps.len() ==> steps[a] != steps[b],
        0 <= j < k <= steps.len(),
    ensures
        closest_upto(steps, steps[j], k) == j,
    decreases k,
{
    if k == j + 1 {
        if j > 0 {
            lemma_closest_bounds(steps, steps[j], j);
            let b = closest_upto(steps, steps[j], j);
            assert(steps[b] != steps[j]);
        }
    } else {
        lemma_closest_self(steps, j, k - 1);
        assert(steps[j] != steps[k - 1]);
    }
}

/// The refresh-rate steps are increasing.
proof fn lemma_tick_steps_increasing()
    ensures
        forall|a: int, b: int| 0 <= a < b < tick_steps().len() ==> tick_steps()[a] < tick_steps()[b],
{
    let s = tick_steps();
    assert(s.len() == 22);
    assert forall|a: int| 0 <= a < 21 implies #[trigger] s[a] < s[a + 1] by {
        assert(s[0] < s[1] && s[1] < s[2] && s[2] < s[3] && s[3] < s[4] && s[4] < s[5]);
        assert(s[5] < s[6] && s[6] < s[7] && s[7] < s[8] && s[8] < s[9] && s[9] < s[10]);
        assert(s[10] < s[11] && s[11] < s[12] && s[12] < s[13] && s[13] < s[14]);
        assert(s[14] < s[15] && s[15] < s[16] && s[16] < s[17] && s[17] < s[18]);
        assert(s[18] < s[19] && s[19] < s[20] && s[20] < s[21]);
    }
    assert forall|a: int, b: int| 0 <= a < b < s.len() implies s[a] < s[b] by {
        lemma_increasing_chain(s, a, b);
    }
}

proof fn lemma_increasing_chain(s: Seq<u64>, a: int, b: int)
    requires
        0 <= a < b < s.len(),
        forall|k: int| 0 <= k < s.len() - 1 ==> #[trigger] s[k] < s[k + 1],
    ensures
        s[a] < s[b],
    decreases b - a,
{
    if b > a + 1 {
        lemma_increasing_chain(s, a, b - 1);
        assert(s[b - 1] < s[b]);
    } else {
        assert(s[a] < s[a + 1]);
    }
}

/// Stepping faster then slower from a listed rate comes back to it, except from the
/// fastest rate, where the faster step stays put.
pub proof fn law_tick_step_round_trip(i: int)
    requires
        1 <= i < tick_steps().len(),
    ensures
        stepped_rate(stepped_rate(tick_steps()[i], true), false) == tick_steps()[i],
{
    lemma_tick_steps_increasing();
    let s = tick_steps();
    lemma_closest_self(s, i, s.len() as int);
    lemma_closest_self(s, i - 1, s.len() as int);
}

/// Stepping slower then faster from a listed rate comes back to it, except from the
/// slowest rate.
pub proof fn law_tick_step_round_trip_slower(i: int)
    requires
        0 <= i < tick_steps().len() - 1,
    ensures
        stepped_rate(stepped_rate(tick_steps()[i], false), true) == tick_steps()[i],
{
    lemma_tick_steps_increasing();
    let s = tick_steps();
    lemma_closest_self(s, i, s.len() as int);
    lemma_closest_self(s, i + 1, s.len() as int);
}

} // verus!

verus! {

/// A `ps` line of the running rclone sync (and not of a watcher of it).
pub open spec fn sync_process_line(l: Seq<char>) -> bool {
    &&& seq_contains(l, "rclone"@)
    &&& (seq_contains(l, "bisync"@) || seq_contains(l, "sync"@))
    &&& !seq_contains(l, "grep"@)
    &&& !seq_contains(l, "journalctl"@)
    &&& !seq_contains(l, "rclonedash"@)
}

/// Elapsed seconds of the first sync process line of `ls` whose first column is a number.
pub open spec fn sync_elapsed_in(ls: Seq<Seq<char>>) -> Option<nat>
    decreases ls.len(),
{
    if ls.len() == 0 {
        None
    } else if sync_process_line(ls[0]) && crate::text::words(ls[0]).len() > 0
        && crate::numparse::parse_unsigned(crate::text::words(ls[0])[0], u64::MAX as nat).is_some() {
        crate::numparse::parse_unsigned(crate::text::words(ls[0])[0], u64::MAX as nat)
    } else {
        sync_elapsed_in(ls.drop_first())
    }
}

/// Seconds the running rclone sync has been going, from the output of `ps -eo etimes,args`.
pub fn running_sync_elapsed(ps_output: &str) -> (r: Option<u64>)
    ensures
        match r {
            Some(v) => sync_elapsed_in(crate::text::lines(ps_output@)) == Some(v as nat),
            None => sync_elapsed_in(crate::text::lines(ps_output@)).is_none(),
        },
{
    let ls = crate::text::lines_exec(&chars_of(ps_output));
    let ghost lv = ls@.map_values(|l: Vec<char>| l@);
    let mut i: usize = 0;
    assert(lv.skip(0) =~= lv);
    while i < ls.len()
        invariant
            i <= ls.len(),
            lv == ls@.map_values(|l: Vec<char>| l@),
            lv == crate::text::lines(ps_output@),
            sync_elapsed_in(lv.skip(i as int)) == sync_elapsed_in(lv),
        decreases ls.len() - i,
    {
        assert(lv.skip(i as int).drop_first() =~= lv.skip(i + 1));
        let l = &ls[i];
        assert(lv.skip(i as int)[0] == l@);
        let candidate = contains_str(l, "rclone") && (contains_str(l, "bisync") || contains_str(l, "sync"))
            && !contains_str(l, "grep") && !contains_str(l, "journalctl") && !contains_str(l, "rclonedash");
        if candidate {
            let ws = crate::text::words_exec(l);
            if ws.len() > 0 {
                assert(ws@.map_values(|w: Vec<char>| w@)[0] == ws@[0]@);
                match crate::numparse::parse_unsigned_exec(&ws[0], u64::MAX) {
                    Some(v) => {
                        return Some(v);
                    },
                    None => {},
                }
            }
        }
        i = i + 1;
    }
    None
}

} // verus!

verus! {

/// View of an alert: level, message and hint.
pub open spec fn alert_view(a: crate::dashboard::Alert) -> (crate::dashboard::AlertLevel, Seq<char>, Option<Seq<char>>) {
    (a.level, a.message@, match a.hint {
        Some(h) => Some(h@),
        None => None,
    })
}

/// The alerts of the dashboard, in order: a resync request, two failed runs or more in a
/// row, a sync running for more than five minutes, a local disk more than 90% full.
/// `sync_seconds` is the duration of the sync under way (none when there is none) and
/// `disk_pct` the used share of the local disk, in whole percent.
pub open spec fn alerts_spec(resync_needed: bool, failures: nat, sync_seconds: Option<u64>, disk_pct: u64) -> Seq<(crate::dashboard::AlertLevel, Seq<char>, Option<Seq<char>>)> {
    let a1 = if resync_needed {
        seq![(crate::dashboard::AlertLevel::Error, "Critical bisync error: corrupted or missing listings."@, Some("Press 'r' to resynchronize (--resync)"@))]
    } else {
        Seq::empty()
    };
    let a2 = if failures >= 2 {
        seq![(crate::dashboard::AlertLevel::Error, crate::numparse::decimal(failures) + " consecutive sync failures!"@, Some("Inspect logs to view error details"@))]
    } else {
        Seq::empty()
    };
    let a3 = match sync_seconds {
        Some(d) => if d > 300 {
            seq![(crate::dashboard::AlertLevel::Warning, "Abnormally long sync duration ("@ + crate::numparse::decimal((d / 60) as nat) + " min "@ + crate::numparse::decimal((d % 60) as nat) + " s)"@, Some("Press 'c' to force abort if stuck"@))]
        } else {
            Seq::empty()
        },
        None => Seq::empty(),
    };
    let a4 = if disk_pct > 90 {
        seq![(crate::dashboard::AlertLevel::Error, "Critical local disk space ("@ + crate::numparse::decimal(disk_pct as nat) + ".0% used)!"@, Some("Free up space on the local partition"@))]
    } else {
        Seq::empty()
    };
    a1 + a2 + a3 + a4
}

fn alert(level: crate::dashboard::AlertLevel, message: Vec<char>, hint: &str) -> (r: crate::dashboard::Alert)
    ensures
        alert_view(r) == (level, message@, Some(hint@)),
{
    crate::dashboard::Alert { level, message: crate::text::string_of(&message), hint: Some(String::from_str(hint)) }
}

/// The alerts to show (see `alerts_spec`).
pub fn active_alerts(resync_needed: bool, failures: usize, sync_seconds: Option<u64>, disk_pct: u64) -> (r: Vec<crate::dashboard::Alert>)
    ensures
        r@.map_values(|a: crate::dashboard::Alert| alert_view(a)) == alerts_spec(
            resync_needed,
            failures as nat,
            sync_seconds,
            disk_pct,
        ),
{
    let mut out: Vec<crate::dashboard::Alert> = Vec::new();
    if resync_needed {
        out.push(alert(
            crate::dashboard::AlertLevel::Error,
            chars_of("Critical bisync error: corrupted or missing listings."),
            "Press 'r' to resynchronize (--resync)",
        ));
    }
    if failures >= 2 {
        let mut m = crate::numparse::decimal_exec(failures as u64);
        crate::text::append_str(&mut m, " consecutive sync failures!");
        out.push(alert(crate::dashboard::AlertLevel::Error, m, "Inspect logs to view error details"));
    }
    if let Some(d) = sync_seconds {
        if d > 300 {
            let mut m = chars_of("Abnormally long sync duration (");
            crate::text::append_chars(&mut m, &crate::numparse::decimal_exec(d / 60));
            crate::text::append_str(&mut m, " min ");
            crate::text::append_chars(&mut m, &crate::numparse::decimal_exec(d % 60));
            crate::text::append_str(&mut m, " s)");
            out.push(alert(crate::dashboard::AlertLevel::Warning, m, "Press 'c' to force abort if stuck"));
        }
    }
    if disk_pct > 90 {
        let mut m = chars_of("Critical local disk space (");
        crate::text::append_chars(&mut m, &crate::numparse::decimal_exec(disk_pct));
        crate::text::append_str(&mut m, ".0% used)!");
        out.push(alert(crate::dashboard::AlertLevel::Error, m, "Free up space on the local partition"));
    }
    assert(out@.map_values(|a: crate::dashboard::Alert| alert_view(a)) =~= alerts_spec(
        resync_needed,
        failures as nat,
        sync_seconds,
        disk_pct,
    ));
    out
}

// ---------------------------------------------------------------------------
// Periodic work of the event loop
// ---------------------------------------------------------------------------

/// The periodic work a tick of the event loop starts.
#[derive(Debug, Clone, Copy, PartialEq, Eq, Structural)]
pub struct TickPlan {
    /// Ask systemd for the service state again.
    pub check_service: bool,
    /// Read the run history from the journal again.
    pub fetch_history: bool,
    /// Remove the notification shown.
    pub clear_toast: bool,
    /// Ask the cloud for its quota again.
    pub fetch_quota: bool,
    /// Count the synchronised files again.
    pub count_files: bool,
}

/// What a tick starts, from the whole seconds elapsed since each piece of work was last
/// started (`*_pending`: its answer has not come back yet) and the age of the notification:
/// the service state every second and the history every six, each once its previous answer
/// came back; the quota every five minutes; the file count every minute; a notification older
/// than four seconds goes away.
pub fn plan_tick(
    since_service_check: u64,
    service_pending: bool,
    since_history_check: u64,
    history_pending: bool,
    toast_age: Option<u64>,
    since_quota_check: u64,
    since_file_count: u64,
) -> (r: TickPlan)
    ensures
        r.check_service == (since_service_check >= 1 && !service_pending),
        r.fetch_history == (since_history_check >= 6 && !history_pending),
        r.clear_toast == (toast_age matches Some(a) && a > 4),
        r.fetch_quota == (since_quota_check >= 300),
        r.count_files == (since_file_count >= 60),
{
    TickPlan {
        check_service: since_service_check >= 1 && !service_pending,
        fetch_history: since_history_check >= 6 && !history_pending,
        clear_toast: match toast_age {
            Some(a) => a > 4,
            None => false,
        },
        fetch_quota: since_quota_check >= 300,
        count_files: since_file_count >= 60,
    }
}

} // verus!

verus! {

/// Whether an error mentions a conflict, in any letter case.
pub open spec fn mentions_conflict(e: Seq<char>) -> bool {
    seq_contains(lowercase(e), "conflict"@)
}

proof fn lemma_conflict_count_filter(errs: Seq<Seq<char>>)
    ensures
        conflict_count(errs) == errs.filter(|e: Seq<char>| mentions_conflict(e)).len(),
    decreases errs.len(),
{
    reveal(Seq::filter);
    if errs.len() > 0 {
        lemma_conflict_count_filter(errs.drop_last());
    }
}

/// Today's conflicts count errors, not runs: with no run there is none, and a run adds, when
/// it is dated today, the number of its errors that mention a conflict (in any letter
/// case), nothing otherwise — a run with `k` such errors adds `k`.
pub proof fn law_conflicts_count_each_error(runs: Seq<RunV>, r: RunV, today: Seq<char>)
    ensures
        today_conflicts(Seq::empty(), today) == 0,
        today_conflicts(runs.push(r), today) == today_conflicts(runs, today) + if r.date == today {
            r.errors.filter(|e: Seq<char>| mentions_conflict(e)).len()
        } else {
            0
        },
{
    assert(runs.push(r).drop_last() =~= runs);
    lemma_conflict_count_filter(r.errors);
}

} // verus!

//! Live state of the synchronisation in progress, fed by log events.
use vstd::prelude::*;
use std::collections::VecDeque;
use crate::events::{
    ActiveFile, FileAction, ModifiedFileDetail, SyncEvent, SyncedFile, TransferStats, instant_now,
    phase_index, phase_name,
};
use crate::logline::{EventV, JsonLog, event_view, events_view, log_line_events};
use crate::parser::{StatsView, stats_view};
use crate::text::strings_view;

verus! {

/// Number of speed samples kept for the speed chart.
pub const SPEED_HISTORY_LEN: usize = 40;

/// Number of display lines kept in the log buffer.
pub const LOG_BUFFER_LEN: usize = 500;

/// Live state of the bisync service as seen through its log.
#[derive(Debug, Clone)]
pub struct StreamerState {
    pub is_syncing: bool,
    pub sync_start: Option<std::time::Instant>,
    pub phase: String,
    pub phase_index: usize,
    pub transfer: TransferStats,
    /// Files being transferred, one entry per name (most recent report of each).
    pub active_files: Vec<ActiveFile>,
    pub synced_files: Vec<SyncedFile>,
    pub log_lines: VecDeque<String>,
    pub resync_needed: bool,
    pub speed_history: Vec<u64>,
    pub changes_local: Vec<String>,
    pub changes_remote: Vec<String>,
    pub changes_local_details: Vec<ModifiedFileDetail>,
    pub changes_remote_details: Vec<ModifiedFileDetail>,
    pub path1_modified: bool,
    pub path2_modified: bool,
}

/// Mathematical view of the live state (the instants are left out; `started` says whether a
/// start instant is recorded).
#[verifier::ext_equal]
pub struct StreamV {
    pub is_syncing: bool,
    pub started: bool,
    pub phase: Seq<char>,
    pub phase_index: usize,
    pub transfer: StatsView,
    pub active: Seq<(Seq<char>, u8, Seq<char>)>,
    pub synced: Seq<(Seq<char>, FileAction, Seq<char>)>,
    pub log_lines: Seq<Seq<char>>,
    pub resync_needed: bool,
    pub speed_history: Seq<u64>,
    pub changes_local: Seq<Seq<char>>,
    pub changes_remote: Seq<Seq<char>>,
    pub local_details: Seq<(Seq<char>, FileAction)>,
    pub remote_details: Seq<(Seq<char>, FileAction)>,
    pub path1_modified: bool,
    pub path2_modified: bool,
}

/// View of an active transfer.
pub open spec fn active_view(a: ActiveFile) -> (Seq<char>, u8, Seq<char>) {
    (a.name@, a.pct, a.speed@)
}

/// When each active transfer was last reported, in list order.
pub open spec fn active_stamps(s: StreamerState) -> Seq<std::time::Instant> {
    s.active_files@.map_values(|a: ActiveFile| a.last_seen)
}

/// View of a completed file.
pub open spec fn synced_file_view(f: SyncedFile) -> (Seq<char>, FileAction, Seq<char>) {
    (f.path@, f.action, f.time@)
}

/// View of a changed file.
pub open spec fn detail_view(d: ModifiedFileDetail) -> (Seq<char>, FileAction) {
    (d.path@, d.action)
}

/// View of the live state.
pub open spec fn stream_view(s: StreamerState) -> StreamV {
    StreamV {
        is_syncing: s.is_syncing,
        started: s.sync_start is Some,
        phase: s.phase@,
        phase_index: s.phase_index,
        transfer: stats_view(s.transfer),
        active: s.active_files@.map_values(|a: ActiveFile| active_view(a)),
        synced: s.synced_files@.map_values(|f: SyncedFile| synced_file_view(f)),
        log_lines: strings_view(s.log_lines@),
        resync_needed: s.resync_needed,
        speed_history: s.speed_history@,
        changes_local: strings_view(s.changes_local@),
        changes_remote: strings_view(s.changes_remote@),
        local_details: s.changes_local_details@.map_values(|d: ModifiedFileDetail| detail_view(d)),
        remote_details: s.changes_remote_details@.map_values(
            |d: ModifiedFileDetail| detail_view(d),
        ),
        path1_modified: s.path1_modified,
        path2_modified: s.path2_modified,
    }
}

/// Empty metrics.
pub open spec fn empty_stats() -> StatsView {
    StatsView {
        bytes_done: Seq::empty(),
        bytes_total: Seq::empty(),
        pct: 0,
        speed: Seq::empty(),
        eta: Seq::empty(),
        files_done: 0,
        files_total: 0,
        checks_done: 0,
        checks_total: 0,
        elapsed: Seq::empty(),
    }
}

/// No two active transfers share a name.
pub open spec fn active_names_unique(a: Seq<(Seq<char>, u8, Seq<char>)>) -> bool {
    forall|i: int, j: int| 0 <= i < j < a.len() ==> #[trigger] a[i].0 != #[trigger] a[j].0
}

/// The invariant of the live state: active transfers are listed once per name, at most
/// `LOG_BUFFER_LEN` display lines are kept, and the phase index is within the pipeline.
/// `StreamerState::new` establishes it and every operation keeps it; none needs it.
pub open spec fn stream_wf(v: StreamV) -> bool {
    &&& active_names_unique(v.active)
    &&& v.log_lines.len() <= LOG_BUFFER_LEN
    &&& v.phase_index <= 5
}

/// The live state before any log line: idle, no phase yet, nothing transferred, an empty
/// log buffer and a speed history of `SPEED_HISTORY_LEN` zero samples.
pub open spec fn idle_view() -> StreamV {
    StreamV {
        is_syncing: false,
        started: false,
        phase: "Idle"@,
        phase_index: 0,
        transfer: empty_stats(),
        active: Seq::empty(),
        synced: Seq::empty(),
        log_lines: Seq::empty(),
        resync_needed: false,
        speed_history: Seq::new(SPEED_HISTORY_LEN as nat, |i: int| 0u64),
        changes_local: Seq::empty(),
        changes_remote: Seq::empty(),
        local_details: Seq::empty(),
        remote_details: Seq::empty(),
        path1_modified: false,
        path2_modified: false,
    }
}

/// State at the start of a new synchronisation cycle: syncing from now, phase 1, all
/// per-cycle data cleared; a pending resync request is dropped (it comes back if the error
/// persists). The log buffer and the speed history stay.
pub open spec fn reset_view(s: StreamV) -> StreamV {
    StreamV {
        is_syncing: true,
        started: true,
        resync_needed: false,
        phase: "1. Listings"@,
        phase_index: 0,
        transfer: empty_stats(),
        active: Seq::empty(),
        synced: Seq::empty(),
        changes_local: Seq::empty(),
        changes_remote: Seq::empty(),
        local_details: Seq::empty(),
        remote_details: Seq::empty(),
        path1_modified: false,
        path2_modified: false,
        ..s
    }
}

/// State at the end of a synchronisation cycle: idle, phase 6, per-cycle data cleared.
/// A resync request is kept, so that a critical error of the cycle stays visible.
pub open spec fn finish_view(s: StreamV) -> StreamV {
    StreamV {
        is_syncing: false,
        started: false,
        phase: "6. Done"@,
        phase_index: 5,
        transfer: empty_stats(),
        active: Seq::empty(),
        synced: Seq::empty(),
        changes_local: Seq::empty(),
        changes_remote: Seq::empty(),
        local_details: Seq::empty(),
        remote_details: Seq::empty(),
        path1_modified: false,
        path2_modified: false,
        ..s
    }
}

/// `h` with `v` appended; the oldest sample is dropped when `cap` samples are already kept.
pub open spec fn push_capped(h: Seq<u64>, v: u64, cap: nat) -> Seq<u64> {
    if h.len() >= cap {
        h.drop_first().push(v)
    } else {
        h.push(v)
    }
}

/// Index of the first entry named `name` at or after `i`, if any.
pub open spec fn first_active(a: Seq<(Seq<char>, u8, Seq<char>)>, name: Seq<char>, i: int) -> Option<
    int,
>
    decreases a.len() - i,
{
    if i < 0 || i >= a.len() {
        None
    } else if a[i].0 == name {
        Some(i)
    } else {
        first_active(a, name, i + 1)
    }
}

/// Index of the first entry named `name`, if any.
pub open spec fn active_index(a: Seq<(Seq<char>, u8, Seq<char>)>, name: Seq<char>) -> Option<int> {
    first_active(a, name, 0)
}

/// `a` where the first entry named like `x` is replaced by `x`, or `x` appended.
pub open spec fn upsert_active(a: Seq<(Seq<char>, u8, Seq<char>)>, x: (Seq<char>, u8, Seq<char>)) -> Seq<
    (Seq<char>, u8, Seq<char>),
> {
    match active_index(a, x.0) {
        Some(i) => a.update(i, x),
        None => a.push(x),
    }
}

/// Index of the first detail about `path`, if any.
pub open spec fn first_detail(d: Seq<(Seq<char>, FileAction)>, path: Seq<char>, i: int) -> Option<int>
    decreases d.len() - i,
{
    if i < 0 || i >= d.len() {
        None
    } else if d[i].0 == path {
        Some(i)
    } else {
        first_detail(d, path, i + 1)
    }
}

/// `d` where the first detail about `path` gets `action`, or a new detail appended.
pub open spec fn upsert_detail(d: Seq<(Seq<char>, FileAction)>, path: Seq<char>, action: FileAction) -> Seq<
    (Seq<char>, FileAction),
> {
    match first_detail(d, path, 0) {
        Some(i) => d.update(i, (path, action)),
        None => d.push((path, action)),
    }
}

/// `s` with `x` appended unless already present.
pub open spec fn push_unique(s: Seq<Seq<char>>, x: Seq<char>) -> Seq<Seq<char>> {
    if s.contains(x) {
        s
    } else {
        s.push(x)
    }
}

/// Some completed file has path `p`.
pub open spec fn has_synced(s: Seq<(Seq<char>, FileAction, Seq<char>)>, p: Seq<char>) -> bool {
    exists|i: int| 0 <= i < s.len() && (#[trigger] s[i]).0 == p
}

/// Effect of one event on the live state. `kibs` is the speed, in KiB/s, of the metrics of a
/// `StatsUpdated` event; other events ignore it.
pub open spec fn apply_event_view(s: StreamV, e: EventV, kibs: u64) -> StreamV {
    match e {
        EventV::SyncStarted(_) => reset_view(s),
        EventV::PhaseChanged(p) => StreamV { phase: phase_name(p), phase_index: phase_index(p), ..s },
        EventV::PathModified(is_local) => if is_local {
            StreamV { path2_modified: true, ..s }
        } else {
            StreamV { path1_modified: true, ..s }
        },
        EventV::StatsUpdated(st) => {
            let s1 = if !s.is_syncing {
                reset_view(s)
            } else {
                s
            };
            let hist = if st.speed.len() > 0 && kibs > 0 {
                push_capped(s1.speed_history, kibs, SPEED_HISTORY_LEN as nat)
            } else {
                s1.speed_history
            };
            StreamV { transfer: st, speed_history: hist, ..s1 }
        },
        EventV::ActiveTransferUpdated(n, p, sp) => {
            let s1 = if !s.is_syncing {
                reset_view(s)
            } else {
                s
            };
            StreamV { active: upsert_active(s1.active, (n, p, sp)), ..s1 }
        },
        EventV::FileSynced(path, a, t) => if has_synced(s.synced, path) {
            s
        } else {
            StreamV { synced: s.synced.push((path, a, t)), ..s }
        },
        EventV::DiffFound(is_local, path, a) => if is_local {
            StreamV {
                path2_modified: true,
                changes_local: push_unique(s.changes_local, path),
                local_details: upsert_detail(s.local_details, path, a),
                ..s
            }
        } else {
            StreamV {
                path1_modified: true,
                changes_remote: push_unique(s.changes_remote, path),
                remote_details: upsert_detail(s.remote_details, path, a),
                ..s
            }
        },
        EventV::ResyncRequired(_) => StreamV { resync_needed: true, ..s },
        EventV::SyncCompleted(_, _) => finish_view(s),
    }
}

impl StreamerState {
    /// Idle state with an empty log buffer and a zeroed speed history of 40 samples.
    pub fn new() -> (r: Self)
        ensures
            stream_view(r) == idle_view(),
            stream_wf(stream_view(r)),
            !r.is_syncing,
            r.sync_start is None,
            r.phase@ == "Idle"@,
            r.phase_index == 0,
            stream_view(r).transfer == empty_stats(),
            r.active_files@.len() == 0,
            r.synced_files@.len() == 0,
            r.log_lines@.len() == 0,
            !r.resync_needed,
            r.speed_history@ == Seq::new(SPEED_HISTORY_LEN as nat, |i: int| 0u64),
            r.changes_local@.len() == 0,
            r.changes_remote@.len() == 0,
            r.changes_local_details@.len() == 0,
            r.changes_remote_details@.len() == 0,
            !r.path1_modified,
            !r.path2_modified,
    {
        let mut speed: Vec<u64> = Vec::new();
        let mut i: usize = 0;
        while i < SPEED_HISTORY_LEN
            invariant
                i <= SPEED_HISTORY_LEN,
                speed@ == Seq::new(i as nat, |k: int| 0u64),
            decreases SPEED_HISTORY_LEN - i,
        {
            speed.push(0);
            assert(speed@ =~= Seq::new((i + 1) as nat, |k: int| 0u64));
            i = i + 1;
        }
        let r = StreamerState {
            is_syncing: false,
            sync_start: None,
            phase: String::from_str("Idle"),
            phase_index: 0,
            transfer: TransferStats::new(),
            active_files: Vec::new(),
            synced_files: Vec::new(),
            log_lines: VecDeque::new(),
            resync_needed: false,
            speed_history: speed,
            changes_local: Vec::new(),
            changes_remote: Vec::new(),
            changes_local_details: Vec::new(),
            changes_remote_details: Vec::new(),
            path1_modified: false,
            path2_modified: false,
        };
        assert(stream_view(r).log_lines =~= Seq::<Seq<char>>::empty());
        assert(stream_view(r).active =~= Seq::<(Seq<char>, u8, Seq<char>)>::empty());
        assert(stream_view(r) =~= idle_view());
        r
    }

    /// Starts a new synchronisation cycle now (see `reset_view`).
    pub fn reset_for_new_sync(&mut self)
        ensures
            stream_view(*final(self)) == reset_view(stream_view(*old(self))),
            stream_wf(stream_view(*old(self))) ==> stream_wf(stream_view(*final(self))),
    {
        self.is_syncing = true;
        self.sync_start = Some(instant_now());
        self.resync_needed = false;
        self.phase = String::from_str("1. Listings");
        self.phase_index = 0;
        self.transfer = TransferStats::new();
        self.active_files.clear();
        self.synced_files.clear();
        self.changes_local.clear();
        self.changes_remote.clear();
        self.changes_local_details.clear();
        self.changes_remote_details.clear();
        self.path1_modified = false;
        self.path2_modified = false;
        assert(stream_view(*self) =~= reset_view(stream_view(*old(self))));
    }

    /// Ends the synchronisation cycle (see `finish_view`).
    pub fn mark_finished(&mut self)
        ensures
            stream_view(*final(self)) == finish_view(stream_view(*old(self))),
            stream_wf(stream_view(*old(self))) ==> stream_wf(stream_view(*final(self))),
    {
        self.is_syncing = false;
        self.sync_start = None;
        self.phase = String::from_str("6. Done");
        self.phase_index = 5;
        self.transfer = TransferStats::new();
        self.active_files.clear();
        self.synced_files.clear();
        self.changes_local.clear();
        self.changes_remote.clear();
        self.changes_local_details.clear();
        self.changes_remote_details.clear();
        self.path1_modified = false;
        self.path2_modified = false;
        assert(stream_view(*self) =~= finish_view(stream_view(*old(self))));
    }
}

} // verus!

verus! {

proof fn lemma_first_active(a: Seq<(Seq<char>, u8, Seq<char>)>, name: Seq<char>, i: int)
    requires
        0 <= i,
    ensures
        match first_active(a, name, i) {
            Some(k) => i <= k < a.len() && a[k].0 == name && forall|j: int|
                i <= j < k ==> (#[trigger] a[j]).0 != name,
            None => forall|k: int| i <= k < a.len() ==> (#[trigger] a[k]).0 != name,
        },
    decreases a.len() - i,
{
    if i < a.len() && a[i].0 != name {
        lemma_first_active(a, name, i + 1);
    }
}

proof fn lemma_upsert_unique(a: Seq<(Seq<char>, u8, Seq<char>)>, x: (Seq<char>, u8, Seq<char>))
    requires
        active_names_unique(a),
    ensures
        active_names_unique(upsert_active(a, x)),
{
    let r = upsert_active(a, x);
    lemma_first_active(a, x.0, 0);
    match active_index(a, x.0) {
        Some(i) => {
            assert(0 <= i < a.len() && a[i].0 == x.0);
            assert forall|p: int, q: int| 0 <= p < q < r.len() implies #[trigger] r[p].0
                != #[trigger] r[q].0 by {
                if p == i {
                    assert(a[q].0 != a[i].0);
                } else if q == i {
                    assert(a[p].0 != a[i].0);
                } else {
                    assert(a[p].0 != a[q].0);
                }
            }
        },
        None => {
            assert forall|p: int, q: int| 0 <= p < q < r.len() implies #[trigger] r[p].0
                != #[trigger] r[q].0 by {
                if q == a.len() {
                    assert(!(0 <= p < a.len() && a[p].0 == x.0));
                } else {
                    assert(a[p].0 != a[q].0);
                }
            }
        },
    }
}

impl StreamerState {
    fn upsert_active_exec(&mut self, x: ActiveFile)
        ensures
            stream_view(*final(self)) == (StreamV {
                active: upsert_active(stream_view(*old(self)).active, active_view(x)),
                ..stream_view(*old(self))
            }),
            active_names_unique(stream_view(*old(self)).active) ==> active_names_unique(
                stream_view(*final(self)).active,
            ),
            final(self).active_files@.contains(x),
    {
        let ghost a = stream_view(*self).active;
        proof {
            if active_names_unique(a) {
                lemma_upsert_unique(a, active_view(x));
            }
        }
        let mut i: usize = 0;
        while i < self.active_files.len()
            invariant
                i <= self.active_files.len(),
                *self == *old(self),
                a == stream_view(*old(self)).active,
                a == self.active_files@.map_values(|f: ActiveFile| active_view(f)),
                first_active(a, x.name@, 0) == first_active(a, x.name@, i as int),
            decreases self.active_files.len() - i,
        {
            if self.active_files[i].name == x.name {
                assert(first_active(a, x.name@, i as int) == Some(i as int));
                let ghost before = *self;
                let ghost xg = x;
                self.active_files.set(i, x);
                assert(self.active_files@[i as int] == xg);
                assert(stream_view(*self) =~= (StreamV {
                    active: upsert_active(a, active_view(x)),
                    ..stream_view(before)
                }));
                return;
            }
            i = i + 1;
        }
        let ghost before = *self;
        let ghost xg = x;
        self.active_files.push(x);
        assert(self.active_files@[self.active_files.len() - 1] == xg);
        assert(stream_view(*self) =~= (StreamV {
            active: upsert_active(a, active_view(x)),
            ..stream_view(before)
        }));
    }
}

fn upsert_detail_exec(d: &mut Vec<ModifiedFileDetail>, x: ModifiedFileDetail)
    ensures
        final(d)@.map_values(|m: ModifiedFileDetail| detail_view(m)) == upsert_detail(
            old(d)@.map_values(|m: ModifiedFileDetail| detail_view(m)),
            x.path@,
            x.action,
        ),
{
    let ghost v = d@.map_values(|m: ModifiedFileDetail| detail_view(m));
    let mut i: usize = 0;
    while i < d.len()
        invariant
            i <= d.len(),
            *d == *old(d),
            v == d@.map_values(|m: ModifiedFileDetail| detail_view(m)),
            first_detail(v, x.path@, 0) == first_detail(v, x.path@, i as int),
        decreases d.len() - i,
    {
        if d[i].path == x.path {
            assert(first_detail(v, x.path@, i as int) == Some(i as int));
            let path = d[i].path.clone();
            d.set(i, ModifiedFileDetail { path, action: x.action });
            assert(d@.map_values(|m: ModifiedFileDetail| detail_view(m)) =~= v.update(
                i as int,
                (x.path@, x.action),
            ));
            return;
        }
        i = i + 1;
    }
    let ghost xv = detail_view(x);
    d.push(x);
    assert(d@.map_values(|m: ModifiedFileDetail| detail_view(m)) =~= v.push(xv));
}

fn push_unique_string(v: &mut Vec<String>, x: &String)
    ensures
        strings_view(final(v)@) == push_unique(strings_view(old(v)@), x@),
{
    let ghost sv = strings_view(v@);
    let mut k: usize = 0;
    while k < v.len()
        invariant
            k <= v.len(),
            sv == strings_view(v@),
            forall|j: int| 0 <= j < k ==> sv[j] != x@,
        decreases v.len() - k,
    {
        if v[k] == *x {
            assert(sv[k as int] == x@);
            return;
        }
        k = k + 1;
    }
    assert(!sv.contains(x@));
    v.push(x.clone());
    assert(strings_view(v@) =~= sv.push(x@));
}

fn has_synced_exec(v: &Vec<SyncedFile>, p: &String) -> (r: bool)
    ensures
        r == has_synced(v@.map_values(|f: SyncedFile| synced_file_view(f)), p@),
{
    let ghost m = v@.map_values(|f: SyncedFile| synced_file_view(f));
    let mut k: usize = 0;
    while k < v.len()
        invariant
            k <= v.len(),
            m == v@.map_values(|f: SyncedFile| synced_file_view(f)),
            forall|j: int| 0 <= j < k ==> (#[trigger] m[j]).0 != p@,
        decreases v.len() - k,
    {
        if v[k].path == *p {
            assert(m[k as int].0 == p@);
            return true;
        }
        k = k + 1;
    }
    false
}

fn push_capped_exec(h: &mut Vec<u64>, v: u64)
    ensures
        final(h)@ == push_capped(old(h)@, v, SPEED_HISTORY_LEN as nat),
{
    if h.len() >= SPEED_HISTORY_LEN {
        h.remove(0);
    }
    h.push(v);
}

impl StreamerState {
    /// Applies one event to the live state (see `apply_event_view`). `speed_kibs` is the
    /// speed, in KiB/s, of the metrics of a `StatsUpdated` event; other events ignore it.
    pub fn apply_event(&mut self, event: SyncEvent, speed_kibs: u64)
        ensures
            stream_view(*final(self)) == apply_event_view(
                stream_view(*old(self)),
                event_view(event),
                speed_kibs,
            ),
            stream_wf(stream_view(*old(self))) ==> stream_wf(stream_view(*final(self))),
            event matches SyncEvent::ActiveTransferUpdated(x) ==> final(self).active_files@.contains(
                x,
            ),
    {
        let ghost s0 = stream_view(*self);
        match event {
            SyncEvent::SyncStarted { .. } => {
                self.reset_for_new_sync();
            },
            SyncEvent::PhaseChanged(phase) => {
                self.phase = String::from_str(phase.display_name());
                self.phase_index = phase.index();
                assert(stream_view(*self) =~= apply_event_view(s0, event_view(event), speed_kibs));
            },
            SyncEvent::PathModified { is_local } => {
                if is_local {
                    self.path2_modified = true;
                } else {
                    self.path1_modified = true;
                }
                assert(stream_view(*self) =~= apply_event_view(s0, event_view(event), speed_kibs));
            },
            SyncEvent::StatsUpdated(stats) => {
                if !self.is_syncing {
                    self.reset_for_new_sync();
                }
                let ghost s1 = stream_view(*self);
                if stats.speed.as_str().unicode_len() > 0 && speed_kibs > 0 {
                    push_capped_exec(&mut self.speed_history, speed_kibs);
                }
                let ghost st = stats_view(stats);
                self.transfer = stats;
                assert(stream_view(*self) =~= apply_event_view(s0, EventV::StatsUpdated(st), speed_kibs));
            },
            SyncEvent::ActiveTransferUpdated(active) => {
                if !self.is_syncing {
                    self.reset_for_new_sync();
                }
                self.upsert_active_exec(active);
            },
            SyncEvent::FileSynced(synced) => {
                if !has_synced_exec(&self.synced_files, &synced.path) {
                    let ghost fv = synced_file_view(synced);
                    self.synced_files.push(synced);
                    assert(stream_view(*self) =~= (StreamV { synced: s0.synced.push(fv), ..s0 }));
                }
            },
            SyncEvent::DiffFound { is_local, detail } => {
                let ghost dv = detail_view(detail);
                if is_local {
                    self.path2_modified = true;
                    push_unique_string(&mut self.changes_local, &detail.path);
                    upsert_detail_exec(&mut self.changes_local_details, detail);
                } else {
                    self.path1_modified = true;
                    push_unique_string(&mut self.changes_remote, &detail.path);
                    upsert_detail_exec(&mut self.changes_remote_details, detail);
                }
                assert(stream_view(*self) =~= apply_event_view(
                    s0,
                    EventV::DiffFound(is_local, dv.0, dv.1),
                    speed_kibs,
                ));
            },
            SyncEvent::ResyncRequired(_) => {
                self.resync_needed = true;
                assert(stream_view(*self) =~= apply_event_view(s0, event_view(event), speed_kibs));
            },
            SyncEvent::SyncCompleted { .. } => {
                self.mark_finished();
            },
        }
    }
}

} // verus!

verus! {

/// `l` with `x` appended; the oldest line is dropped when `LOG_BUFFER_LEN` lines are kept.
pub open spec fn push_log(l: Seq<Seq<char>>, x: Seq<char>) -> Seq<Seq<char>> {
    if l.len() >= LOG_BUFFER_LEN {
        l.drop_first().push(x)
    } else {
        l.push(x)
    }
}

/// `l` with each of `xs` appended in turn by `push_log`.
pub open spec fn push_logs(l: Seq<Seq<char>>, xs: Seq<Seq<char>>) -> Seq<Seq<char>>
    decreases xs.len(),
{
    if xs.len() == 0 {
        l
    } else {
        push_log(push_logs(l, xs.drop_last()), xs.last())
    }
}

/// Effect of a list of events, in order (each with the same `kibs`).
pub open spec fn apply_events_view(s: StreamV, es: Seq<EventV>, kibs: u64) -> StreamV
    decreases es.len(),
{
    if es.len() == 0 {
        s
    } else {
        apply_event_view(apply_events_view(s, es.drop_last(), kibs), es.last(), kibs)
    }
}

/// The elements of `a` whose flag in `keep` is set, in order.
pub open spec fn filter_mask<T>(a: Seq<T>, keep: Seq<bool>) -> Seq<T>
    decreases a.len(),
{
    if a.len() == 0 || keep.len() == 0 {
        Seq::empty()
    } else {
        let rest = filter_mask(a.drop_last(), keep.drop_last());
        if keep.last() {
            rest.push(a.last())
        } else {
            rest
        }
    }
}

/// `Instant::duration_since`: the time elapsed from `then` to `now` (zero when `then` is the
/// later one). Nothing is stated of it: instants are opaque here.
#[verifier::external_body]
fn duration_since(now: &std::time::Instant, then: &std::time::Instant) -> std::time::Duration {
    now.duration_since(*then)
}

/// `Duration::as_millis`: the whole milliseconds of a duration. Nothing is stated of it:
/// durations are opaque here.
#[verifier::external_body]
fn as_millis(d: std::time::Duration) -> u128 {
    d.as_millis()
}

/// Age, in milliseconds, from which an active transfer that has not been reported again is
/// forgotten.
pub const ACTIVE_STALE_MS: u128 = 4000;

/// For each age (in milliseconds since an active transfer was last reported), whether the
/// transfer is still recent: younger than `ACTIVE_STALE_MS`.
pub open spec fn recent_flags(ages: Seq<u128>) -> Seq<bool> {
    ages.map_values(|m: u128| m < ACTIVE_STALE_MS)
}

proof fn lemma_filter_mask_unique(a: Seq<(Seq<char>, u8, Seq<char>)>, keep: Seq<bool>)
    requires
        active_names_unique(a),
        keep.len() == a.len(),
    ensures
        active_names_unique(filter_mask(a, keep)),
        forall|i: int| 0 <= i < filter_mask(a, keep).len() ==> a.contains(#[trigger] filter_mask(a, keep)[i]),
    decreases a.len(),
{
    if a.len() > 0 {
        let a0 = a.drop_last();
        assert(active_names_unique(a0)) by {
            assert forall|i: int, j: int| 0 <= i < j < a0.len() implies #[trigger] a0[i].0
                != #[trigger] a0[j].0 by {
                assert(a[i].0 != a[j].0);
            }
        }
        lemma_filter_mask_unique(a0, keep.drop_last());
        let rest = filter_mask(a0, keep.drop_last());
        assert forall|i: int| 0 <= i < rest.len() implies a.contains(#[trigger] rest[i]) by {
            assert(a0.contains(rest[i]));
            let k = choose|k: int| 0 <= k < a0.len() && a0[k] == rest[i];
            assert(a[k] == rest[i]);
        }
        if keep.last() {
            let r = rest.push(a.last());
            assert forall|i: int, j: int| 0 <= i < j < r.len() implies #[trigger] r[i].0
                != #[trigger] r[j].0 by {
                if j == rest.len() {
                    let k = choose|k: int| 0 <= k < a.len() && a[k] == rest[i];
                    assert(a0.contains(rest[i]));
                    let k0 = choose|k0: int| 0 <= k0 < a0.len() && a0[k0] == rest[i];
                    assert(a[k0].0 != a[a.len() - 1].0);
                }
            }
            assert forall|i: int| 0 <= i < r.len() implies a.contains(#[trigger] r[i]) by {
                if i == rest.len() {
                    assert(a[a.len() - 1] == r[i]);
                } else {
                    assert(a.contains(rest[i]));
                }
            }
        }
    }
}

impl StreamerState {
    /// Forgets the active transfers whose age is `ACTIVE_STALE_MS` or more, keeping the
    /// others in order. `ages_ms[i]` is the time, in milliseconds, since `active_files[i]` was
    /// last reported.
    pub fn prune_by_age(&mut self, ages_ms: &Vec<u128>)
        requires
            ages_ms.len() == old(self).active_files.len(),
        ensures
            stream_view(*final(self)) == (StreamV {
                active: filter_mask(stream_view(*old(self)).active, recent_flags(ages_ms@)),
                ..stream_view(*old(self))
            }),
            active_stamps(*final(self)) == filter_mask(active_stamps(*old(self)), recent_flags(ages_ms@)),
            stream_wf(stream_view(*old(self))) ==> stream_wf(stream_view(*final(self))),
    {
        let ghost a = stream_view(*self).active;
        let ghost st = active_stamps(*self);
        let ghost s0 = stream_view(*self);
        let ghost keep = recent_flags(ages_ms@);
        let mut kept: Vec<ActiveFile> = Vec::new();
        let mut i: usize = 0;
        while i < self.active_files.len()
            invariant
                i <= self.active_files.len(),
                *self == *old(self),
                ages_ms.len() == self.active_files.len(),
                keep == recent_flags(ages_ms@),
                a == self.active_files@.map_values(|f: ActiveFile| active_view(f)),
                st == active_stamps(*self),
                kept@.map_values(|f: ActiveFile| active_view(f)) == filter_mask(
                    a.subrange(0, i as int),
                    keep.subrange(0, i as int),
                ),
                kept@.map_values(|f: ActiveFile| f.last_seen) == filter_mask(
                    st.subrange(0, i as int),
                    keep.subrange(0, i as int),
                ),
            decreases self.active_files.len() - i,
        {
            let f = &self.active_files[i];
            let ok = ages_ms[i] < ACTIVE_STALE_MS;
            let ghost prevk = kept@.map_values(|f: ActiveFile| active_view(f));
            let ghost prevs = kept@.map_values(|f: ActiveFile| f.last_seen);
            assert(st.subrange(0, i + 1).drop_last() =~= st.subrange(0, i as int));
            assert(st.subrange(0, i + 1).last() == st[i as int]);
            assert(a.subrange(0, i + 1).drop_last() =~= a.subrange(0, i as int));
            assert(keep.subrange(0, i + 1).drop_last() =~= keep.subrange(0, i as int));
            assert(keep.subrange(0, i + 1).last() == ok);
            assert(a.subrange(0, i + 1).last() == a[i as int]);
            if ok {
                let c = ActiveFile {
                    name: f.name.clone(),
                    pct: f.pct,
                    speed: f.speed.clone(),
                    last_seen: f.last_seen,
                };
                kept.push(c);
                assert(kept@.map_values(|f: ActiveFile| active_view(f)) =~= prevk.push(a[i as int]));
                assert(kept@.map_values(|f: ActiveFile| f.last_seen) =~= prevs.push(st[i as int]));
            }
            i = i + 1;
        }
        assert(a.subrange(0, a.len() as int) =~= a);
        assert(st.subrange(0, st.len() as int) =~= st);
        assert(keep.subrange(0, a.len() as int) =~= keep);
        proof {
            if active_names_unique(a) {
                lemma_filter_mask_unique(a, keep);
            }
        }
        self.active_files = kept;
        assert(stream_view(*self) =~= (StreamV { active: filter_mask(a, keep), ..s0 }));
        assert(active_stamps(*self) =~= filter_mask(st, keep));
    }

    /// Forgets active transfers not reported during the last four seconds before `now`: the
    /// age of each is read from the clock, then `prune_by_age` decides. What the clock gives
    /// is not stated, so the ages are left open here.
    pub fn prune_active_files(&mut self, now: &std::time::Instant)
        ensures
            exists|ages: Seq<u128>|
                ages.len() == stream_view(*old(self)).active.len() && stream_view(*final(self))
                    == (StreamV {
                    active: #[trigger] filter_mask(
                        stream_view(*old(self)).active,
                        recent_flags(ages),
                    ),
                    ..stream_view(*old(self))
                }) && active_stamps(*final(self)) == filter_mask(
                    active_stamps(*old(self)),
                    recent_flags(ages),
                ),
            stream_wf(stream_view(*old(self))) ==> stream_wf(stream_view(*final(self))),
    {
        let mut ages: Vec<u128> = Vec::new();
        let mut i: usize = 0;
        while i < self.active_files.len()
            invariant
                i <= self.active_files.len(),
                ages.len() == i,
            decreases self.active_files.len() - i,
        {
            let age = as_millis(duration_since(now, &self.active_files[i].last_seen));
            ages.push(age);
            i = i + 1;
        }
        self.prune_by_age(&ages);
    }

    /// Appends display lines to the log buffer, keeping at most `LOG_BUFFER_LEN` of them.
    pub fn push_log_lines(&mut self, lines: Vec<String>)
        ensures
            stream_view(*final(self)) == (StreamV {
                log_lines: push_logs(stream_view(*old(self)).log_lines, strings_view(lines@)),
                ..stream_view(*old(self))
            }),
            stream_wf(stream_view(*old(self))) ==> stream_wf(stream_view(*final(self))),
    {
        let ghost s0 = stream_view(*self);
        let ghost xs = strings_view(lines@);
        let mut i: usize = 0;
        while i < lines.len()
            invariant
                i <= lines.len(),
                xs == strings_view(lines@),
                stream_wf(s0) ==> stream_wf(stream_view(*self)),
                stream_view(*self) == (StreamV {
                    log_lines: push_logs(s0.log_lines, xs.subrange(0, i as int)),
                    ..s0
                }),
            decreases lines.len() - i,
        {
            let ghost before = stream_view(*self);
            if self.log_lines.len() >= LOG_BUFFER_LEN {
                self.log_lines.pop_front();
            }
            self.log_lines.push_back(lines[i].clone());
            assert(xs.subrange(0, i + 1).drop_last() =~= xs.subrange(0, i as int));
            assert(stream_view(*self) =~= (StreamV {
                log_lines: push_log(before.log_lines, xs[i as int]),
                ..before
            }));
            i = i + 1;
        }
        assert(xs.subrange(0, lines.len() as int) =~= xs);
    }

    /// Applies a list of events in order.
    pub fn apply_events(&mut self, events: Vec<SyncEvent>, speed_kibs: u64)
        ensures
            stream_view(*final(self)) == apply_events_view(
                stream_view(*old(self)),
                events_view(events@),
                speed_kibs,
            ),
            stream_wf(stream_view(*old(self))) ==> stream_wf(stream_view(*final(self))),
    {
        let ghost s0 = stream_view(*self);
        let ghost es = events_view(events@);
        let mut events = events;
        // Take the events out front to back.
        let n = events.len();
        let mut i: usize = 0;
        while i < n
            invariant
                i <= n,
                n == es.len(),
                events@.len() == n - i,
                events_view(events@) == es.subrange(i as int, n as int),
                stream_wf(s0) ==> stream_wf(stream_view(*self)),
                stream_view(*self) == apply_events_view(s0, es.subrange(0, i as int), speed_kibs),
            decreases n - i,
        {
            let ghost before = events@;
            let e = events.remove(0);
            assert(event_view(e) == events_view(before)[0]);
            assert(events@ =~= before.subrange(1, before.len() as int));
            assert(events_view(events@) =~= events_view(before).subrange(1, before.len() as int));
            assert(events_view(events@) =~= es.subrange(i + 1, n as int));
            self.apply_event(e, speed_kibs);
            assert(es.subrange(0, i + 1).drop_last() =~= es.subrange(0, i as int));
            i = i + 1;
        }
        assert(es.subrange(0, n as int) =~= es);
    }
}

} // verus!

verus! {

/// Live state after a streamed log line, before stale transfers are pruned: its display
/// lines enter the log buffer, then its events apply in order. `now` is the local time of
/// day stamped on completed files without a time; `kibs` as for `apply_event_view`.
pub open spec fn stream_line_view(
    s: StreamV,
    line: Seq<char>,
    json: Option<JsonLog>,
    now: Seq<char>,
    kibs: u64,
) -> StreamV {
    let s1 = StreamV {
        log_lines: push_logs(s.log_lines, crate::logline::display_lines(line, json)),
        ..s
    };
    apply_events_view(s1, log_line_events(line, json, now), kibs)
}

/// `after` is the state reached from `before` by a streamed line at time of day `now`,
/// `ages[i]` being the milliseconds since the i-th active transfer was last reported once
/// the line's events are applied: those of age `ACTIVE_STALE_MS` or more are forgotten.
pub open spec fn stream_line_outcome(
    before: StreamV,
    after: StreamV,
    line: Seq<char>,
    json: Option<JsonLog>,
    kibs: u64,
    now: Seq<char>,
    ages: Seq<u128>,
) -> bool {
    let s2 = stream_line_view(before, line, json, now, kibs);
    &&& ages.len() == s2.active.len()
    &&& after == (StreamV { active: filter_mask(s2.active, recent_flags(ages)), ..s2 })
}

/// Feeds one streamed log line to the live state: display lines into the log buffer, events
/// applied, then active transfers not reported for four seconds forgotten. `json` is the
/// record decoded from `json_candidate(line)`, if any; `speed_kibs` is the speed, in KiB/s,
/// of the line's metrics, if it has any.
pub fn parse_stream_line(line: &str, json: &Option<JsonLog>, speed_kibs: u64, state: &mut StreamerState)
    ensures
        stream_wf(stream_view(*old(state))) ==> stream_wf(stream_view(*final(state))),
        exists|now: Seq<char>, ages: Seq<u128>|
            #[trigger] stream_line_outcome(
                stream_view(*old(state)),
                stream_view(*final(state)),
                line@,
                *json,
                speed_kibs,
                now,
                ages,
            ),
{
    let ghost s0 = stream_view(*state);
    let disp = crate::logline::format_log_line_for_display(line, json);
    state.push_log_lines(disp);
    let v = crate::text::chars_of(line);
    let now = crate::parser::local_time_hms();
    let events = crate::logline::log_line_events_at(&v, json, &now);
    state.apply_events(events, speed_kibs);
    let ghost s2 = stream_view(*state);
    assert(s2 == stream_line_view(s0, line@, *json, now@, speed_kibs));
    let t = instant_now();
    state.prune_active_files(&t);
    proof {
        let ages = choose|ages: Seq<u128>|
            ages.len() == s2.active.len() && stream_view(*state) == (StreamV {
                active: #[trigger] filter_mask(s2.active, recent_flags(ages)),
                ..s2
            });
        assert(stream_line_outcome(s0, stream_view(*state), line@, *json, speed_kibs, now@, ages));
    }
}

impl Default for StreamerState {
    fn default() -> (r: Self)
        ensures
            stream_wf(stream_view(r)),
            !r.is_syncing,
            r.phase@ == "Idle"@,
    {
        StreamerState::new()
    }
}

} // verus!

verus! {

/// State once the service is seen idle or failed: not syncing, no start instant, and the
/// per-cycle data cleared; the phase, the log buffer, the speed history and a pending resync
/// request stay.
pub open spec fn settled_view(s: StreamV) -> StreamV {
    StreamV {
        is_syncing: false,
        started: false,
        transfer: empty_stats(),
        active: Seq::empty(),
        synced: Seq::empty(),
        changes_local: Seq::empty(),
        changes_remote: Seq::empty(),
        local_details: Seq::empty(),
        remote_details: Seq::empty(),
        path1_modified: false,
        path2_modified: false,
        ..s
    }
}

impl StreamerState {
    /// Clears what belongs to a sync cycle once the service is seen idle or failed
    /// (see `settled_view`).
    pub fn settle_when_service_stopped(&mut self)
        ensures
            stream_view(*final(self)) == settled_view(stream_view(*old(self))),
            stream_wf(stream_view(*old(self))) ==> stream_wf(stream_view(*final(self))),
    {
        self.is_syncing = false;
        self.sync_start = None;
        self.transfer = TransferStats::new();
        self.active_files.clear();
        self.synced_files.clear();
        self.changes_local.clear();
        self.changes_remote.clear();
        self.changes_local_details.clear();
        self.changes_remote_details.clear();
        self.path1_modified = false;
        self.path2_modified = false;
        assert(stream_view(*self) =~= settled_view(stream_view(*old(self))));
    }
}

} // verus!

verus! {

/// Every event keeps the number of speed samples once the chart is full: the oldest sample
/// leaves when a new one comes.
pub proof fn law_speed_history_length(s: StreamV, e: EventV, kibs: u64)
    requires
        s.speed_history.len() >= SPEED_HISTORY_LEN,
    ensures
        apply_event_view(s, e, kibs).speed_history.len() == s.speed_history.len(),
{
}

/// A run of events keeps the number of speed samples once the chart is full.
pub proof fn law_speed_history_length_events(s: StreamV, es: Seq<EventV>, kibs: u64)
    requires
        s.speed_history.len() >= SPEED_HISTORY_LEN,
    ensures
        apply_events_view(s, es, kibs).speed_history.len() == s.speed_history.len(),
    decreases es.len(),
{
    if es.len() > 0 {
        law_speed_history_length_events(s, es.drop_last(), kibs);
        law_speed_history_length(apply_events_view(s, es.drop_last(), kibs), es.last(), kibs);
    }
}

/// A new synchronisation cycle followed by the end of the cycle leaves the service idle at
/// the last phase, with the cycle's data cleared and the log buffer untouched.
pub proof fn law_reset_then_finish(s: StreamV)
    ensures
        !finish_view(reset_view(s)).is_syncing,
        finish_view(reset_view(s)).phase_index == 5,
        finish_view(reset_view(s)).active.len() == 0,
        finish_view(reset_view(s)).log_lines == s.log_lines,
        reset_view(s).is_syncing && reset_view(s).phase_index == 0,
{
}

} // verus!

verus! {

/// No two details name the same path.
pub open spec fn detail_paths_distinct(d: Seq<(Seq<char>, FileAction)>) -> bool {
    forall|i: int, j: int| 0 <= i < j < d.len() ==> #[trigger] d[i].0 != #[trigger] d[j].0
}

proof fn lemma_first_detail(d: Seq<(Seq<char>, FileAction)>, path: Seq<char>, i: int)
    requires
        0 <= i,
    ensures
        match first_detail(d, path, i) {
            Some(k) => i <= k < d.len() && d[k].0 == path,
            None => forall|k: int| i <= k < d.len() ==> (#[trigger] d[k]).0 != path,
        },
    decreases d.len() - i,
{
    if i < d.len() && d[i].0 != path {
        lemma_first_detail(d, path, i + 1);
    }
}

/// A difference found on the local side marks path 2 as modified; the local change list
/// stays free of duplicates and holds the path, and the local details keep one entry per
/// path, the one for this path carrying the reported action. The remote side, path 1 and
/// the syncing flag are left as they were.
pub proof fn law_local_diff_recorded_once(
    s: StreamV,
    path: Seq<char>,
    action: FileAction,
    kibs: u64,
)
    requires
        s.changes_local.no_duplicates(),
        detail_paths_distinct(s.local_details),
    ensures
        apply_event_view(s, EventV::DiffFound(true, path, action), kibs).path2_modified,
        apply_event_view(s, EventV::DiffFound(true, path, action), kibs).changes_local.no_duplicates(),
        apply_event_view(s, EventV::DiffFound(true, path, action), kibs).changes_local.contains(path),
        detail_paths_distinct(
            apply_event_view(s, EventV::DiffFound(true, path, action), kibs).local_details,
        ),
        exists|i: int|
            0 <= i < apply_event_view(s, EventV::DiffFound(true, path, action), kibs).local_details.len()
                && #[trigger] apply_event_view(
                s,
                EventV::DiffFound(true, path, action),
                kibs,
            ).local_details[i] == (path, action),
        apply_event_view(s, EventV::DiffFound(true, path, action), kibs).changes_remote
            == s.changes_remote,
        apply_event_view(s, EventV::DiffFound(true, path, action), kibs).remote_details
            == s.remote_details,
        apply_event_view(s, EventV::DiffFound(true, path, action), kibs).path1_modified
            == s.path1_modified,
        apply_event_view(s, EventV::DiffFound(true, path, action), kibs).is_syncing
            == s.is_syncing,
{
    let t = apply_event_view(s, EventV::DiffFound(true, path, action), kibs);
    let c = s.changes_local;
    if !c.contains(path) {
        assert(t.changes_local == c.push(path));
        assert forall|i: int, j: int| 0 <= i < t.changes_local.len() && 0 <= j < t.changes_local.len()
            && i != j implies t.changes_local[i] != t.changes_local[j] by {
            if i == c.len() {
                assert(c[j] != path);
            } else if j == c.len() {
                assert(c[i] != path);
            }
        }
        assert(t.changes_local[c.len() as int] == path);
    }
    let d = s.local_details;
    lemma_first_detail(d, path, 0);
    match first_detail(d, path, 0) {
        Some(k) => {
            assert(t.local_details == d.update(k, (path, action)));
            assert(t.local_details[k] == (path, action));
            assert forall|i: int, j: int| 0 <= i < j < t.local_details.len() implies
                #[trigger] t.local_details[i].0 != #[trigger] t.local_details[j].0 by {
                assert(d[i].0 != d[j].0);
            }
        },
        None => {
            assert(t.local_details == d.push((path, action)));
            assert(t.local_details[d.len() as int] == (path, action));
            assert forall|i: int, j: int| 0 <= i < j < t.local_details.len() implies
                #[trigger] t.local_details[i].0 != #[trigger] t.local_details[j].0 by {
                if j == d.len() {
                    assert(d[i].0 != path);
                } else {
                    assert(d[i].0 != d[j].0);
                }
            }
        },
    }
}

} // verus!

verus! {

/// The live state as the dashboard starts: the journal's recent display lines in the log
/// buffer (the last `LOG_BUFFER_LEN` of them), and, when the service is already running, a
/// synchronisation under way at its first phase.
pub open spec fn initial_stream_view(lines: Seq<Seq<char>>, running: bool) -> StreamV {
    let s = StreamV { log_lines: push_logs(Seq::empty(), lines), ..idle_view() };
    if running {
        StreamV { is_syncing: true, started: true, phase: "1. Listings"@, phase_index: 0, ..s }
    } else {
        s
    }
}

/// The live state as the dashboard starts (see `initial_stream_view`): `lines` are the display
/// lines of the journal's recent entries, `running_since` the start of the synchronisation
/// the service is running, if it is.
pub fn initial_streamer(lines: Vec<String>, running_since: Option<std::time::Instant>) -> (r: StreamerState)
    ensures
        stream_view(r) == initial_stream_view(strings_view(lines@), running_since is Some),
        r.sync_start == running_since,
        stream_wf(stream_view(r)),
{
    let mut st = StreamerState::new();
    st.push_log_lines(lines);
    match running_since {
        Some(t) => {
            let ghost before = stream_view(st);
            st.is_syncing = true;
            st.sync_start = Some(t);
            st.phase = String::from_str("1. Listings");
            st.phase_index = 0;
            assert(stream_view(st) =~= StreamV {
                is_syncing: true,
                started: true,
                phase: "1. Listings"@,
                phase_index: 0,
                ..before
            });
        },
        None => {},
    }
    st
}

} // verus!

verus! {

/// The speed chart scrolls: once it holds `cap` samples or more, a new sample drops the
/// oldest (the first) and comes last, every other sample moving one place towards the start
/// (so the previous newest is now next to last); below `cap` the sample is simply appended.
pub proof fn law_push_capped_scrolls(h: Seq<u64>, v: u64, cap: nat)
    requires
        cap > 0,
    ensures
        h.len() >= cap ==> push_capped(h, v, cap) =~= h.subrange(1, h.len() as int) + seq![v],
        h.len() >= cap ==> push_capped(h, v, cap).len() == h.len(),
        h.len() >= cap ==> forall|i: int|
            0 <= i < h.len() - 1 ==> #[trigger] push_capped(h, v, cap)[i] == h[i + 1],
        h.len() >= cap ==> push_capped(h, v, cap)[h.len() - 2] == h[h.len() - 1] || h.len() < 2,
        push_capped(h, v, cap).last() == v,
        h.len() < cap ==> push_capped(h, v, cap) =~= h + seq![v],
{
}

/// A metrics update with a speed, while a synchronisation runs and the chart is full, scrolls
/// the speed chart by one sample: the oldest leaves and the new speed comes last.
pub proof fn law_stats_update_scrolls_speed_chart(s: StreamV, st: StatsView, kibs: u64)
    requires
        s.is_syncing,
        s.speed_history.len() >= SPEED_HISTORY_LEN,
        st.speed.len() > 0,
        kibs > 0,
    ensures
        apply_event_view(s, EventV::StatsUpdated(st), kibs).speed_history =~= s.speed_history.subrange(
            1,
            s.speed_history.len() as int,
        ) + seq![kibs],
{
}

} // verus!

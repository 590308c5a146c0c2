//! Universal log-line adapter: structured rclone JSON records and legacy text lines become
//! normalised `SyncEvent`s and human-readable display lines.
use vstd::prelude::*;
use crate::ansi::{strip_ansi_chars, strip_ansi_spec};
use crate::events::{
    ActiveFile, FileAction, ModifiedFileDetail, SyncEvent, SyncPhase, SyncedFile, TransferStats,
    instant_now,
};
use crate::numparse::{decimal, decimal_exec};
use crate::parser::{
    StatsView, active_spec, local_time_hms, parse_active_chars, parse_diff_chars, parse_diff_spec,
    parse_synced_at, parse_transfer_stats_chars, resync_text, resync_text_exec, stats_view,
    synced_spec, transfer_update,
};
use crate::text::{
    chars_of, concat_chars, contains_str, find, find_spec, lowercase, matches_at, seq_contains,
    slice_chars, string_of, to_lower, trim, trim_exec,
};

verus! {

// ---------------------------------------------------------------------------
// Structured records
// ---------------------------------------------------------------------------

/// One file being transferred, as listed in the `transferring` array of a stats record.
#[derive(Debug, Clone)]
pub struct JsonTransfer {
    pub name: String,
    pub percentage: Option<u8>,
    /// The transfer speed, already rendered for display (empty when the record has none).
    pub speed: String,
}

/// The `stats` object of a structured record.
#[derive(Debug, Clone)]
pub struct JsonStats {
    pub errors: Option<u32>,
    /// Global metrics, rendered for display from the record's numbers.
    pub transfer: TransferStats,
    pub transferring: Option<Vec<JsonTransfer>>,
}

/// A structured rclone log record (`--use-json-log`): the fields the dashboard reads.
#[derive(Debug, Clone)]
pub struct JsonLog {
    pub time: Option<String>,
    pub msg: Option<String>,
    pub object: Option<String>,
    pub stats: Option<JsonStats>,
}

// ---------------------------------------------------------------------------
// Event views
// ---------------------------------------------------------------------------

/// Mathematical view of a `SyncEvent` (the instant stamped on active transfers is left out).
pub enum EventV {
    SyncStarted(Option<Seq<char>>),
    PhaseChanged(SyncPhase),
    PathModified(bool),
    StatsUpdated(StatsView),
    ActiveTransferUpdated(Seq<char>, u8, Seq<char>),
    FileSynced(Seq<char>, FileAction, Seq<char>),
    DiffFound(bool, Seq<char>, FileAction),
    ResyncRequired(Seq<char>),
    SyncCompleted(bool, Option<Seq<char>>),
}

/// View of an optional string.
pub open spec fn opt_view(o: Option<String>) -> Option<Seq<char>> {
    match o {
        Some(s) => Some(s@),
        None => None,
    }
}

/// View of one event.
pub open spec fn event_view(e: SyncEvent) -> EventV {
    match e {
        SyncEvent::SyncStarted { reason } => EventV::SyncStarted(opt_view(reason)),
        SyncEvent::PhaseChanged(p) => EventV::PhaseChanged(p),
        SyncEvent::PathModified { is_local } => EventV::PathModified(is_local),
        SyncEvent::StatsUpdated(s) => EventV::StatsUpdated(stats_view(s)),
        SyncEvent::ActiveTransferUpdated(a) => EventV::ActiveTransferUpdated(a.name@, a.pct, a.speed@),
        SyncEvent::FileSynced(f) => EventV::FileSynced(f.path@, f.action, f.time@),
        SyncEvent::DiffFound { is_local, detail } => EventV::DiffFound(is_local, detail.path@, detail.action),
        SyncEvent::ResyncRequired(m) => EventV::ResyncRequired(m@),
        SyncEvent::SyncCompleted { success, error_msg } => EventV::SyncCompleted(success, opt_view(error_msg)),
    }
}

/// View of a list of events.
pub open spec fn events_view(v: Seq<SyncEvent>) -> Seq<EventV> {
    v.map_values(|e: SyncEvent| event_view(e))
}

proof fn lemma_events_view_concat(a: Seq<SyncEvent>, b: Seq<SyncEvent>)
    ensures
        events_view(a + b) == events_view(a) + events_view(b),
{
    assert(events_view(a + b) =~= events_view(a) + events_view(b));
}

/// Appends `more` to `events`.
fn append_events(events: &mut Vec<SyncEvent>, more: Vec<SyncEvent>)
    ensures
        events_view(final(events)@) == events_view(old(events)@) + events_view(more@),
{
    let mut more = more;
    proof {
        lemma_events_view_concat(events@, more@);
    }
    events.append(&mut more);
}

/// A vector holding one event.
fn one(e: SyncEvent) -> (r: Vec<SyncEvent>)
    ensures
        events_view(r@) == seq![event_view(e)],
{
    let mut v: Vec<SyncEvent> = Vec::new();
    v.push(e);
    assert(events_view(v@) =~= seq![event_view(e)]);
    v
}

/// A vector holding two events.
fn two(e1: SyncEvent, e2: SyncEvent) -> (r: Vec<SyncEvent>)
    ensures
        events_view(r@) == seq![event_view(e1), event_view(e2)],
{
    let mut v: Vec<SyncEvent> = Vec::new();
    v.push(e1);
    v.push(e2);
    assert(events_view(v@) =~= seq![event_view(e1), event_view(e2)]);
    v
}

/// No events.
fn none() -> (r: Vec<SyncEvent>)
    ensures
        events_view(r@) == Seq::<EventV>::empty(),
{
    let v: Vec<SyncEvent> = Vec::new();
    assert(events_view(v@) =~= Seq::<EventV>::empty());
    v
}

// ---------------------------------------------------------------------------
// Events of a structured record
// ---------------------------------------------------------------------------

/// Message of the error count reported in a stats record.
pub open spec fn error_count_msg(n: u32) -> Seq<char> {
    "rclone reported "@ + decimal(n as nat) + " error(s)"@
}

/// Events of the `stats` part of a record: failure when errors are reported, the global
/// metrics, then one progress event per listed transfer.
pub open spec fn json_stats_events(st: JsonStats) -> Seq<EventV> {
    let err = match st.errors {
        Some(n) => if n > 0 {
            seq![EventV::SyncCompleted(false, Some(error_count_msg(n)))]
        } else {
            Seq::empty()
        },
        None => Seq::empty(),
    };
    let active = match st.transferring {
        Some(v) => v@.map_values(
            |t: JsonTransfer|
                EventV::ActiveTransferUpdated(
                    t.name@,
                    match t.percentage {
                        Some(p) => p,
                        None => 0u8,
                    },
                    t.speed@,
                ),
        ),
        None => Seq::empty(),
    };
    err + seq![EventV::StatsUpdated(stats_view(st.transfer))] + active
}

/// Action named by the message of a record that carries an `object` (a file path).
pub open spec fn json_file_action(msg: Seq<char>) -> Option<FileAction> {
    if seq_contains(msg, "Copied (new)"@) {
        Some(FileAction::New)
    } else if seq_contains(msg, "Deleted"@) {
        Some(FileAction::Deleted)
    } else if seq_contains(msg, "Copied (replaced existing)"@) || seq_contains(
        msg,
        "Updated file"@,
    ) || seq_contains(msg, "Updated modification time"@) || seq_contains(msg, "file changed"@) {
        Some(FileAction::Modified)
    } else {
        None
    }
}

/// Time of day of a record: the (up to) 8 characters after the `T` of its timestamp, else `now`.
pub open spec fn json_time_of_day(time: Option<Seq<char>>, now: Seq<char>) -> Seq<char> {
    match time {
        Some(t) => match find_spec(t, "T"@) {
            Some(p) => t.subrange(
                p + 1,
                if p + 9 <= t.len() {
                    p + 9
                } else {
                    t.len() as int
                },
            ),
            None => now,
        },
        None => now,
    }
}

/// A message about directory metadata, which is not a file operation.
pub open spec fn is_dir_metadata(ml: Seq<char>) -> bool {
    seq_contains(ml, "directory"@) || seq_contains(ml, "setmodtime"@)
}

/// The message of a record, or the empty text.
pub open spec fn msg_or_empty(m: Option<String>) -> Seq<char> {
    match m {
        Some(s) => s@,
        None => Seq::empty(),
    }
}

/// Event of the `object` part of a record: a completed file operation.
pub open spec fn json_object_events(log: JsonLog, now: Seq<char>) -> Seq<EventV> {
    match log.object {
        None => Seq::empty(),
        Some(obj) => {
            let msg = msg_or_empty(log.msg);
            if is_dir_metadata(lowercase(msg)) {
                Seq::empty()
            } else {
                match json_file_action(msg) {
                    Some(a) => seq![
                        EventV::FileSynced(obj@, a, json_time_of_day(opt_view(log.time), now)),
                    ],
                    None => Seq::empty(),
                }
            }
        },
    }
}

/// A lower-cased message that starts a synchronisation.
pub open spec fn json_starts_sync(ll: Seq<char>) -> bool {
    seq_contains(ll, "synching path1"@) || seq_contains(ll, "bisyncing with"@) || seq_contains(
        ll,
        "building path1 and path2 listings"@,
    )
}

/// A lower-cased message saying that Path1 (remote) was modified.
pub open spec fn path1_modified(ll: Seq<char>) -> bool {
    seq_contains(ll, "path1 was modified"@) || seq_contains(ll, "differences found on path1"@)
}

/// A lower-cased message saying that Path2 (local) was modified.
pub open spec fn path2_modified(ll: Seq<char>) -> bool {
    seq_contains(ll, "path2 was modified"@) || seq_contains(ll, "differences found on path2"@)
}

/// A lower-cased message of the updating phase.
pub open spec fn updating_text(ll: Seq<char>) -> bool {
    seq_contains(ll, "updating listings"@) || seq_contains(ll, "updating path"@)
}

/// A lower-cased message naming the transfer between the two sides.
pub open spec fn applying_text(ll: Seq<char>) -> bool {
    seq_contains(ll, "applying changes"@) || seq_contains(ll, "synching path1 to path2"@)
        || seq_contains(ll, "synching path2 to path1"@)
}

/// Phase announced by a lower-cased structured message.
pub open spec fn json_phase(ll: Seq<char>) -> Option<SyncPhase> {
    if updating_text(ll) {
        Some(SyncPhase::Updating)
    } else if applying_text(ll) {
        Some(SyncPhase::Applying)
    } else if seq_contains(ll, "path2 checking for diffs"@) || seq_contains(
        ll,
        "validating listings for path2"@,
    ) {
        Some(SyncPhase::LocalDiffs)
    } else if seq_contains(ll, "path1 checking for diffs"@) || seq_contains(
        ll,
        "validating listings for path1"@,
    ) {
        Some(SyncPhase::RemoteDiffs)
    } else {
        None
    }
}

/// Events of a phase, if any.
pub open spec fn phase_events(p: Option<SyncPhase>) -> Seq<EventV> {
    match p {
        Some(ph) => seq![EventV::PhaseChanged(ph)],
        None => Seq::empty(),
    }
}

/// Event of a diff line, if it is one.
pub open spec fn diff_events(line: Seq<char>) -> Seq<EventV> {
    match parse_diff_spec(line) {
        Some((is_local, path, action)) => seq![EventV::DiffFound(is_local, path, action)],
        None => Seq::empty(),
    }
}

/// Events when a condition holds.
pub open spec fn when(c: bool, e: Seq<EventV>) -> Seq<EventV> {
    if c {
        e
    } else {
        Seq::empty()
    }
}

/// Events of the message of a structured record.
pub open spec fn json_msg_events(msg: Seq<char>) -> Seq<EventV> {
    let clean = strip_ansi_spec(msg);
    let ll = lowercase(clean);
    when(resync_text(ll), seq![EventV::ResyncRequired(clean)]) + when(
        json_starts_sync(ll),
        seq![EventV::SyncStarted(None), EventV::PhaseChanged(SyncPhase::Listings)],
    ) + when(path1_modified(ll), seq![EventV::PathModified(false)]) + when(
        path2_modified(ll),
        seq![EventV::PathModified(true)],
    ) + phase_events(json_phase(ll)) + diff_events(clean) + if seq_contains(
        ll,
        "bisync successful"@,
    ) {
        seq![EventV::PhaseChanged(SyncPhase::Done), EventV::SyncCompleted(true, None)]
    } else if seq_contains(ll, "bisync error:"@) || seq_contains(ll, "bisync aborted"@) {
        seq![EventV::SyncCompleted(false, Some(clean))]
    } else {
        Seq::empty()
    }
}

/// Events of a structured record, in the order: statistics, file operation, message.
/// `now` is the local time of day used for a file operation whose record has no time.
pub open spec fn json_events(log: JsonLog, now: Seq<char>) -> Seq<EventV> {
    (match log.stats {
        Some(st) => json_stats_events(st),
        None => Seq::empty(),
    }) + json_object_events(log, now) + match log.msg {
        Some(m) => json_msg_events(m@),
        None => Seq::empty(),
    }
}

fn json_stats_events_exec(st: &JsonStats) -> (r: Vec<SyncEvent>)
    ensures
        events_view(r@) == json_stats_events(*st),
{
    let mut events = none();
    match st.errors {
        Some(n) => {
            if n > 0 {
                let mut m = chars_of("rclone reported ");
                let d = decimal_exec(n as u64);
                m = concat_chars(&m, &d);
                let tail = chars_of(" error(s)");
                m = concat_chars(&m, &tail);
                append_events(
                    &mut events,
                    one(SyncEvent::SyncCompleted { success: false, error_msg: Some(string_of(&m)) }),
                );
            }
        },
        None => {},
    }
    append_events(&mut events, one(SyncEvent::StatsUpdated(st.transfer.clone_stats())));
    let ghost head = events_view(events@);
    match &st.transferring {
        Some(v) => {
            let mut i: usize = 0;
            while i < v.len()
                invariant
                    i <= v.len(),
                    events_view(events@) == head + v@.subrange(0, i as int).map_values(
                        |t: JsonTransfer|
                            EventV::ActiveTransferUpdated(
                                t.name@,
                                match t.percentage {
                                    Some(p) => p,
                                    None => 0u8,
                                },
                                t.speed@,
                            ),
                    ),
                decreases v.len() - i,
            {
                let t = &v[i];
                let pct: u8 = match t.percentage {
                    Some(p) => p,
                    None => 0,
                };
                let a = ActiveFile {
                    name: t.name.clone(),
                    pct,
                    speed: t.speed.clone(),
                    last_seen: instant_now(),
                };
                append_events(&mut events, one(SyncEvent::ActiveTransferUpdated(a)));
                assert(v@.subrange(0, i + 1) =~= v@.subrange(0, i as int).push(v@[i as int]));
                i = i + 1;
            }
            assert(v@.subrange(0, v.len() as int) =~= v@);
        },
        None => {},
    }
    events
}

impl TransferStats {
    /// A copy of the metrics.
    pub fn clone_stats(&self) -> (r: TransferStats)
        ensures
            stats_view(r) == stats_view(*self),
    {
        TransferStats {
            bytes_done: self.bytes_done.clone(),
            bytes_total: self.bytes_total.clone(),
            pct: self.pct,
            speed: self.speed.clone(),
            eta: self.eta.clone(),
            files_done: self.files_done,
            files_total: self.files_total,
            checks_done: self.checks_done,
            checks_total: self.checks_total,
            elapsed: self.elapsed.clone(),
        }
    }
}

fn json_file_action_exec(msg: &Vec<char>) -> (r: Option<FileAction>)
    ensures
        r == json_file_action(msg@),
{
    if contains_str(msg, "Copied (new)") {
        Some(FileAction::New)
    } else if contains_str(msg, "Deleted") {
        Some(FileAction::Deleted)
    } else if contains_str(msg, "Copied (replaced existing)") || contains_str(msg, "Updated file")
        || contains_str(msg, "Updated modification time") || contains_str(msg, "file changed") {
        Some(FileAction::Modified)
    } else {
        None
    }
}

fn json_time_of_day_exec(time: &Option<String>, now: &String) -> (r: String)
    ensures
        r@ == json_time_of_day(opt_view(*time), now@),
{
    match time {
        Some(t) => {
            let tv = chars_of(t.as_str());
            let tpat = chars_of("T");
            match find(&tv, &tpat) {
                Some(p) => {
                    proof {
                        crate::text::lemma_contains_find(tv@, tpat@);
                        reveal_strlit("T");
                        assert(matches_at(tv@, tpat@, p as int));
                    }
                    assert(p + 1 <= tv.len());
                    let end = if tv.len() - p >= 9 {
                        p + 9
                    } else {
                        tv.len()
                    };
                    let s = slice_chars(&tv, p + 1, end);
                    string_of(&s)
                },
                None => now.clone(),
            }
        },
        None => now.clone(),
    }
}

fn json_object_events_exec(log: &JsonLog, now: &String) -> (r: Vec<SyncEvent>)
    ensures
        events_view(r@) == json_object_events(*log, now@),
{
    match &log.object {
        None => none(),
        Some(obj) => {
            let msg = match &log.msg {
                Some(m) => chars_of(m.as_str()),
                None => Vec::new(),
            };
            assert(msg@ == msg_or_empty(log.msg));
            let ml = to_lower(&msg);
            if contains_str(&ml, "directory") || contains_str(&ml, "setmodtime") {
                none()
            } else {
                match json_file_action_exec(&msg) {
                    Some(a) => {
                        let time = json_time_of_day_exec(&log.time, now);
                        one(SyncEvent::FileSynced(SyncedFile { path: obj.clone(), action: a, time }))
                    },
                    None => none(),
                }
            }
        },
    }
}

fn when_exec(c: bool, e: Vec<SyncEvent>) -> (r: Vec<SyncEvent>)
    ensures
        events_view(r@) == when(c, events_view(e@)),
{
    if c {
        e
    } else {
        none()
    }
}

fn json_phase_exec(ll: &Vec<char>) -> (r: Option<SyncPhase>)
    ensures
        r == json_phase(ll@),
{
    if contains_str(ll, "updating listings") || contains_str(ll, "updating path") {
        Some(SyncPhase::Updating)
    } else if contains_str(ll, "applying changes") || contains_str(ll, "synching path1 to path2")
        || contains_str(ll, "synching path2 to path1") {
        Some(SyncPhase::Applying)
    } else if contains_str(ll, "path2 checking for diffs") || contains_str(
        ll,
        "validating listings for path2",
    ) {
        Some(SyncPhase::LocalDiffs)
    } else if contains_str(ll, "path1 checking for diffs") || contains_str(
        ll,
        "validating listings for path1",
    ) {
        Some(SyncPhase::RemoteDiffs)
    } else {
        None
    }
}

fn phase_events_exec(p: Option<SyncPhase>) -> (r: Vec<SyncEvent>)
    ensures
        events_view(r@) == phase_events(p),
{
    match p {
        Some(ph) => one(SyncEvent::PhaseChanged(ph)),
        None => none(),
    }
}

fn diff_events_exec(line: &Vec<char>) -> (r: Vec<SyncEvent>)
    ensures
        events_view(r@) == diff_events(line@),
{
    match parse_diff_chars(line) {
        Some((is_local, detail)) => one(SyncEvent::DiffFound { is_local, detail }),
        None => none(),
    }
}

fn path1_modified_exec(ll: &Vec<char>) -> (r: bool)
    ensures
        r == path1_modified(ll@),
{
    contains_str(ll, "path1 was modified") || contains_str(ll, "differences found on path1")
}

fn path2_modified_exec(ll: &Vec<char>) -> (r: bool)
    ensures
        r == path2_modified(ll@),
{
    contains_str(ll, "path2 was modified") || contains_str(ll, "differences found on path2")
}

fn json_msg_events_exec(msg: &String) -> (r: Vec<SyncEvent>)
    ensures
        events_view(r@) == json_msg_events(msg@),
{
    let mv = chars_of(msg.as_str());
    let clean = strip_ansi_chars(&mv);
    let ll = to_lower(&clean);
    let mut events = when_exec(
        resync_text_exec(&ll),
        one(SyncEvent::ResyncRequired(string_of(&clean))),
    );
    let starts = contains_str(&ll, "synching path1") || contains_str(&ll, "bisyncing with")
        || contains_str(&ll, "building path1 and path2 listings");
    append_events(
        &mut events,
        when_exec(
            starts,
            two(SyncEvent::SyncStarted { reason: None }, SyncEvent::PhaseChanged(SyncPhase::Listings)),
        ),
    );
    append_events(
        &mut events,
        when_exec(path1_modified_exec(&ll), one(SyncEvent::PathModified { is_local: false })),
    );
    append_events(
        &mut events,
        when_exec(path2_modified_exec(&ll), one(SyncEvent::PathModified { is_local: true })),
    );
    append_events(&mut events, phase_events_exec(json_phase_exec(&ll)));
    append_events(&mut events, diff_events_exec(&clean));
    if contains_str(&ll, "bisync successful") {
        append_events(
            &mut events,
            two(
                SyncEvent::PhaseChanged(SyncPhase::Done),
                SyncEvent::SyncCompleted { success: true, error_msg: None },
            ),
        );
    } else if contains_str(&ll, "bisync error:") || contains_str(&ll, "bisync aborted") {
        append_events(
            &mut events,
            one(SyncEvent::SyncCompleted { success: false, error_msg: Some(string_of(&clean)) }),
        );
    } else {
        append_events(&mut events, none());
    }
    events
}

/// Events of a structured record at the given local time of day.
pub fn json_events_at(log: &JsonLog, now: &String) -> (r: Vec<SyncEvent>)
    ensures
        events_view(r@) == json_events(*log, now@),
{
    let mut events = match &log.stats {
        Some(st) => json_stats_events_exec(st),
        None => none(),
    };
    append_events(&mut events, json_object_events_exec(log, now));
    match &log.msg {
        Some(m) => append_events(&mut events, json_msg_events_exec(m)),
        None => append_events(&mut events, none()),
    }
    events
}

/// Converts a structured rclone record into events; a file operation without a time in its
/// record is stamped with the local time of day.
pub fn parse_json_event(log: &JsonLog) -> (r: Vec<SyncEvent>)
    ensures
        exists|now: Seq<char>| events_view(r@) == json_events(*log, now),
{
    let now = local_time_hms();
    json_events_at(log, &now)
}

} // verus!

verus! {

// ---------------------------------------------------------------------------
// Events of a legacy text line
// ---------------------------------------------------------------------------

/// A lower-cased text line that starts a synchronisation.
pub open spec fn legacy_starts_sync(ll: Seq<char>) -> bool {
    ||| (seq_contains(ll, "systemd"@) && (seq_contains(ll, "starting"@) || seq_contains(
        ll,
        "started"@,
    )) && seq_contains(ll, "rclone-bisync"@))
    ||| (seq_contains(ll, "rclone-bisync-guard"@) && seq_contains(ll, "lancement du bisync"@))
    ||| seq_contains(ll, "rclonedash: lancement du bisync"@)
    ||| seq_contains(ll, "synching path1"@)
    ||| seq_contains(ll, "bisyncing with"@)
    ||| seq_contains(ll, "building path1 and path2 listings"@)
}

/// A lower-cased text line that copies files (but not a path or a queued copy).
pub open spec fn legacy_copying(ll: Seq<char>) -> bool {
    seq_contains(ll, "copying"@) && !seq_contains(ll, "copying path"@) && !seq_contains(
        ll,
        "queue copy"@,
    )
}

/// Phase announced by a lower-cased text line.
pub open spec fn legacy_phase(ll: Seq<char>) -> Option<SyncPhase> {
    if updating_text(ll) {
        Some(SyncPhase::Updating)
    } else if applying_text(ll) || legacy_copying(ll) {
        Some(SyncPhase::Applying)
    } else if seq_contains(ll, "path2 checking for diffs"@) || seq_contains(ll, "path2: checking"@)
        || seq_contains(ll, "validating listings for path2"@) || seq_contains(
        ll,
        "differences found on path2"@,
    ) {
        Some(SyncPhase::LocalDiffs)
    } else if seq_contains(ll, "path1 checking for diffs"@) || seq_contains(ll, "path1: checking"@)
        || seq_contains(ll, "validating listings for path1"@) || seq_contains(
        ll,
        "differences found on path1"@,
    ) {
        Some(SyncPhase::RemoteDiffs)
    } else {
        None
    }
}

/// Metrics read from one text line, starting from empty metrics.
pub open spec fn fresh_stats(line: Seq<char>) -> StatsView {
    transfer_update(
        line,
        StatsView {
            bytes_done: Seq::empty(),
            bytes_total: Seq::empty(),
            pct: 0,
            speed: Seq::empty(),
            eta: Seq::empty(),
            files_done: 0,
            files_total: 0,
            checks_done: 0,
            checks_total: 0,
            elapsed: Seq::empty(),
        },
    )
}

/// Metrics that carry some information.
pub open spec fn stats_informative(s: StatsView) -> bool {
    s.bytes_done.len() > 0 || s.files_done > 0 || s.checks_done > 0 || s.speed.len() > 0
        || s.elapsed.len() > 0
}

/// A lower-cased text line that ends a synchronisation.
pub open spec fn legacy_finished(ll: Seq<char>) -> bool {
    ||| seq_contains(ll, "bisync successful"@)
    ||| (seq_contains(ll, "systemd"@) && (seq_contains(ll, "finished"@) || seq_contains(
        ll,
        "stopped"@,
    ) || seq_contains(ll, "deactivated"@)) && seq_contains(ll, "rclone-bisync"@))
    ||| (seq_contains(ll, "rclone-bisync-guard"@) && seq_contains(ll, "aucun changement"@))
    ||| (seq_contains(ll, "systemd"@) && seq_contains(ll, "failed"@) && seq_contains(
        ll,
        "rclone-bisync"@,
    ))
    ||| seq_contains(ll, "bisync error:"@)
    ||| seq_contains(ll, "bisync aborted"@)
}

/// A finished synchronisation that succeeded.
pub open spec fn legacy_success(ll: Seq<char>) -> bool {
    !seq_contains(ll, "failed"@) && !seq_contains(ll, "error:"@) && !seq_contains(ll, "aborted"@)
}

/// Events of a legacy text line; `now` stamps completed files.
pub open spec fn legacy_events(line: Seq<char>, now: Seq<char>) -> Seq<EventV> {
    let clean = strip_ansi_spec(line);
    let ll = lowercase(clean);
    let st = fresh_stats(line);
    when(
        legacy_starts_sync(ll),
        seq![EventV::SyncStarted(Some(clean)), EventV::PhaseChanged(SyncPhase::Listings)],
    ) + when(path1_modified(ll), seq![EventV::PathModified(false)]) + when(
        path2_modified(ll),
        seq![EventV::PathModified(true)],
    ) + phase_events(legacy_phase(ll)) + when(
        stats_informative(st),
        seq![EventV::StatsUpdated(st)],
    ) + match active_spec(line) {
        Some((n, p, s)) => seq![EventV::ActiveTransferUpdated(n, p, s)],
        None => Seq::empty(),
    } + match synced_spec(line) {
        Some((p, a)) => seq![EventV::FileSynced(p, a, now)],
        None => Seq::empty(),
    } + diff_events(line) + when(
        resync_text(lowercase(line)),
        seq![EventV::ResyncRequired(clean)],
    ) + when(
        legacy_finished(ll),
        seq![
            EventV::PhaseChanged(SyncPhase::Done),
            EventV::SyncCompleted(
                legacy_success(ll),
                if legacy_success(ll) {
                    None
                } else {
                    Some(clean)
                },
            ),
        ],
    )
}

fn legacy_starts_sync_exec(ll: &Vec<char>) -> (r: bool)
    ensures
        r == legacy_starts_sync(ll@),
{
    (contains_str(ll, "systemd") && (contains_str(ll, "starting") || contains_str(ll, "started"))
        && contains_str(ll, "rclone-bisync")) || (contains_str(ll, "rclone-bisync-guard")
        && contains_str(ll, "lancement du bisync")) || contains_str(
        ll,
        "rclonedash: lancement du bisync",
    ) || contains_str(ll, "synching path1") || contains_str(ll, "bisyncing with") || contains_str(
        ll,
        "building path1 and path2 listings",
    )
}

fn legacy_phase_exec(ll: &Vec<char>) -> (r: Option<SyncPhase>)
    ensures
        r == legacy_phase(ll@),
{
    if contains_str(ll, "updating listings") || contains_str(ll, "updating path") {
        Some(SyncPhase::Updating)
    } else if contains_str(ll, "applying changes") || contains_str(ll, "synching path1 to path2")
        || contains_str(ll, "synching path2 to path1") || (contains_str(ll, "copying")
        && !contains_str(ll, "copying path") && !contains_str(ll, "queue copy")) {
        Some(SyncPhase::Applying)
    } else if contains_str(ll, "path2 checking for diffs") || contains_str(ll, "path2: checking")
        || contains_str(ll, "validating listings for path2") || contains_str(
        ll,
        "differences found on path2",
    ) {
        Some(SyncPhase::LocalDiffs)
    } else if contains_str(ll, "path1 checking for diffs") || contains_str(ll, "path1: checking")
        || contains_str(ll, "validating listings for path1") || contains_str(
        ll,
        "differences found on path1",
    ) {
        Some(SyncPhase::RemoteDiffs)
    } else {
        None
    }
}

fn legacy_finished_exec(ll: &Vec<char>) -> (r: bool)
    ensures
        r == legacy_finished(ll@),
{
    contains_str(ll, "bisync successful") || (contains_str(ll, "systemd") && (contains_str(
        ll,
        "finished",
    ) || contains_str(ll, "stopped") || contains_str(ll, "deactivated")) && contains_str(
        ll,
        "rclone-bisync",
    )) || (contains_str(ll, "rclone-bisync-guard") && contains_str(ll, "aucun changement")) || (
    contains_str(ll, "systemd") && contains_str(ll, "failed") && contains_str(ll, "rclone-bisync"))
        || contains_str(ll, "bisync error:") || contains_str(ll, "bisync aborted")
}

/// Events of a legacy text line, stamping completed files with `now`.
pub fn legacy_events_at(line: &Vec<char>, now: &String) -> (r: Vec<SyncEvent>)
    ensures
        events_view(r@) == legacy_events(line@, now@),
{
    let clean = strip_ansi_chars(line);
    let ll = to_lower(&clean);
    let mut events = when_exec(
        legacy_starts_sync_exec(&ll),
        two(
            SyncEvent::SyncStarted { reason: Some(string_of(&clean)) },
            SyncEvent::PhaseChanged(SyncPhase::Listings),
        ),
    );
    append_events(
        &mut events,
        when_exec(path1_modified_exec(&ll), one(SyncEvent::PathModified { is_local: false })),
    );
    append_events(
        &mut events,
        when_exec(path2_modified_exec(&ll), one(SyncEvent::PathModified { is_local: true })),
    );
    append_events(&mut events, phase_events_exec(legacy_phase_exec(&ll)));

    let mut stats = TransferStats::new();
    parse_transfer_stats_chars(line, &mut stats);
    let informative = stats.bytes_done.as_str().unicode_len() > 0 || stats.files_done > 0
        || stats.checks_done > 0 || stats.speed.as_str().unicode_len() > 0
        || stats.elapsed.as_str().unicode_len() > 0;
    append_events(&mut events, when_exec(informative, one(SyncEvent::StatsUpdated(stats))));

    match parse_active_chars(line) {
        Some(a) => append_events(&mut events, one(SyncEvent::ActiveTransferUpdated(a))),
        None => append_events(&mut events, none()),
    }
    match parse_synced_at(line, now.clone()) {
        Some(f) => append_events(&mut events, one(SyncEvent::FileSynced(f))),
        None => append_events(&mut events, none()),
    }
    append_events(&mut events, diff_events_exec(line));
    let lower_line = to_lower(line);
    append_events(
        &mut events,
        when_exec(
            resync_text_exec(&lower_line),
            one(SyncEvent::ResyncRequired(string_of(&clean))),
        ),
    );
    if legacy_finished_exec(&ll) {
        let success = !contains_str(&ll, "failed") && !contains_str(&ll, "error:") && !contains_str(
            &ll,
            "aborted",
        );
        let msg = if !success {
            Some(string_of(&clean))
        } else {
            None
        };
        append_events(
            &mut events,
            two(
                SyncEvent::PhaseChanged(SyncPhase::Done),
                SyncEvent::SyncCompleted { success, error_msg: msg },
            ),
        );
    } else {
        append_events(&mut events, none());
    }
    events
}

/// Converts a legacy text line into events; completed files are stamped with the local
/// time of day.
pub fn parse_legacy_text_event(line: &str) -> (r: Vec<SyncEvent>)
    ensures
        exists|now: Seq<char>| events_view(r@) == legacy_events(line@, now),
{
    let v = chars_of(line);
    let now = local_time_hms();
    legacy_events_at(&v, &now)
}

// ---------------------------------------------------------------------------
// Any log line
// ---------------------------------------------------------------------------

/// The part of a trimmed line from its first `{`: where a structured record may start.
pub open spec fn json_candidate_spec(line: Seq<char>) -> Option<Seq<char>> {
    let t = trim(line);
    match find_spec(t, "{"@) {
        Some(p) => Some(t.subrange(p, t.len() as int)),
        None => None,
    }
}

/// The text to decode as a structured record, if the line holds a `{`.
pub fn json_candidate(line: &str) -> (r: Option<String>)
    ensures
        opt_view(r) == json_candidate_spec(line@),
{
    let v = chars_of(line);
    let t = trim_exec(&v);
    let brace = chars_of("{");
    match find(&t, &brace) {
        Some(p) => {
            proof {
                crate::text::lemma_contains_find(t@, brace@);
                assert(matches_at(t@, brace@, p as int));
            }
            assert(p <= t.len());
            let s = slice_chars(&t, p, t.len());
            Some(string_of(&s))
        },
        None => None,
    }
}

/// Events of any log line. `json` is the structured record decoded from
/// `json_candidate(line)`, or `None` when the line has none or it does not decode; in that
/// case the line is read as legacy text. `now` stamps files that carry no time.
pub open spec fn log_line_events(line: Seq<char>, json: Option<JsonLog>, now: Seq<char>) -> Seq<
    EventV,
> {
    let t = trim(line);
    if t.len() == 0 {
        Seq::empty()
    } else {
        match json {
            Some(log) => json_events(log, now),
            None => legacy_events(t, now),
        }
    }
}

/// Events of any log line (see `log_line_events`), at the given local time of day.
pub fn log_line_events_at(line: &Vec<char>, json: &Option<JsonLog>, now: &String) -> (r: Vec<
    SyncEvent,
>)
    ensures
        events_view(r@) == log_line_events(line@, *json, now@),
{
    let t = trim_exec(line);
    if t.len() == 0 {
        return none();
    }
    match json {
        Some(log) => json_events_at(log, now),
        None => legacy_events_at(&t, now),
    }
}

/// Analyses any log line (structured record or legacy text) and produces its events.
/// `json` is the record decoded from `json_candidate(line)`, if any.
pub fn parse_log_line(line: &str, json: &Option<JsonLog>) -> (r: Vec<SyncEvent>)
    ensures
        exists|now: Seq<char>| events_view(r@) == log_line_events(line@, *json, now),
{
    let v = chars_of(line);
    let now = local_time_hms();
    log_line_events_at(&v, json, &now)
}

} // verus!

verus! {

// ---------------------------------------------------------------------------
// Display lines
// ---------------------------------------------------------------------------

/// The first `n` characters of `t` are ASCII.
pub open spec fn ascii_prefix(t: Seq<char>, n: int) -> bool {
    forall|j: int| 0 <= j < n && j < t.len() ==> (#[trigger] t[j] as u32) < 128
}

/// Prefix shown before a structured message: `YYYY-MM-DD hh:mm:ss  ` for an RFC 3339
/// time, the raw time and two spaces otherwise, nothing without a time.
pub open spec fn time_prefix(time: Option<Seq<char>>) -> Seq<char> {
    match time {
        Some(t) => if t.len() >= 19 && (t[10] == 'T' || t[10] == ' ') && ascii_prefix(t, 19) {
            t.subrange(0, 10) + " "@ + t.subrange(11, 19) + "  "@
        } else if t.len() > 0 {
            t + "  "@
        } else {
            Seq::empty()
        },
        None => Seq::empty(),
    }
}

/// Lines shown for a structured record.
pub open spec fn json_display(log: JsonLog) -> Seq<Seq<char>> {
    let pre = time_prefix(opt_view(log.time));
    match log.object {
        Some(obj) => {
            let msg = msg_or_empty(log.msg);
            if is_dir_metadata(lowercase(msg)) {
                Seq::empty()
            } else {
                seq![pre + obj@ + ": "@ + msg]
            }
        },
        None => {
            let stat_lines = if log.stats is Some && log.msg is Some {
                crate::text::trimmed_lines(strip_ansi_spec(msg_or_empty(log.msg)))
            } else {
                Seq::empty()
            };
            if stat_lines.len() > 0 {
                stat_lines
            } else {
                match log.msg {
                    Some(m) => {
                        let ct = trim(strip_ansi_spec(m@));
                        let cl = lowercase(ct);
                        if seq_contains(cl, "directory modification time"@) || seq_contains(
                            cl,
                            "setmodtime"@,
                        ) {
                            Seq::empty()
                        } else if ct.len() > 0 {
                            seq![pre + ct]
                        } else {
                            Seq::empty()
                        }
                    },
                    None => Seq::empty(),
                }
            }
        },
    }
}

/// Lines shown in the log panel for a log line; `json` as for `log_line_events`.
pub open spec fn display_lines(line: Seq<char>, json: Option<JsonLog>) -> Seq<Seq<char>> {
    let tr = trim(line);
    if tr.len() == 0 {
        Seq::empty()
    } else {
        match json {
            Some(log) => json_display(log),
            None => {
                let clean = strip_ansi_spec(tr);
                let cl = lowercase(clean);
                if seq_contains(cl, "set directory modification time"@) || seq_contains(
                    cl,
                    "setmodtime"@,
                ) {
                    Seq::empty()
                } else {
                    crate::text::trimmed_lines(clean)
                }
            },
        }
    }
}

fn ascii_prefix_exec(t: &Vec<char>, n: usize) -> (r: bool)
    ensures
        r == ascii_prefix(t@, n as int),
{
    let mut j: usize = 0;
    while j < n && j < t.len()
        invariant
            j <= n,
            forall|k: int| 0 <= k < j && k < t@.len() ==> (#[trigger] t@[k] as u32) < 128,
        decreases n - j,
    {
        if (t[j] as u32) >= 128 {
            return false;
        }
        j = j + 1;
    }
    true
}

fn time_prefix_exec(time: &Option<String>) -> (r: Vec<char>)
    ensures
        r@ == time_prefix(opt_view(*time)),
{
    match time {
        Some(ts) => {
            let t = chars_of(ts.as_str());
            if t.len() >= 19 && (t[10] == 'T' || t[10] == ' ') && ascii_prefix_exec(&t, 19) {
                let d = slice_chars(&t, 0, 10);
                let sp = chars_of(" ");
                let h = slice_chars(&t, 11, 19);
                let sp2 = chars_of("  ");
                let a = concat_chars(&d, &sp);
                let b = concat_chars(&a, &h);
                concat_chars(&b, &sp2)
            } else if t.len() > 0 {
                let sp2 = chars_of("  ");
                concat_chars(&t, &sp2)
            } else {
                Vec::new()
            }
        },
        None => Vec::new(),
    }
}

fn single_line(v: &Vec<char>) -> (r: Vec<String>)
    ensures
        crate::text::strings_view(r@) == seq![v@],
{
    let mut out: Vec<String> = Vec::new();
    out.push(string_of(v));
    assert(crate::text::strings_view(out@) =~= seq![v@]);
    out
}

fn no_lines() -> (r: Vec<String>)
    ensures
        crate::text::strings_view(r@) == Seq::<Seq<char>>::empty(),
{
    let out: Vec<String> = Vec::new();
    assert(crate::text::strings_view(out@) =~= Seq::<Seq<char>>::empty());
    out
}

fn json_display_exec(log: &JsonLog) -> (r: Vec<String>)
    ensures
        crate::text::strings_view(r@) == json_display(*log),
{
    let pre = time_prefix_exec(&log.time);
    match &log.object {
        Some(obj) => {
            let msg = match &log.msg {
                Some(m) => chars_of(m.as_str()),
                None => Vec::new(),
            };
            assert(msg@ == msg_or_empty(log.msg));
            let ml = to_lower(&msg);
            if contains_str(&ml, "directory") || contains_str(&ml, "setmodtime") {
                return no_lines();
            }
            let ov = chars_of(obj.as_str());
            let sep = chars_of(": ");
            let a = concat_chars(&pre, &ov);
            let b = concat_chars(&a, &sep);
            let c = concat_chars(&b, &msg);
            single_line(&c)
        },
        None => {
            if log.stats.is_some() {
                match &log.msg {
                    Some(m) => {
                        let mv = chars_of(m.as_str());
                        let clean = strip_ansi_chars(&mv);
                        let ls = crate::text::trimmed_lines_exec(&clean);
                        if ls.len() > 0 {
                            return ls;
                        }
                    },
                    None => {},
                }
            }
            match &log.msg {
                Some(m) => {
                    let mv = chars_of(m.as_str());
                    let clean = strip_ansi_chars(&mv);
                    let ct = trim_exec(&clean);
                    let cl = to_lower(&ct);
                    if contains_str(&cl, "directory modification time") || contains_str(
                        &cl,
                        "setmodtime",
                    ) {
                        no_lines()
                    } else if ct.len() > 0 {
                        let l = concat_chars(&pre, &ct);
                        single_line(&l)
                    } else {
                        no_lines()
                    }
                },
                None => no_lines(),
            }
        },
    }
}

/// Formats a log line (structured record or raw text) into the human-readable lines shown in
/// the log panel; `json` is the record decoded from `json_candidate(line)`, if any.
pub fn format_log_line_for_display(line: &str, json: &Option<JsonLog>) -> (r: Vec<String>)
    ensures
        crate::text::strings_view(r@) == display_lines(line@, *json),
{
    let v = chars_of(line);
    let tr = trim_exec(&v);
    if tr.len() == 0 {
        return no_lines();
    }
    match json {
        Some(log) => json_display_exec(log),
        None => {
            let clean = strip_ansi_chars(&tr);
            let cl = to_lower(&clean);
            if contains_str(&cl, "set directory modification time") || contains_str(
                &cl,
                "setmodtime",
            ) {
                no_lines()
            } else {
                crate::text::trimmed_lines_exec(&clean)
            }
        },
    }
}

} // verus!

verus! {

/// Path1 is the remote side and Path2 the local side: a structured message (lower-cased)
/// that checks or validates one side, and names neither the listing update, nor the
/// transfer between the sides, nor the other side, announces that side's diff phase — the
/// remote diffs (second step, `2. Remote Diffs`) for Path1, the local diffs (third step,
/// `3. Local Diffs`) for Path2. A listing update comes first, the transfer next.
pub proof fn law_json_diff_phase_sides(ll: Seq<char>)
    ensures
        (seq_contains(ll, "updating listings"@) || seq_contains(ll, "updating path"@))
            ==> json_phase(ll) == Some(SyncPhase::Updating),
        !seq_contains(ll, "updating listings"@) && !seq_contains(ll, "updating path"@)
            && seq_contains(ll, "applying changes"@) ==> json_phase(ll) == Some(
            SyncPhase::Applying,
        ),
        !seq_contains(ll, "updating listings"@) && !seq_contains(ll, "updating path"@)
            && !seq_contains(ll, "applying changes"@) && !seq_contains(ll, "synching path1 to path2"@)
            && !seq_contains(ll, "synching path2 to path1"@) ==> {
            &&& (seq_contains(ll, "path1 checking for diffs"@) || seq_contains(
                ll,
                "validating listings for path1"@,
            )) && !seq_contains(ll, "path2 checking for diffs"@) && !seq_contains(
                ll,
                "validating listings for path2"@,
            ) ==> json_phase(ll) == Some(SyncPhase::RemoteDiffs)
            &&& (seq_contains(ll, "path2 checking for diffs"@) || seq_contains(
                ll,
                "validating listings for path2"@,
            )) ==> json_phase(ll) == Some(SyncPhase::LocalDiffs)
        },
        crate::events::phase_index(SyncPhase::RemoteDiffs) == 1 && crate::events::phase_name(
            SyncPhase::RemoteDiffs,
        ) == "2. Remote Diffs"@,
        crate::events::phase_index(SyncPhase::LocalDiffs) == 2 && crate::events::phase_name(
            SyncPhase::LocalDiffs,
        ) == "3. Local Diffs"@,
{
}

/// The same sides for a legacy text line (lower-cased): a line that checks, validates or
/// reports differences on Path1 and mentions neither the listing update, nor the
/// transfer, nor a copy, nor Path2's diffs, announces the remote diffs; the same on Path2
/// announces the local diffs.
pub proof fn law_legacy_diff_phase_sides(ll: Seq<char>)
    requires
        !seq_contains(ll, "updating listings"@),
        !seq_contains(ll, "updating path"@),
        !seq_contains(ll, "applying changes"@),
        !seq_contains(ll, "synching path1 to path2"@),
        !seq_contains(ll, "synching path2 to path1"@),
        !seq_contains(ll, "copying"@),
    ensures
        (seq_contains(ll, "path1 checking for diffs"@) || seq_contains(ll, "path1: checking"@)
            || seq_contains(ll, "validating listings for path1"@) || seq_contains(
            ll,
            "differences found on path1"@,
        )) && !seq_contains(ll, "path2 checking for diffs"@) && !seq_contains(
            ll,
            "path2: checking"@,
        ) && !seq_contains(ll, "validating listings for path2"@) && !seq_contains(
            ll,
            "differences found on path2"@,
        ) ==> legacy_phase(ll) == Some(SyncPhase::RemoteDiffs),
        (seq_contains(ll, "path2 checking for diffs"@) || seq_contains(ll, "path2: checking"@)
            || seq_contains(ll, "validating listings for path2"@) || seq_contains(
            ll,
            "differences found on path2"@,
        )) ==> legacy_phase(ll) == Some(SyncPhase::LocalDiffs),
{
}

/// Which file action a structured message reports: a new file only when the message says
/// `Copied (new)`; a replaced file (`Copied (replaced existing)`) is a modified one unless the
/// message also says `Copied (new)` or `Deleted`; a deletion is never reported as a copy.
pub proof fn law_json_file_action_words(msg: Seq<char>)
    ensures
        json_file_action(msg) == Some(FileAction::New) ==> seq_contains(msg, "Copied (new)"@),
        json_file_action(msg) == Some(FileAction::Deleted) ==> seq_contains(msg, "Deleted"@),
        seq_contains(msg, "Copied (replaced existing)"@) && !seq_contains(msg, "Copied (new)"@)
            && !seq_contains(msg, "Deleted"@) ==> json_file_action(msg) == Some(
            FileAction::Modified,
        ),
        seq_contains(msg, "Updated file"@) && !seq_contains(msg, "Copied (new)"@)
            && !seq_contains(msg, "Deleted"@) ==> json_file_action(msg) == Some(
            FileAction::Modified,
        ),
        seq_contains(msg, "Updated modification time"@) && !seq_contains(msg, "Copied (new)"@)
            && !seq_contains(msg, "Deleted"@) ==> json_file_action(msg) == Some(
            FileAction::Modified,
        ),
        seq_contains(msg, "Copied (new)"@) ==> json_file_action(msg) == Some(FileAction::New),
        seq_contains(msg, "Deleted"@) && !seq_contains(msg, "Copied (new)"@) ==> json_file_action(
            msg,
        ) == Some(FileAction::Deleted),
        json_file_action(msg) == Some(FileAction::Modified) ==> !seq_contains(msg, "Deleted"@)
            && !seq_contains(msg, "Copied (new)"@),
        json_file_action(msg) != Some(FileAction::Copied),
{
}

} // verus!

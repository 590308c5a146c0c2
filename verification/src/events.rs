//! Normalised synchronisation events produced by the log adapters.
use vstd::prelude::*;

verus! {

/// `std::time::Instant`, carried through the library as an opaque value.
#[verifier::external_type_specification]
#[verifier::external_body]
pub struct ExInstant(std::time::Instant);

/// `Instant::clone`: `Instant` is `Copy`, so the clone is the same instant.
pub assume_specification[ <std::time::Instant as Clone>::clone ](i: &std::time::Instant) -> (r:
    std::time::Instant)
    ensures
        r == *i,
;

/// `Instant::now`: the current instant of the monotonic clock.
#[verifier::external_body]
pub(crate) fn instant_now() -> std::time::Instant {
    std::time::Instant::now()
}

/// Kind of change that affected a file.
#[derive(Debug, Clone, Copy, PartialEq, Eq, Structural)]
pub enum FileAction {
    New,
    Modified,
    Deleted,
    Copied,
}

/// Lower-case name of a file action.
pub open spec fn action_name(a: FileAction) -> Seq<char> {
    match a {
        FileAction::New => "new"@,
        FileAction::Modified => "modified"@,
        FileAction::Deleted => "deleted"@,
        FileAction::Copied => "copied"@,
    }
}

impl FileAction {
    /// Lower-case name of the action (`new`, `modified`, `deleted`, `copied`).
    pub fn as_str(&self) -> (r: &'static str)
        ensures
            r@ == action_name(*self),
    {
        match self {
            FileAction::New => "new",
            FileAction::Modified => "modified",
            FileAction::Deleted => "deleted",
            FileAction::Copied => "copied",
        }
    }

    /// The name of the action as an owned string (what `to_string` gives).
    pub fn to_string(&self) -> (r: String)
        ensures
            r@ == action_name(*self),
    {
        String::from_str(self.as_str())
    }
}

/// A file reported as changed on one side during the diff phase.
#[derive(Debug, Clone, PartialEq, Eq)]
pub struct ModifiedFileDetail {
    pub path: String,
    pub action: FileAction,
}

/// Phases of the bisync pipeline, in order.
#[derive(Debug, Clone, Copy, PartialEq, Eq, Structural)]
pub enum SyncPhase {
    Listings,
    RemoteDiffs,
    LocalDiffs,
    Applying,
    Updating,
    Done,
}

/// Position of a phase in the pipeline (0 to 5).
pub open spec fn phase_index(p: SyncPhase) -> usize {
    match p {
        SyncPhase::Listings => 0,
        SyncPhase::RemoteDiffs => 1,
        SyncPhase::LocalDiffs => 2,
        SyncPhase::Applying => 3,
        SyncPhase::Updating => 4,
        SyncPhase::Done => 5,
    }
}

/// Numbered display name of a phase.
pub open spec fn phase_name(p: SyncPhase) -> Seq<char> {
    match p {
        SyncPhase::Listings => "1. Listings"@,
        SyncPhase::RemoteDiffs => "2. Remote Diffs"@,
        SyncPhase::LocalDiffs => "3. Local Diffs"@,
        SyncPhase::Applying => "4. Applying"@,
        SyncPhase::Updating => "5. Updating"@,
        SyncPhase::Done => "6. Done"@,
    }
}

impl SyncPhase {
    /// Position of the phase in the pipeline.
    pub fn index(&self) -> (r: usize)
        ensures
            r == phase_index(*self),
            r <= 5,
    {
        match self {
            SyncPhase::Listings => 0,
            SyncPhase::RemoteDiffs => 1,
            SyncPhase::LocalDiffs => 2,
            SyncPhase::Applying => 3,
            SyncPhase::Updating => 4,
            SyncPhase::Done => 5,
        }
    }

    /// Numbered display name of the phase.
    pub fn display_name(&self) -> (r: &'static str)
        ensures
            r@ == phase_name(*self),
    {
        match self {
            SyncPhase::Listings => "1. Listings",
            SyncPhase::RemoteDiffs => "2. Remote Diffs",
            SyncPhase::LocalDiffs => "3. Local Diffs",
            SyncPhase::Applying => "4. Applying",
            SyncPhase::Updating => "5. Updating",
            SyncPhase::Done => "6. Done",
        }
    }
}

/// Global transfer metrics, as text fields taken from the log.
#[derive(Debug, Clone, PartialEq)]
pub struct TransferStats {
    pub bytes_done: String,
    pub bytes_total: String,
    pub pct: u8,
    pub speed: String,
    pub eta: String,
    pub files_done: u32,
    pub files_total: u32,
    pub checks_done: u32,
    pub checks_total: u32,
    pub elapsed: String,
}

/// All text fields empty and all counters zero.
pub open spec fn stats_is_default(s: TransferStats) -> bool {
    &&& s.bytes_done@ == Seq::<char>::empty()
    &&& s.bytes_total@ == Seq::<char>::empty()
    &&& s.pct == 0
    &&& s.speed@ == Seq::<char>::empty()
    &&& s.eta@ == Seq::<char>::empty()
    &&& s.files_done == 0
    &&& s.files_total == 0
    &&& s.checks_done == 0
    &&& s.checks_total == 0
    &&& s.elapsed@ == Seq::<char>::empty()
}

impl TransferStats {
    /// Empty metrics.
    pub fn new() -> (r: Self)
        ensures
            stats_is_default(r),
    {
        TransferStats {
            bytes_done: String::new(),
            bytes_total: String::new(),
            pct: 0,
            speed: String::new(),
            eta: String::new(),
            files_done: 0,
            files_total: 0,
            checks_done: 0,
            checks_total: 0,
            elapsed: String::new(),
        }
    }
}

impl Default for TransferStats {
    fn default() -> (r: Self)
        ensures
            stats_is_default(r),
    {
        TransferStats::new()
    }
}

/// A file currently being transferred.
#[derive(Debug, Clone)]
pub struct ActiveFile {
    pub name: String,
    pub pct: u8,
    pub speed: String,
    pub last_seen: std::time::Instant,
}

impl PartialEq for ActiveFile {
    /// Two reports of a transfer are equal when name, percentage and speed agree (the
    /// instant of the report is not compared).
    fn eq(&self, other: &Self) -> (r: bool) {
        self.name == other.name && self.pct == other.pct && self.speed == other.speed
    }
}

impl vstd::std_specs::cmp::PartialEqSpecImpl for ActiveFile {
    open spec fn obeys_eq_spec() -> bool {
        true
    }

    open spec fn eq_spec(&self, other: &Self) -> bool {
        self.name@ == other.name@ && self.pct == other.pct && self.speed@ == other.speed@
    }
}

/// A file whose transfer or change has completed.
#[derive(Debug, Clone, PartialEq, Eq)]
pub struct SyncedFile {
    pub path: String,
    pub action: FileAction,
    pub time: String,
}

/// Universal synchronisation events produced from log lines.
#[derive(Debug, Clone, PartialEq)]
pub enum SyncEvent {
    /// A new synchronisation cycle starts.
    SyncStarted { reason: Option<String> },
    /// The pipeline enters a phase.
    PhaseChanged(SyncPhase),
    /// One side was modified (`true` = local / Path2, `false` = remote / Path1).
    PathModified { is_local: bool },
    /// Global transfer metrics were updated.
    StatsUpdated(TransferStats),
    /// Progress of one file being transferred.
    ActiveTransferUpdated(ActiveFile),
    /// A file finished transferring or changing.
    FileSynced(SyncedFile),
    /// A changed file was found during the diff phase.
    DiffFound { is_local: bool, detail: ModifiedFileDetail },
    /// A critical error that needs a `--resync`.
    ResyncRequired(String),
    /// End of the synchronisation cycle.
    SyncCompleted { success: bool, error_msg: Option<String> },
}

} // verus!

//! The dry-run simulation: how rclone is invoked for it and what its report shows.
use vstd::prelude::*;
use crate::text::{string_from, strings_view};

verus! {

/// The arguments of `rclone` for a dry run of the bidirectional synchronisation between
/// `remote` and `local_dir` with the rules of `filters_path`, with `--config` when an rclone
/// configuration file of the user's is there.
pub open spec fn dry_run_args_of(
    remote: Seq<char>,
    local_dir: Seq<char>,
    filters_path: Seq<char>,
    config: Option<Seq<char>>,
) -> Seq<Seq<char>> {
    let base = seq![
        "bisync"@,
        remote,
        local_dir,
        "--dry-run"@,
        "-v"@,
        "--use-json-log"@,
        "--tpslimit"@,
        "8"@,
        "--filter-from"@,
        filters_path,
        "--drive-skip-shortcuts"@,
        "--drive-skip-gdocs"@,
        "--conflict-resolve"@,
        "newer"@,
        "--resilient"@,
    ];
    match config {
        Some(c) => base + seq!["--config"@, c],
        None => base,
    }
}

/// The arguments of `rclone` for a dry run (see `dry_run_args_of`); `config` is the rclone
/// configuration file when it exists.
pub fn dry_run_args(remote: &str, local_dir: &str, filters_path: &str, config: Option<&str>) -> (r: Vec<String>)
    ensures
        strings_view(r@) == dry_run_args_of(
            remote@,
            local_dir@,
            filters_path@,
            match config {
                Some(c) => Some(c@),
                None => None,
            },
        ),
{
    let mut v: Vec<String> = Vec::new();
    v.push(string_from("bisync"));
    v.push(string_from(remote));
    v.push(string_from(local_dir));
    v.push(string_from("--dry-run"));
    v.push(string_from("-v"));
    v.push(string_from("--use-json-log"));
    v.push(string_from("--tpslimit"));
    v.push(string_from("8"));
    v.push(string_from("--filter-from"));
    v.push(string_from(filters_path));
    v.push(string_from("--drive-skip-shortcuts"));
    v.push(string_from("--drive-skip-gdocs"));
    v.push(string_from("--conflict-resolve"));
    v.push(string_from("newer"));
    v.push(string_from("--resilient"));
    if let Some(c) = config {
        v.push(string_from("--config"));
        v.push(string_from(c));
    }
    assert(strings_view(v@) =~= dry_run_args_of(
        remote@,
        local_dir@,
        filters_path@,
        match config {
            Some(c) => Some(c@),
            None => None,
        },
    ));
    v
}

/// The lines shown while the simulation runs.
pub open spec fn dry_run_intro() -> Seq<Seq<char>> {
    seq![
        "Analyzing differences between local folder and Google Drive..."@,
        "Executing: rclone bisync --dry-run -v --tpslimit 8"@,
        "This may take a moment..."@,
    ]
}

/// The lines shown while the simulation runs (see `dry_run_intro`).
pub fn dry_run_intro_lines() -> (r: Vec<String>)
    ensures
        strings_view(r@) == dry_run_intro(),
{
    let mut v: Vec<String> = Vec::new();
    v.push(string_from("Analyzing differences between local folder and Google Drive..."));
    v.push(string_from("Executing: rclone bisync --dry-run -v --tpslimit 8"));
    v.push(string_from("This may take a moment..."));
    assert(strings_view(v@) =~= dry_run_intro());
    v
}

/// The report of a finished simulation: the formatted output lines, or a line saying that
/// nothing would be transferred when there are none.
pub open spec fn dry_run_report_of(lines: Seq<Seq<char>>) -> Seq<Seq<char>> {
    if lines.len() == 0 {
        seq!["Everything is already in sync (no transfers detected in dry-run)."@]
    } else {
        lines
    }
}

/// The report of a finished simulation (see `dry_run_report_of`).
pub fn dry_run_report(lines: Vec<String>) -> (r: Vec<String>)
    ensures
        strings_view(r@) == dry_run_report_of(strings_view(lines@)),
{
    if lines.len() == 0 {
        let mut v: Vec<String> = Vec::new();
        v.push(string_from("Everything is already in sync (no transfers detected in dry-run)."));
        assert(strings_view(v@) =~= seq![
            "Everything is already in sync (no transfers detected in dry-run)."@,
        ]);
        v
    } else {
        lines
    }
}

/// A report never comes out empty.
pub proof fn law_report_not_empty(lines: Seq<Seq<char>>)
    ensures
        dry_run_report_of(lines).len() > 0,
{
}

/// The dry-run simulation: whether it runs, the lines shown, and rclone's raw output.
#[derive(Debug, Clone)]
pub struct DryRunState {
    pub running: bool,
    pub logs: Vec<String>,
    pub raw_logs: Vec<String>,
}

impl DryRunState {
    /// No simulation yet.
    pub fn new() -> (r: Self)
        ensures
            !r.running,
            r.logs@.len() == 0,
            r.raw_logs@.len() == 0,
    {
        DryRunState { running: false, logs: Vec::new(), raw_logs: Vec::new() }
    }

    /// A simulation starts: it runs, the waiting lines are shown (see `dry_run_intro`) and
    /// no raw output is kept yet.
    pub fn start(&mut self)
        ensures
            final(self).running,
            strings_view(final(self).logs@) == dry_run_intro(),
            final(self).raw_logs@.len() == 0,
    {
        self.running = true;
        self.logs = dry_run_intro_lines();
        self.raw_logs = Vec::new();
    }

    /// The simulation answered with its display lines and raw output: they are kept and the
    /// simulation no longer runs.
    pub fn finish(&mut self, lines: Vec<String>, raw: Vec<String>)
        ensures
            !final(self).running,
            final(self).logs == lines,
            final(self).raw_logs == raw,
    {
        self.running = false;
        self.logs = lines;
        self.raw_logs = raw;
    }
}

} // verus!

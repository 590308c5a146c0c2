use rclonedash::events::{FileAction, SyncEvent, SyncPhase, TransferStats};
use rclonedash::logline::{
    format_log_line_for_display, json_candidate, parse_log_line, JsonLog, JsonStats, JsonTransfer,
};

fn stats_of(
    bytes_done: &str,
    bytes_total: &str,
    pct: u8,
    speed: &str,
    eta: &str,
    files: (u32, u32),
    checks: (u32, u32),
    elapsed: &str,
) -> TransferStats {
    TransferStats {
        bytes_done: bytes_done.to_string(),
        bytes_total: bytes_total.to_string(),
        pct,
        speed: speed.to_string(),
        eta: eta.to_string(),
        files_done: files.0,
        files_total: files.1,
        checks_done: checks.0,
        checks_total: checks.1,
        elapsed: elapsed.to_string(),
    }
}

fn record(time: Option<&str>, msg: Option<&str>, object: Option<&str>, stats: Option<JsonStats>) -> JsonLog {
    JsonLog {
        time: time.map(|s| s.to_string()),
        msg: msg.map(|s| s.to_string()),
        object: object.map(|s| s.to_string()),
        stats,
    }
}

#[test]
fn test_format_log_line_for_display() {
    // Stats record behind an "INFO  : " prefix
    let l1 = r#"INFO  : {"time":"2026-09-21T09:45:44.586549258+02:00","level":"info","msg":"\nTransferred:   \t          0 B / 0 B, -, 0 B/s, ETA -\nChecks:                42 / 42, 100%, Listed 147\nElapsed time:         2.0s\n\n","stats":{"bytes":0,"checks":42}}"#;
    assert!(json_candidate(l1).is_some());
    let j1 = Some(record(
        Some("2026-09-21T09:45:44.586549258+02:00"),
        Some("\nTransferred:   \t          0 B / 0 B, -, 0 B/s, ETA -\nChecks:                42 / 42, 100%, Listed 147\nElapsed time:         2.0s\n\n"),
        None,
        Some(JsonStats {
            errors: None,
            transfer: stats_of("0 b", "0 b", 0, "0 B/s", "-", (0, 0), (42, 0), "0.0s"),
            transferring: None,
        }),
    ));
    let res1 = format_log_line_for_display(l1, &j1);
    assert_eq!(res1.len(), 3);
    assert!(res1[0].contains("Transferred:"));
    assert!(res1[1].contains("Checks:"));
    assert!(res1[2].contains("Elapsed time:"));

    // Copied file
    let l2 = r#"INFO  : {"time":"2026-09-21T09:45:45.000000000+02:00","level":"info","msg":"Copied (new)","object":"folder/file.txt"}"#;
    let j2 = Some(record(Some("2026-09-21T09:45:45.000000000+02:00"), Some("Copied (new)"), Some("folder/file.txt"), None));
    let res2 = format_log_line_for_display(l2, &j2);
    assert_eq!(res2.len(), 1);
    assert_eq!(res2[0], "2026-09-21 09:45:45  folder/file.txt: Copied (new)");

    // Plain informative record
    let l3 = r#"INFO  : {"time":"2026-09-21T09:45:46.000000000+02:00","level":"info","msg":"Building Path1 and Path2 listings"}"#;
    let j3 = Some(record(Some("2026-09-21T09:45:46.000000000+02:00"), Some("Building Path1 and Path2 listings"), None, None));
    let res3 = format_log_line_for_display(l3, &j3);
    assert_eq!(res3.len(), 1);
    assert_eq!(res3[0], "2026-09-21 09:45:46  Building Path1 and Path2 listings");

    // Raw text line
    let l4 = "rclone-bisync.service: Failed with result 'signal'.";
    assert!(json_candidate(l4).is_none());
    let res4 = format_log_line_for_display(l4, &None);
    assert_eq!(res4.len(), 1);
    assert_eq!(res4[0], l4);

    // Raw text with ANSI sequences
    let l5 = "\u{1b}[31mErreur critique système\u{1b}[0m";
    let res5 = format_log_line_for_display(l5, &None);
    assert_eq!(res5.len(), 1);
    assert_eq!(res5[0], "Erreur critique système");
}

#[test]
fn test_parse_json_log_stats_errors() {
    let raw_json = r#"{"time":"2026-09-21T09:40:42.000000000+02:00","level":"error","msg":"","stats":{"errors":2}}"#;
    let json = Some(record(
        Some("2026-09-21T09:40:42.000000000+02:00"),
        Some(""),
        None,
        Some(JsonStats {
            errors: Some(2),
            transfer: stats_of("0 b", "0 b", 0, "0 B/s", "-", (0, 0), (0, 0), "0.0s"),
            transferring: None,
        }),
    ));
    let events = parse_log_line(raw_json, &json);
    assert!(events.contains(&SyncEvent::SyncCompleted {
        success: false,
        error_msg: Some("rclone reported 2 error(s)".to_string()),
    }));
}

#[test]
fn test_parse_json_log_stats_and_active_files() {
    let raw_json = r#"{"time":"2026-09-21T09:40:42.278823843+02:00","level":"info","msg":"","stats":{"bytes":23097344,"checks":1,"elapsedTime":2.2,"errors":0,"eta":2,"speed":10499916.0,"totalBytes":52428800,"totalChecks":1,"totalTransfers":1,"transferring":[{"bytes":23097344,"eta":2,"name":"large.bin","percentage":44,"size":52428800,"speed":10558376.0}],"transfers":0}}"#;
    // The record as the log adapter decodes it (numbers rendered for display).
    let json = Some(record(
        Some("2026-09-21T09:40:42.278823843+02:00"),
        Some(""),
        None,
        Some(JsonStats {
            errors: Some(0),
            transfer: stats_of("22.028 mib", "50.000 mib", 44, "10.013 MiB/s", "2s", (0, 1), (1, 1), "2.2s"),
            transferring: Some(vec![JsonTransfer {
                name: "large.bin".to_string(),
                percentage: Some(44),
                speed: "10.069 MiB/s".to_string(),
            }]),
        }),
    ));

    let events = parse_log_line(raw_json, &json);
    assert!(!events.is_empty(), "Should produce events from JSON log");

    let mut has_stats = false;
    let mut has_active = false;
    for ev in events {
        match ev {
            SyncEvent::StatsUpdated(st) => {
                has_stats = true;
                assert_eq!(st.pct, 44);
                assert!(st.speed.contains("MiB/s"));
                assert_eq!(st.eta, "2s");
                assert_eq!(st.checks_done, 1);
                assert_eq!(st.checks_total, 1);
            }
            SyncEvent::ActiveTransferUpdated(act) => {
                has_active = true;
                assert_eq!(act.name, "large.bin");
                assert_eq!(act.pct, 44);
                assert!(act.speed.contains("MiB/s"));
            }
            _ => {}
        }
    }
    assert!(has_stats, "Must have StatsUpdated event");
    assert!(has_active, "Must have ActiveTransferUpdated event");
}

#[test]
fn test_parse_json_log_copied_file() {
    let raw_json = r#"{"time":"2026-09-21T09:40:47.395205362+02:00","level":"info","msg":"Copied (new)","size":6,"object":"folder/doc.pdf"}"#;
    let json = Some(record(Some("2026-09-21T09:40:47.395205362+02:00"), Some("Copied (new)"), Some("folder/doc.pdf"), None));
    let events = parse_log_line(raw_json, &json);
    assert_eq!(events.len(), 1);
    match &events[0] {
        SyncEvent::FileSynced(sf) => {
            assert_eq!(sf.path, "folder/doc.pdf");
            assert_eq!(sf.action, FileAction::New);
            assert_eq!(sf.time, "09:40:47");
        }
        _ => panic!("Expected FileSynced event"),
    }
}

#[test]
fn test_parse_json_log_ignores_directory_modtime() {
    let raw_json = r#"{"time":"2026-09-21T09:40:47.395205362+02:00","level":"info","msg":"Set directory modification time (using SetModTime)","object":"Cours/BUT_Info_S3"}"#;
    let json = Some(record(
        Some("2026-09-21T09:40:47.395205362+02:00"),
        Some("Set directory modification time (using SetModTime)"),
        Some("Cours/BUT_Info_S3"),
        None,
    ));
    let events = parse_log_line(raw_json, &json);
    assert!(events.is_empty(), "Directory modification time must NOT be treated as a synced file");

    let display_lines = format_log_line_for_display(raw_json, &json);
    assert!(display_lines.is_empty(), "Directory modification time must NOT be displayed in logs");
}

#[test]
fn test_parse_json_log_phases_and_diffs() {
    let json_diff = r#"{"time":"2026-09-21T09:40:47.000000000+02:00","level":"info","msg":"- \u001b[36mPath1\u001b[0m \u001b[35m\u001b[32mFile is new\u001b[0m\u001b[0m - \u001b[36mfile_a.txt\u001b[0m"}"#;
    let j = Some(record(
        Some("2026-09-21T09:40:47.000000000+02:00"),
        Some("- \u{1b}[36mPath1\u{1b}[0m \u{1b}[35m\u{1b}[32mFile is new\u{1b}[0m\u{1b}[0m - \u{1b}[36mfile_a.txt\u{1b}[0m"),
        None,
        None,
    ));
    let events = parse_log_line(json_diff, &j);
    assert_eq!(events.len(), 1);
    match &events[0] {
        SyncEvent::DiffFound { is_local, detail } => {
            assert!(!is_local);
            assert_eq!(detail.path, "file_a.txt");
            assert_eq!(detail.action, FileAction::New);
        }
        _ => panic!("Expected DiffFound event"),
    }

    let json_done = r#"{"time":"2026-09-21T09:40:48.000000000+02:00","level":"info","msg":"Bisync successful"}"#;
    let jd = Some(record(Some("2026-09-21T09:40:48.000000000+02:00"), Some("Bisync successful"), None, None));
    let done_events = parse_log_line(json_done, &jd);
    assert!(done_events.contains(&SyncEvent::PhaseChanged(SyncPhase::Done)));
    assert!(done_events.contains(&SyncEvent::SyncCompleted { success: true, error_msg: None }));
}

#[test]
fn legacy_lines_produce_phase_and_completion_events() {
    let ev = parse_log_line("2026/09/17 21:30:00 INFO  : Bisync error: aborted by user", &None);
    assert!(ev.contains(&SyncEvent::PhaseChanged(SyncPhase::Done)));
    assert!(ev.iter().any(|e| matches!(e, SyncEvent::SyncCompleted { success: false, error_msg: Some(_) })));

    let started = parse_log_line("Synching Path1 \"gdrive:\" with Path2 \"/home/u/GoogleDrive/\"", &None);
    assert!(matches!(&started[0], SyncEvent::SyncStarted { reason: Some(_) }));
    assert_eq!(started[1], SyncEvent::PhaseChanged(SyncPhase::Listings));

    assert!(parse_log_line("   ", &None).is_empty());
}

#[test]
fn json_candidate_starts_at_first_brace() {
    assert_eq!(json_candidate("  INFO : {\"a\":1} ").as_deref(), Some("{\"a\":1}"));
    assert_eq!(json_candidate("no json here"), None);
}

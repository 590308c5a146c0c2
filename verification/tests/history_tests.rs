use rclonedash::events::TransferStats;
use rclonedash::history::{parse_journal_history, PastRun, RunStatus};
use rclonedash::logline::{JsonLog, JsonStats};

fn record(time: &str, msg: &str, object: Option<&str>, stats: Option<JsonStats>) -> Option<JsonLog> {
    Some(JsonLog {
        time: Some(time.to_string()),
        msg: Some(msg.to_string()),
        object: object.map(|s| s.to_string()),
        stats,
    })
}

#[test]
fn test_parse_journal_history_legacy_text() {
    let sample_journal = r#"
2026-09-17T20:10:00+0200 mypc systemd[1]: Starting rclone-bisync.service...
2026-09-17T20:10:01+0200 mypc rclone-bisync-guard[1234]: Lancement du bisync
2026-09-17T20:10:02+0200 mypc rclone[1235]: Synching Path1 with Path2
2026-09-17T20:10:03+0200 mypc rclone[1235]: INFO  : Documents/notes.txt: Copied (new)
2026-09-17T20:10:04+0200 mypc rclone[1235]: Elapsed time: 4.2s
2026-09-17T20:10:05+0200 mypc rclone[1235]: Bisync successful
2026-09-17T20:20:00+0200 mypc rclone-bisync-guard[1300]: Aucun changement local détecté, sync ignoré (garde légère)
"#;

    let runs = parse_journal_history(sample_journal, 10, &Vec::new());
    assert_eq!(runs.len(), 1, "Ignored syncs / empty wakeups must be filtered from history");

    assert_eq!(runs[0].status, RunStatus::Success);
    assert_eq!(runs[0].files_copied.len(), 1);
    assert_eq!(runs[0].files_copied[0], "Documents/notes.txt");
    assert_eq!(runs[0].duration, "4.2s");
}

#[test]
fn test_parse_journal_history_json_logs() {
    let sample_json_journal = r#"
2026-09-21T09:40:00+0200 mypc systemd[1]: Starting rclone-bisync.service...
2026-09-21T09:40:01+0200 mypc rclone-bisync-guard[1234]: RcloneDash: lancement du bisync — changement local
2026-09-21T09:40:02+0200 mypc rclone[1235]: {"time":"2026-09-21T09:40:02+02:00","level":"info","msg":"Synching Path1 with Path2"}
2026-09-21T09:40:03+0200 mypc rclone[1235]: {"time":"2026-09-21T09:40:03+02:00","level":"info","msg":"Copied (new)","size":100,"object":"reports/q3.xlsx"}
2026-09-21T09:40:04+0200 mypc rclone[1235]: {"time":"2026-09-21T09:40:04+02:00","level":"info","msg":"\nTransferred: 100 / 100\nChecks: 2 / 2\nElapsed time:         1.8s\n\n","stats":{"bytes":100,"checks":2,"elapsedTime":1.8,"errors":0,"speed":500.0,"totalBytes":100,"totalChecks":2,"totalTransfers":1,"transfers":1}}
2026-09-21T09:40:05+0200 mypc rclone[1235]: {"time":"2026-09-21T09:40:05+02:00","level":"info","msg":"Bisync successful"}
2026-09-21T09:40:06+0200 mypc systemd[1]: Finished rclone-bisync.service.
"#;
    // Records decoded from the structured lines (line 0 is the empty first line).
    let stats = JsonStats {
        errors: Some(0),
        transfer: TransferStats {
            bytes_done: "100 b".to_string(),
            bytes_total: "100 b".to_string(),
            pct: 100,
            speed: "500 B/s".to_string(),
            eta: "-".to_string(),
            files_done: 1,
            files_total: 1,
            checks_done: 2,
            checks_total: 2,
            elapsed: "1.8s".to_string(),
        },
        transferring: None,
    };
    let records = vec![
        None,
        None,
        None,
        record("2026-09-21T09:40:02+02:00", "Synching Path1 with Path2", None, None),
        record("2026-09-21T09:40:03+02:00", "Copied (new)", Some("reports/q3.xlsx"), None),
        record(
            "2026-09-21T09:40:04+02:00",
            "\nTransferred: 100 / 100\nChecks: 2 / 2\nElapsed time:         1.8s\n\n",
            None,
            Some(stats),
        ),
        record("2026-09-21T09:40:05+02:00", "Bisync successful", None, None),
        None,
    ];

    let runs = parse_journal_history(sample_json_journal, 10, &records);
    assert_eq!(runs.len(), 1, "Should parse JSON run from journalctl");
    assert_eq!(runs[0].status, RunStatus::Success);
    assert_eq!(runs[0].files_copied.len(), 1);
    assert_eq!(runs[0].files_copied[0], "reports/q3.xlsx");
    assert_eq!(runs[0].duration, "1.8s");
}

#[test]
fn test_in_progress_sync_not_added_to_history() {
    let sample_journal = r#"
2026-09-17T20:10:00+0200 mypc systemd[1]: Starting rclone-bisync.service...
2026-09-17T20:10:05+0200 mypc rclone[1235]: Bisync successful
2026-09-17T20:10:06+0200 mypc systemd[1]: Finished rclone-bisync.service.
2026-09-17T20:30:00+0200 mypc systemd[1]: Starting rclone-bisync.service...
2026-09-17T20:30:01+0200 mypc rclone-bisync-guard[1400]: Lancement du bisync
2026-09-17T20:30:02+0200 mypc rclone[1401]: Synching Path1 with Path2
2026-09-17T20:30:03+0200 mypc rclone[1401]: INFO  : Photos/vacances.jpg: Copied (new)
"#;

    let runs = parse_journal_history(sample_journal, 10, &Vec::new());
    assert_eq!(runs.len(), 1, "The ongoing in-progress sync must not appear in past history runs");
    assert_eq!(runs[0].time, "20:10:00");
}

#[test]
fn failed_runs_most_recent_first_and_limited() {
    let journal = "\
2026-09-17T10:00:00+0200 pc systemd[1]: Starting rclone-bisync.service...
2026-09-17T10:00:01+0200 pc rclone[1]: ERROR : Bisync error: must run --resync to recover
2026-09-17T10:00:02+0200 pc systemd[1]: Finished rclone-bisync.service.
2026-09-17T11:00:00+0200 pc systemd[1]: Starting rclone-bisync.service...
2026-09-17T11:00:01+0200 pc rclone[1]: Bisync successful
";
    let runs = parse_journal_history(journal, 10, &Vec::new());
    assert_eq!(runs.len(), 2);
    assert_eq!(runs[0].time, "11:00:00");
    assert_eq!(runs[0].status, RunStatus::Success);
    assert_eq!(runs[1].status, RunStatus::Failed);
    assert!(!runs[1].errors.is_empty());
    assert_eq!(runs[1].id, 1);
    assert_eq!(runs[0].id, 2);

    let limited = parse_journal_history(journal, 1, &Vec::new());
    assert_eq!(limited.len(), 1);
    assert_eq!(limited[0].time, "11:00:00");
}

#[test]
fn all_affected_files_lists_each_path_once() {
    let run = PastRun {
        id: 1,
        date: "2026-09-17".to_string(),
        time: "10:00:00".to_string(),
        duration: "1s".to_string(),
        status: RunStatus::Success,
        files_copied: vec!["a.txt".to_string(), "b.txt".to_string()],
        files_modified: vec!["c.txt".to_string()],
        files_deleted: vec!["a.txt".to_string(), "d.txt".to_string()],
        synced_files: vec![("new".to_string(), "a.txt".to_string(), "10:00:00".to_string())],
        errors: vec![],
    };
    let all = run.all_affected_files();
    assert_eq!(all, vec![("new", "a.txt"), ("new", "b.txt"), ("modified", "c.txt"), ("deleted", "d.txt")]);
}

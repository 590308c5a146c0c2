use rclonedash::events::{FileAction, SyncedFile};
use rclonedash::history::{PastRun, RunStatus};
use rclonedash::recent::{recent_files, run_clipboard_text};

fn run(id: usize, synced: &[(&str, &str, &str)], copied: &[&str], deleted: &[&str], errors: &[&str]) -> PastRun {
    PastRun {
        id,
        date: "2026-09-17".to_string(),
        time: "10:00:00".to_string(),
        duration: "12s".to_string(),
        status: if errors.is_empty() { RunStatus::Success } else { RunStatus::Failed },
        files_copied: copied.iter().map(|s| s.to_string()).collect(),
        files_modified: vec![],
        files_deleted: deleted.iter().map(|s| s.to_string()).collect(),
        synced_files: synced
            .iter()
            .map(|(a, p, t)| (a.to_string(), p.to_string(), t.to_string()))
            .collect(),
        errors: errors.iter().map(|s| s.to_string()).collect(),
    }
}

fn triple(a: &str, p: &str, t: &str) -> (String, String, String) {
    (a.to_string(), p.to_string(), t.to_string())
}

#[test]
fn recent_files_live_first_then_history() {
    let live = vec![
        SyncedFile { path: "live/a.txt".to_string(), action: FileAction::New, time: "11:00:01".to_string() },
        SyncedFile { path: "live/b.txt".to_string(), action: FileAction::Deleted, time: "11:00:02".to_string() },
    ];
    let runs = vec![
        run(2, &[("modified", "Docs/x.pdf", "10:30:00"), ("new", "Docs/y.pdf", "10:31:00")], &[], &[], &[]),
        run(1, &[], &["Pics/p1.jpg", "Pics/p2.jpg"], &["Old/z.txt"], &[]),
    ];
    let list = recent_files(&live, &runs, "");
    assert_eq!(
        list,
        vec![
            triple("deleted", "live/b.txt", "11:00:02"),
            triple("new", "live/a.txt", "11:00:01"),
            triple("new", "Docs/y.pdf", "10:31:00"),
            triple("modified", "Docs/x.pdf", "10:30:00"),
            triple("new", "Pics/p2.jpg", "10:00:00"),
            triple("new", "Pics/p1.jpg", "10:00:00"),
            triple("deleted", "Old/z.txt", "10:00:00"),
        ]
    );
    let filtered = recent_files(&live, &runs, "PDF");
    assert_eq!(filtered.len(), 2);
    assert_eq!(filtered[0].1, "Docs/y.pdf");
}

#[test]
fn recent_files_stop_after_a_hundred() {
    let many: Vec<String> = (0..70).map(|i| format!("f{}", i)).collect();
    let many_refs: Vec<&str> = many.iter().map(|s| s.as_str()).collect();
    let runs = vec![
        run(3, &[], &many_refs, &[], &[]),
        run(2, &[], &many_refs, &[], &[]),
        run(1, &[], &["last"], &[], &[]),
    ];
    let list = recent_files(&Vec::new(), &runs, "");
    assert_eq!(list.len(), 100);
    assert!(list.iter().all(|e| e.1 != "last"));
    assert_eq!(list[0].1, "f69");
    assert_eq!(list[70].1, "f69");
}

#[test]
fn test_clipboard_copy_history_texts() {
    let failed = run(7, &[], &[], &[], &["ERROR : a", "ERROR : b"]);
    assert_eq!(
        run_clipboard_text(&failed),
        "Run #7 (2026-09-17 10:00:00) - 2 errors detected:\n• ERROR : a\n• ERROR : b"
    );
    let ok = run(3, &[], &["a", "b"], &["c"], &[]);
    assert_eq!(
        run_clipboard_text(&ok),
        "Run #3 (2026-09-17 10:00:00) - Status: Success (Duration: 12s)\nFiles copied: 2\nFiles modified: 0\nFiles deleted: 1"
    );
}

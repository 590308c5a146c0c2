use std::time::Instant;

use rclonedash::ansi::strip_ansi;
use rclonedash::events::{FileAction, TransferStats};
use rclonedash::parser::{
    active_from_captures, apply_stats_captures, is_resync_trigger, parse_active_file,
    parse_diff_file, parse_synced_file, parse_transfer_stats, synced_from_captures,
};

#[test]
fn test_parse_transfer_stats() {
    let mut stats = TransferStats::default();

    parse_transfer_stats(
        "Transferred:   45.200 MiB / 120.500 MiB, 37%, 2.400 MiB/s, ETA 31s",
        &mut stats,
    );
    assert_eq!(stats.bytes_done, "45.200 mib");
    assert_eq!(stats.bytes_total, "120.500 mib");
    assert_eq!(stats.pct, 37);
    assert_eq!(stats.speed, "2.400 MiB/s");
    assert_eq!(stats.eta, "31s");

    parse_transfer_stats("Transferred:             4 / 12, 33%", &mut stats);
    assert_eq!(stats.files_done, 4);
    assert_eq!(stats.files_total, 12);

    parse_transfer_stats("Checks:                128 / 128, 100%", &mut stats);
    assert_eq!(stats.checks_done, 128);
    assert_eq!(stats.checks_total, 128);

    parse_transfer_stats("Elapsed time:        1m12.3s", &mut stats);
    assert_eq!(stats.elapsed, "1m12.3s");
}

#[test]
fn test_parse_transfer_stats_edge_cases_and_future_variations() {
    let mut stats = TransferStats::default();

    parse_transfer_stats("TRANSFERRED: 1.250 GiB / 5.000 GiB, - %", &mut stats);
    assert_eq!(stats.bytes_done, "1.250 gib");
    assert_eq!(stats.bytes_total, "5.000 gib");
    assert_eq!(stats.pct, 0);

    parse_transfer_stats("transferred: 0 B / 0 B, -, 0 B/s, ETA -", &mut stats);
    assert_eq!(stats.bytes_done, "0 b");
    assert_eq!(stats.bytes_total, "0 b");
    assert_eq!(stats.speed, "0 B/s");
    assert_eq!(stats.eta, "-");

    parse_transfer_stats("transferred: 10 / 10, 100%, 1.250 GiB/s, ETA 0s", &mut stats);
    assert_eq!(stats.files_done, 10);
    assert_eq!(stats.files_total, 10);
    assert_eq!(stats.speed, "1.250 GiB/s");
    assert_eq!(stats.eta, "0s");

    parse_transfer_stats("checks: 0 / 500", &mut stats);
    assert_eq!(stats.checks_done, 0);
    assert_eq!(stats.checks_total, 500);

    parse_transfer_stats("", &mut stats);
    parse_transfer_stats("transferred: abc / def, xyz%", &mut stats);
    parse_transfer_stats("checks: NaN / Infinity", &mut stats);
}

#[test]
fn test_parse_active_file() {
    let l1 = "* Documents/video.mp4: 45% /1.234Mi, 4.5Mi/s, 2m3s";
    let res1 = parse_active_file(l1).expect("should parse full active transfer");
    assert_eq!(res1.name, "Documents/video.mp4");
    assert_eq!(res1.pct, 45);
    assert_eq!(res1.speed, "4.5Mi/s");

    let l2 = "* Audio/album.flac: checking";
    let res2 = parse_active_file(l2).expect("should parse checking file");
    assert_eq!(res2.name, "Audio/album.flac");
    assert_eq!(res2.pct, 0);

    let l3 = "* Images/photo.png: 80% /500Ki";
    let res3 = parse_active_file(l3).expect("should parse short active transfer");
    assert_eq!(res3.name, "Images/photo.png");
    assert_eq!(res3.pct, 80);

    assert!(parse_active_file("").is_none());
    assert!(parse_active_file("* ").is_none());
    assert!(parse_active_file("* invalid line without percentage").is_none());
}

#[test]
fn test_resync_trigger() {
    assert!(is_resync_trigger("ERROR : Bisync error: must run --resync to recover"));
    assert!(is_resync_trigger("Fatal: Path1 and Path2 are out of sync"));
    assert!(is_resync_trigger("prior or current is not in sync"));
    assert!(!is_resync_trigger("INFO  : Bisync successful"));
    assert!(!is_resync_trigger(""));
}

#[test]
fn test_parse_synced_files() {
    let l1 = "2026/09/17 21:30:00 INFO  : Documents/rapport.pdf: Copied (new)";
    let res1 = parse_synced_file(l1).expect("should parse new file");
    assert_eq!(res1.path, "Documents/rapport.pdf");
    assert_eq!(res1.action, FileAction::New);

    let l2 = "2026/09/17 21:30:01 INFO  : Images/photo.jpg: Copied (replaced existing)";
    let res2 = parse_synced_file(l2).expect("should parse modified file");
    assert_eq!(res2.path, "Images/photo.jpg");
    assert_eq!(res2.action, FileAction::Modified);

    let l3 = "2026/09/17 21:30:02 INFO  : Old/archive.zip: Deleted";
    let res3 = parse_synced_file(l3).expect("should parse deleted file");
    assert_eq!(res3.path, "Old/archive.zip");
    assert_eq!(res3.action, FileAction::Deleted);

    let l4 = "random irrelevant log line";
    assert!(parse_synced_file(l4).is_none());
}

#[test]
fn test_parse_synced_files_future_log_formats_and_levels() {
    let l1 = "2026/09/17 21:30:00 NOTICE: Documents/rapport.pdf: Copied (new)";
    let res1 = parse_synced_file(l1).expect("should parse NOTICE log level");
    assert_eq!(res1.path, "Documents/rapport.pdf");
    assert_eq!(res1.action, FileAction::New);

    let l2 = "DEBUG : Images/photo.png: Updated file";
    let res2 = parse_synced_file(l2).expect("should parse DEBUG log level");
    assert_eq!(res2.path, "Images/photo.png");
    assert_eq!(res2.action, FileAction::Modified);

    let l3 = "2026-09-20T17:46:29.123456+02:00 INFO : music/track.flac: Deleted";
    let res3 = parse_synced_file(l3).expect("should parse ISO8601 timestamp");
    assert_eq!(res3.path, "music/track.flac");
    assert_eq!(res3.action, FileAction::Deleted);

    let l4 = "INFO: backup/data.tar.gz: Copied (new)";
    let res4 = parse_synced_file(l4).expect("should parse without timestamp");
    assert_eq!(res4.path, "backup/data.tar.gz");
    assert_eq!(res4.action, FileAction::New);
}

#[test]
fn test_strip_ansi() {
    let raw = "\x1b[34mPath2\x1b[0m \x1b[35m\x1b[31mFile was deleted\x1b[0m\x1b[0m - \x1b[36maaa/song.mp3\x1b[0m\r";
    assert_eq!(strip_ansi(raw), "Path2 File was deleted - aaa/song.mp3");

    let rgb = "\x1b[38;2;255;100;50mColored\x1b[0m text\x1b[2K\r";
    assert_eq!(strip_ansi(rgb), "Colored text");

    let osc = "\x1b]0;rclone-title\x07Clean text";
    assert_eq!(strip_ansi(osc), "Clean text");
}

#[test]
fn test_parse_diff_file_with_ansi_codes() {
    let raw = "INFO  : - \x1b[34mPath2\x1b[0m    \x1b[35m\x1b[31mFile was deleted\x1b[0m\x1b[0m          - \x1b[36maaa/réveil/AH CA NN PAS DARABES DANS MA FRANCE.mp3\x1b[0m";
    let res = parse_diff_file(raw).unwrap();
    assert!(res.0);
    assert_eq!(res.1.path, "aaa/réveil/AH CA NN PAS DARABES DANS MA FRANCE.mp3");
    assert_eq!(res.1.action, FileAction::Deleted);
}

#[test]
fn test_parse_diff_file_rejects_matching_and_synching_headers() {
    let l1 = "Matching Path1 \"GoogleDrive:\" vs Path2 \"/home/lucas-m54/GoogleDrive/\"";
    let l2 = "Synching Path1 \"GoogleDrive:\" with Path2 \"/home/lucas-m54/GoogleDrive/\"";
    assert_eq!(parse_diff_file(l1), None);
    assert_eq!(parse_diff_file(l2), None);
}

#[test]
fn test_parse_diff_file_valid_entries() {
    let l1 = "Path1: file is new - installer_wifi_lorraine.py";
    let res1 = parse_diff_file(l1).unwrap();
    assert!(!res1.0);
    assert_eq!(res1.1.path, "installer_wifi_lorraine.py");
    assert_eq!(res1.1.action, FileAction::New);

    let l2 = "Path2: file changed - /home/lucas-m54/GoogleDrive/config.json";
    let res2 = parse_diff_file(l2).unwrap();
    assert!(res2.0);
    assert_eq!(res2.1.path, "/home/lucas-m54/GoogleDrive/config.json");
    assert_eq!(res2.1.action, FileAction::Modified);

    let l3 = "Path1: queue copy to Path2 - notes.txt";
    let res3 = parse_diff_file(l3).unwrap();
    assert!(!res3.0);
    assert_eq!(res3.1.path, "notes.txt");
    assert_eq!(res3.1.action, FileAction::Copied);

    let l4 = "Path2: file was deleted - old_backup.zip";
    let res4 = parse_diff_file(l4).unwrap();
    assert!(res4.0);
    assert_eq!(res4.1.path, "old_backup.zip");
    assert_eq!(res4.1.action, FileAction::Deleted);

    let l5 = "- Path2    File is new               - AAAA/réveil/Debout - Leo Succulent.mp3";
    let res5 = parse_diff_file(l5).unwrap();
    assert!(res5.0);
    assert_eq!(res5.1.path, "AAAA/réveil/Debout - Leo Succulent.mp3");
    assert_eq!(res5.1.action, FileAction::New);

    let l6 = "- Path1    Queue delete              - GoogleDrive{hruw5}:/AAAA/réveil/Debout - Leo Succulent.mp3";
    let res6 = parse_diff_file(l6).unwrap();
    assert!(!res6.0);
    assert_eq!(res6.1.path, "AAAA/réveil/Debout - Leo Succulent.mp3");
    assert_eq!(res6.1.action, FileAction::Deleted);
}

#[test]
fn test_parse_diff_file_resilience_and_edge_cases() {
    let l1 = "- Path2    File is new               - musique/🎉 fête & café - soirée été 2026.mp3";
    let res1 = parse_diff_file(l1).expect("should parse unicode emoji filename");
    assert!(res1.0);
    assert_eq!(res1.1.path, "musique/🎉 fête & café - soirée été 2026.mp3");
    assert_eq!(res1.1.action, FileAction::New);

    let l2 = "path2: file deleted - archive.tar";
    let res2 = parse_diff_file(l2).expect("should parse lowercase path2 and 'file deleted'");
    assert!(res2.0);
    assert_eq!(res2.1.path, "archive.tar");
    assert_eq!(res2.1.action, FileAction::Deleted);

    let l3 = "Path1: Queue copy to Path2 - remote:/folder - sub - file - name.txt";
    let res3 = parse_diff_file(l3).expect("should parse file with multiple dashes");
    assert!(!res3.0);
    assert_eq!(res3.1.path, "folder - sub - file - name.txt");
    assert_eq!(res3.1.action, FileAction::Copied);

    assert_eq!(parse_diff_file(""), None);
    assert_eq!(parse_diff_file("Path1: file is new"), None);
    assert_eq!(parse_diff_file("Path2: file changed - "), None);
    assert_eq!(parse_diff_file("random line without paths"), None);
    assert_eq!(parse_diff_file("\x00\x01\x02\u{FF}\u{FE}"), None);
}

fn caps(groups: &[Option<&str>]) -> Option<Vec<Option<String>>> {
    Some(groups.iter().map(|g| g.map(|t| t.to_string())).collect())
}

#[test]
fn metrics_from_given_captures() {
    let mut stats = TransferStats::default();
    stats.eta = "5s".to_string();
    apply_stats_captures(
        &caps(&[Some("transferred: 1 mib / 4 mib, 25%"), Some(" 1 mib "), Some("4 mib"), Some(" 25 ")]),
        &caps(&[Some("transferred: 3 / 9"), Some("3"), Some("9")]),
        &None,
        &caps(&[Some("2 MiB/s"), Some(" 2 MiB/s")]),
        &None,
        &caps(&[Some("elapsed time: 1m"), Some("1m")]),
        &mut stats,
    );
    assert_eq!(stats.bytes_done, "1 mib");
    assert_eq!(stats.bytes_total, "4 mib");
    assert_eq!(stats.pct, 25);
    assert_eq!((stats.files_done, stats.files_total), (3, 9));
    assert_eq!((stats.checks_done, stats.checks_total), (0, 0));
    assert_eq!(stats.speed, "2 MiB/s");
    assert_eq!(stats.eta, "5s");
    assert_eq!(stats.elapsed, "1m");
    // A match whose percentage group is missing leaves the amounts alone.
    apply_stats_captures(&caps(&[Some("x"), Some("7"), Some("8"), None]), &None, &None, &None, &None, &None, &mut stats);
    assert_eq!(stats.bytes_done, "1 mib");
}

#[test]
fn transfer_from_given_captures() {
    let now = Instant::now();
    let full = caps(&[Some("* a.txt: 40% /1M, 2 MiB/s, 3s"), Some(" a.txt"), Some("40"), Some("1M"), Some(" 2 MiB/s"), Some("3s")]);
    let short = caps(&[Some("* b: 7% /1M"), Some("b"), Some("7"), Some("1M")]);
    let status = caps(&[Some("* c: checking"), Some("c "), Some("checking")]);
    let a = active_from_captures(&full, &short, &status, now).unwrap();
    assert_eq!((a.name.as_str(), a.pct, a.speed.as_str()), ("a.txt", 40, "2 MiB/s"));
    assert_eq!(a.last_seen, now);
    let b = active_from_captures(&None, &short, &status, now).unwrap();
    assert_eq!((b.name.as_str(), b.pct, b.speed.as_str()), ("b", 7, ""));
    let c = active_from_captures(&None, &None, &status, now).unwrap();
    assert_eq!((c.name.as_str(), c.pct, c.speed.as_str()), ("c", 0, ""));
    assert!(active_from_captures(&None, &None, &None, now).is_none());
    assert!(active_from_captures(&caps(&[Some("*"), None, Some("4")]), &short, &status, now).is_none());
}

#[test]
fn synced_file_from_given_captures() {
    let f = synced_from_captures(&caps(&[Some("INFO  : d/e.txt: Deleted"), Some(" d/e.txt "), Some("Deleted")]), "10:00:00".to_string()).unwrap();
    assert_eq!(f.path, "d/e.txt");
    assert_eq!(f.action, FileAction::Deleted);
    assert_eq!(f.time, "10:00:00");
    let g = synced_from_captures(&caps(&[Some("x"), Some("n"), Some("Copied (new)")]), String::new()).unwrap();
    assert_eq!(g.action, FileAction::New);
    let h = synced_from_captures(&caps(&[Some("x"), Some("n"), Some("Updated file")]), String::new()).unwrap();
    assert_eq!(h.action, FileAction::Modified);
    assert!(synced_from_captures(&None, String::new()).is_none());
    assert!(synced_from_captures(&caps(&[Some("x"), Some("n")]), String::new()).is_none());
}

#[test]
fn synced_file_stamped_with_a_clock_time() {
    let f = parse_synced_file("2026/09/18 10:00:00 INFO  : a/b.txt: Copied (new)").unwrap();
    let t: Vec<char> = f.time.chars().collect();
    assert_eq!(t.len(), 8);
    assert_eq!((t[2], t[5]), (':', ':'));
    assert!(t.iter().enumerate().all(|(i, c)| i == 2 || i == 5 || c.is_ascii_digit()));
}

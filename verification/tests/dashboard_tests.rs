use rclonedash::clipboard::base64_encode;
use rclonedash::dashboard::{
    Action, CloudQuota, FirstRunField, FirstRunState, FirstRunStep, FocusedPanel, LogFilter,
    Modal, RcloneInstallStatus,
};
use rclonedash::fs_tree::{exclude_rule_line, is_path_ignored};
use rclonedash::systemd::{
    cloud_safety_net_text, service_state_from_status, timer_interval_minutes, ServiceInfo,
    ServiceState,
};

#[test]
fn test_base64_encode() {
    assert_eq!(base64_encode(""), "");
    assert_eq!(base64_encode("f"), "Zg==");
    assert_eq!(base64_encode("fo"), "Zm8=");
    assert_eq!(base64_encode("foo"), "Zm9v");
    assert_eq!(base64_encode("Hello, World!"), "SGVsbG8sIFdvcmxkIQ==");
}

#[test]
fn base64_of_multibyte_text_and_full_alphabet() {
    assert_eq!(base64_encode("é"), "w6k=");
    assert_eq!(base64_encode("foobar"), "Zm9vYmFy");
    assert_eq!(base64_encode("\u{3ff}\u{fbff}"), "z7/vr78=");
}

#[test]
fn test_is_path_ignored() {
    let filters = vec![
        "- /Cache/**".to_string(),
        "- *.tmp".to_string(),
        "- /secret.txt".to_string(),
        "+ /important/**".to_string(),
    ];

    assert!(is_path_ignored("Cache/file.dat", false, &filters));
    assert!(is_path_ignored("Cache/sub/file.dat", false, &filters));
    assert!(is_path_ignored("test.tmp", false, &filters));
    assert!(is_path_ignored("secret.txt", false, &filters));

    assert!(!is_path_ignored("Documents/rapport.pdf", false, &filters));
    assert!(!is_path_ignored("important/notes.txt", false, &filters));
}

#[test]
fn ignored_directories_and_leading_slashes() {
    let filters = vec!["  -   /Photos  ".to_string()];
    assert!(is_path_ignored("Photos", true, &filters));
    assert!(is_path_ignored("//Photos", false, &filters));
    assert!(is_path_ignored("Photos/2024", true, &filters));
    assert!(!is_path_ignored("Photos/2024", false, &filters));
    assert!(!is_path_ignored("Photos", false, &Vec::new()));
}

#[test]
fn exclusion_rule_lines() {
    assert_eq!(exclude_rule_line("Cache", true), "- /Cache/**\n");
    assert_eq!(exclude_rule_line("a/b.txt", false), "- /a/b.txt\n");
    let rule = exclude_rule_line("Cache", true);
    let rules = vec![rule.trim().to_string()];
    assert!(is_path_ignored("Cache/x", false, &rules));
}

#[test]
fn focus_cycles_through_the_three_panels() {
    let p = FocusedPanel::History;
    assert_eq!(p.next(), FocusedPanel::Logs);
    assert_eq!(p.next().next(), FocusedPanel::RecentFiles);
    assert_eq!(p.next().next().next(), p);
    assert_eq!(p.prev(), FocusedPanel::RecentFiles);
    for q in [FocusedPanel::History, FocusedPanel::Logs, FocusedPanel::RecentFiles] {
        assert_eq!(q.next().prev(), q);
        assert_eq!(q.prev().next(), q);
    }
    assert_eq!(FocusedPanel::RecentFiles.label(), "Récents");
}

#[test]
fn log_filter_tabs_and_matching() {
    for i in 0..3 {
        assert_eq!(LogFilter::from_index(i).index(), i);
    }
    assert_eq!(LogFilter::from_index(7), LogFilter::All);
    assert_eq!(LogFilter::All.next(), LogFilter::Files);
    assert_eq!(LogFilter::All.prev(), LogFilter::Problems);
    assert_eq!(LogFilter::Problems.label(), "Problems");

    assert!(LogFilter::All.matches("anything"));
    assert!(LogFilter::Files.matches("INFO  : a.txt: Copied (new)"));
    assert!(LogFilter::Files.matches("Bisync successful"));
    assert!(!LogFilter::Files.matches("ERROR : oops"));
    assert!(LogFilter::Problems.matches("ERROR : oops"));
    assert!(LogFilter::Problems.matches("NOTICE: Conflict detected"));
    assert!(!LogFilter::Problems.matches("INFO  : a.txt: Copied (new)"));
}

#[test]
fn first_run_assistant_opens_on_the_rclone_check() {
    let s = FirstRunState::new(Some("v1.68.0".to_string()), Some("id-é".to_string()), None);
    assert_eq!(s.step, FirstRunStep::RcloneCheck);
    assert_eq!(s.rclone_status, RcloneInstallStatus::Installed("v1.68.0".to_string()));
    assert_eq!(s.active_field, FirstRunField::ContinueButton);
    assert_eq!(s.client_id, "id-é");
    assert_eq!(s.client_id_cursor, "id-é".len());
    assert_eq!(s.client_secret, "");
    assert_eq!(s.client_secret_cursor, 0);
    assert!(!s.show_help);

    let s2 = FirstRunState::new(None, None, Some("sec".to_string()));
    assert_eq!(s2.rclone_status, RcloneInstallStatus::NotInstalled);
    assert_eq!(s2.active_field, FirstRunField::InstallRcloneButton);
    assert_eq!(s2.client_secret_cursor, 3);
    let m = Modal::FirstRun(Box::new(s2.clone()));
    assert_eq!(m, Modal::FirstRun(Box::new(s2)));
    assert_ne!(m, Modal::Closed);
    assert_eq!(Action::Nothing, Action::Nothing);
    assert_eq!(CloudQuota::default(), CloudQuota { total_bytes: 0, used_bytes: 0, free_bytes: 0 });
}

#[test]
fn service_status_words() {
    assert_eq!(service_state_from_status("active\n").0, ServiceState::Active);
    assert_eq!(service_state_from_status("Activating").1, "Running");
    assert_eq!(service_state_from_status(" failed ").0, ServiceState::Failed);
    assert_eq!(service_state_from_status("inactive").1, "Idle");
    let other = service_state_from_status(" Reloading ");
    assert_eq!(other.0, ServiceState::Idle);
    assert_eq!(other.1, "reloading");
    let d = ServiceInfo::default();
    assert_eq!(d.state, ServiceState::Unknown);
    assert_eq!(d.active_substate, "inconnu");
    assert_eq!(d.timer_left, "--");
}

#[test]
fn timer_interval_in_minutes() {
    assert_eq!(timer_interval_minutes("15min"), 15);
    assert_eq!(timer_interval_minutes("xmin"), 10);
    assert_eq!(timer_interval_minutes("2h"), 120);
    assert_eq!(timer_interval_minutes("h"), 60);
    assert_eq!(timer_interval_minutes("30s"), 10);
}

#[test]
fn full_sync_countdown() {
    let now = 1_000_000u64;
    assert_eq!(cloud_safety_net_text("never", &None, now), Some("Disabled".to_string()));
    assert_eq!(cloud_safety_net_text("60", &None, now), Some("On next run".to_string()));
    assert_eq!(cloud_safety_net_text("60", &Some(None), now), None);
    assert_eq!(cloud_safety_net_text("60", &Some(Some("bad".to_string())), now), None);
    let stamp = Some(Some(format!("{}\n", now - 600)));
    assert_eq!(cloud_safety_net_text("60", &stamp, now), Some("in 50 min".to_string()));
    assert_eq!(cloud_safety_net_text("10", &stamp, now), Some("Full sync due".to_string()));
    assert_eq!(cloud_safety_net_text("x", &stamp, now), Some("in 50 min".to_string()));
    let future = Some(Some(format!("{}", now + 100)));
    assert_eq!(cloud_safety_net_text("60", &future, now), Some("in 60 min".to_string()));
}

#[test]
fn install_answer_updates_the_assistant() {
    let start = FirstRunState {
        step: FirstRunStep::RcloneCheck,
        rclone_status: RcloneInstallStatus::Installing,
        client_id: "id".to_string(),
        client_secret: String::new(),
        active_field: FirstRunField::InstallRcloneButton,
        show_help: true,
        client_id_cursor: 2,
        client_secret_cursor: 0,
    };
    let mut ok = start.clone();
    assert_eq!(ok.install_finished(Ok("rclone v1.68".to_string())), "✔ Rclone installed successfully!");
    assert_eq!(ok.rclone_status, RcloneInstallStatus::Installed("rclone v1.68".to_string()));
    assert_eq!(ok.active_field, FirstRunField::ContinueButton);
    assert_eq!((ok.client_id.as_str(), ok.show_help, ok.client_id_cursor), ("id", true, 2));
    let mut bad = start.clone();
    assert_eq!(bad.install_finished(Err("no network".to_string())), "✗ Rclone installation failed");
    assert_eq!(bad.rclone_status, RcloneInstallStatus::Failed("no network".to_string()));
    assert_eq!(bad.active_field, FirstRunField::InstallRcloneButton);
    assert_eq!(bad.step, FirstRunStep::RcloneCheck);
}

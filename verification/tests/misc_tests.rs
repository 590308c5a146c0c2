use rclonedash::appearance::ContainerLayout;
use rclonedash::config::AppConfig;
use rclonedash::dashboard::{CloudQuota, EditState};
use rclonedash::filter_rules::{start_adding_filter, start_editing_filter};
use rclonedash::dry_run::{dry_run_args, dry_run_intro_lines, dry_run_report};
use rclonedash::overview::plan_tick;
use rclonedash::settings::SettingId;
use rclonedash::settings_dialog::setting_value;

#[test]
fn setting_values_as_shown() {
    let mut c = AppConfig::default();
    c.timer_interval = "never".to_string();
    assert_eq!(setting_value(&c, SettingId::TimerInterval, "Nord", &None, &None), "Never (Paused)");
    c.timer_interval = "15min".to_string();
    assert_eq!(setting_value(&c, SettingId::TimerInterval, "Nord", &None, &None), "15min");
    c.bwlimit = None;
    assert_eq!(setting_value(&c, SettingId::BandwidthLimit, "Nord", &None, &None), "Disabled");
    c.bwlimit = Some("5M".to_string());
    assert_eq!(setting_value(&c, SettingId::BandwidthLimit, "Nord", &None, &None), "5M");
    assert_eq!(setting_value(&c, SettingId::ResyncAction, "Nord", &None, &None), "Run (--resync)");
    assert_eq!(setting_value(&c, SettingId::LogJournalAction, "Nord", &None, &None), "Open logs");
    assert_eq!(setting_value(&c, SettingId::ColorTheme, "Nord", &None, &None), "Nord");
    assert_eq!(setting_value(&c, SettingId::StatsInterval, "Nord", &None, &None), "2s");
    c.tick_rate_ms = Some(1500);
    assert_eq!(setting_value(&c, SettingId::TickRate, "Nord", &None, &None), "1500ms");
    c.tick_rate_ms = None;
    assert_eq!(setting_value(&c, SettingId::TickRate, "Nord", &None, &None), "250ms");
    c.container_layout = ContainerLayout::Default;
    assert_eq!(setting_value(&c, SettingId::ContainerLayout, "Nord", &None, &None), ContainerLayout::Default.name());
    c.remote = "Drive:".to_string();
    assert_eq!(setting_value(&c, SettingId::RemoteStorage, "Nord", &None, &None), "Drive:");
    c.full_sync_interval = "weird".to_string();
    assert_eq!(setting_value(&c, SettingId::CloudSafetyNet, "Nord", &None, &None), "Custom");
    let long = Some("123456789.apps.googleusercontent.com".to_string());
    assert_eq!(setting_value(&c, SettingId::GoogleClientId, "Nord", &long, &None), "123456789.apps.g…");
    assert_eq!(setting_value(&c, SettingId::GoogleClientId, "Nord", &Some("abc".to_string()), &None), "abc…");
    assert_eq!(setting_value(&c, SettingId::GoogleClientId, "Nord", &Some(String::new()), &None), "(not set)");
    assert_eq!(setting_value(&c, SettingId::GoogleClientSecret, "Nord", &None, &Some("x".to_string())), "••••••••••••");
    assert_eq!(setting_value(&c, SettingId::GoogleClientSecret, "Nord", &None, &None), "(not set)");
}

#[test]
fn tick_plan_schedules_periodic_work() {
    let p = plan_tick(1, false, 6, false, Some(5), 300, 60);
    assert!(p.check_service && p.fetch_history && p.clear_toast && p.fetch_quota && p.count_files);
    let q = plan_tick(0, false, 5, false, Some(4), 299, 59);
    assert!(!q.check_service && !q.fetch_history && !q.clear_toast && !q.fetch_quota && !q.count_files);
    let r = plan_tick(10, true, 10, true, None, 0, 0);
    assert!(!r.check_service && !r.fetch_history && !r.clear_toast);
}

#[test]
fn dry_run_invocation_and_report() {
    let args = dry_run_args("GoogleDrive:", "/home/u/Drive", "/home/u/.config/f.txt", None);
    assert_eq!(
        args,
        vec![
            "bisync", "GoogleDrive:", "/home/u/Drive", "--dry-run", "-v", "--use-json-log",
            "--tpslimit", "8", "--filter-from", "/home/u/.config/f.txt", "--drive-skip-shortcuts",
            "--drive-skip-gdocs", "--conflict-resolve", "newer", "--resilient",
        ]
    );
    let with_conf = dry_run_args("r:", "/l", "/f", Some("/c/rclone.conf"));
    assert_eq!(with_conf.len(), 17);
    assert_eq!(with_conf[15], "--config");
    assert_eq!(with_conf[16], "/c/rclone.conf");
    assert_eq!(dry_run_intro_lines().len(), 3);
    assert_eq!(
        dry_run_report(Vec::new()),
        vec!["Everything is already in sync (no transfers detected in dry-run)."]
    );
    assert_eq!(dry_run_report(vec!["x".to_string()]), vec!["x"]);
}

#[test]
fn starting_to_type_filter_rules() {
    let rules = vec!["- /a/**".to_string(), "+ /b".to_string()];
    let (mut sel, mut off) = (1usize, 0usize);
    assert_eq!(
        start_editing_filter(&rules, &mut sel, &mut off, 4),
        Some(EditState::Filter { index: 1, buffer: "+ /b".to_string() })
    );
    assert_eq!((sel, off), (1, 0));
    sel = 5;
    assert_eq!(start_editing_filter(&rules, &mut sel, &mut off, 4), None);
    let mut off2 = 3usize;
    let mut sel2 = 9usize;
    assert_eq!(
        start_editing_filter(&Vec::new(), &mut sel2, &mut off2, 4),
        Some(EditState::AddingFilter { buffer: "- ".to_string() })
    );
    assert_eq!((sel2, off2), (0, 0));
    let (mut s3, mut o3) = (0usize, 0usize);
    assert_eq!(start_adding_filter(12, &mut s3, &mut o3, 5), EditState::AddingFilter { buffer: "- ".to_string() });
    assert_eq!((s3, o3), (12, 8));
}

#[test]
fn quota_from_rclone_about() {
    let q = CloudQuota::from_about(100, 40, 60).unwrap();
    assert_eq!((q.total_bytes, q.used_bytes, q.free_bytes), (100, 40, 60));
    assert!(CloudQuota::from_about(0, 40, 60).is_none());
}

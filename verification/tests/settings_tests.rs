use rclonedash::appearance::{BorderStyleChoice, ContainerLayout, GraphStyleChoice, MidPanelOrder};
use rclonedash::config::{
    bwlimit_file_content, config_file, expand_tilde, filters_file, filters_file_content,
    last_full_sync_marker, parse_bwlimit, parse_filters, path_join_exec, quota_cache_file,
    AppConfig, CloudQuotaCache,
};
use rclonedash::options_list::format_setting_options_list;
use rclonedash::settings_dialog::SettingKind;
use rclonedash::setting_cycle::{can_dec_stats_interval, can_inc_stats_interval, cycle_setting, step_stats_interval, SettingChange};
use rclonedash::settings::{
    bwlimit_options, full_sync_label, full_sync_options, tick_rate_options, tick_rate_steps,
    timer_interval_options, SettingId,
};

fn owned(v: &[&str]) -> Vec<String> {
    v.iter().map(|s| s.to_string()).collect()
}

#[test]
fn test_settings_dynamic_descriptions_sync() {
    assert!(SettingId::TimerInterval.desc_intro().contains("rclone-bisync.timer"));
    assert!(SettingId::CloudSafetyNet.desc_intro().contains("bidirectional sync"));
    assert!(SettingId::BandwidthLimit.desc_intro().contains("bwlimit.env"));
    assert!(SettingId::ColorTheme.desc_intro().contains("dashboard"));
    assert!(SettingId::ContainerLayout.desc_intro().contains("containers"));
    assert!(SettingId::BorderStyle.desc_intro().contains("dash-config.json"));
    assert!(SettingId::GraphStyle.desc_intro().contains("sparkline"));
}

#[test]
fn test_setting_choices_single_source_of_truth() {
    let steps = tick_rate_steps();
    assert!(steps.contains(&250));
    assert_eq!(steps.len(), 22);

    let tick_opts = tick_rate_options();
    assert_eq!(tick_opts.len(), 22);
    for (i, &step) in steps.iter().enumerate() {
        assert_eq!(tick_opts[i], format!("{}ms", step));
    }

    let themes = owned(&["TokyoNight", "Dracula", "Grayscale"]);
    assert_eq!(SettingId::TickRate.choices(&themes), Some(tick_opts));

    assert_eq!(
        SettingId::TimerInterval.choices(&themes).unwrap(),
        owned(&timer_interval_options())
    );
    assert_eq!(
        SettingId::CloudSafetyNet.choices(&themes).unwrap(),
        full_sync_options().iter().map(|o| o.label.to_string()).collect::<Vec<_>>()
    );
    assert_eq!(
        SettingId::BandwidthLimit.choices(&themes).unwrap(),
        owned(&bwlimit_options())
    );
    assert_eq!(SettingId::ColorTheme.choices(&themes).unwrap(), themes);
    assert_eq!(
        SettingId::ContainerLayout.choices(&themes).unwrap(),
        ContainerLayout::all().iter().map(|l| l.name().to_string()).collect::<Vec<_>>()
    );
    assert_eq!(
        SettingId::MidPanelOrder.choices(&themes).unwrap(),
        MidPanelOrder::all().iter().map(|m| m.name().to_string()).collect::<Vec<_>>()
    );
    assert_eq!(
        SettingId::BorderStyle.choices(&themes).unwrap(),
        BorderStyleChoice::all().iter().map(|b| b.name().to_string()).collect::<Vec<_>>()
    );
    assert_eq!(
        SettingId::GraphStyle.choices(&themes).unwrap(),
        GraphStyleChoice::all().iter().map(|g| g.name().to_string()).collect::<Vec<_>>()
    );

    assert!(SettingId::LocalDirectory.choices(&themes).is_none());
    assert!(SettingId::RemoteStorage.choices(&themes).is_none());
    assert!(SettingId::ResyncAction.choices(&themes).is_none());
    assert!(SettingId::LogJournalAction.choices(&themes).is_none());
}

#[test]
fn test_format_setting_options_list_columns_and_precision() {
    let timer = owned(&timer_interval_options());
    let timer_formatted = format_setting_options_list(&timer, "15min");
    assert_eq!(timer_formatted.lines().count(), 6);
    assert!(timer_formatted.contains("  ▶ 15min (active)"));
    assert!(timer_formatted.contains("  • 10min"));

    let choices = tick_rate_options();
    let formatted_100 = format_setting_options_list(&choices, "100ms");
    assert_eq!(formatted_100.lines().count(), 8);

    assert!(formatted_100.contains("▶ 100ms (active)"));
    assert!(!formatted_100.contains("▶ 1000ms (active)"));
    assert!(!formatted_100.contains("▶ 10000ms (active)"));
    assert!(formatted_100.contains("• 1000ms"));
    assert!(formatted_100.contains("• 10000ms"));

    let formatted_250 = format_setting_options_list(&choices, "250ms");
    assert!(formatted_250.contains("▶ 250ms (active)"));
    assert!(!formatted_250.contains("▶ 2500ms (active)"));
    assert!(formatted_250.contains("• 2500ms"));
}

#[test]
fn test_appearance_enums_cycling() {
    let l = ContainerLayout::Default;
    assert_eq!(l.next(), ContainerLayout::RecentFirst);
    assert_eq!(l.next().next(), ContainerLayout::LogsTop);
    assert_eq!(l.next().next().next(), ContainerLayout::Inverted);
    assert_eq!(l.next().next().next().next(), ContainerLayout::Default);
    assert_eq!(l.prev(), ContainerLayout::Inverted);

    let m = MidPanelOrder::HistoryLogs;
    assert_eq!(m.next(), MidPanelOrder::LogsHistory);
    assert_eq!(m.next().next(), MidPanelOrder::HistoryLogs);
    assert_eq!(m.prev(), MidPanelOrder::LogsHistory);

    let b = BorderStyleChoice::Rounded;
    assert_eq!(b.next(), BorderStyleChoice::Sharp);
    assert_eq!(b.next().next(), BorderStyleChoice::Double);
    assert_eq!(b.next().next().next(), BorderStyleChoice::Thick);
    assert_eq!(b.prev(), BorderStyleChoice::Thick);

    let g = GraphStyleChoice::Braille;
    assert_eq!(g.next(), GraphStyleChoice::Blocks);
    assert_eq!(g.next().next(), GraphStyleChoice::Braille);
    assert_eq!(g.prev(), GraphStyleChoice::Blocks);

    assert_eq!(BorderStyleChoice::Double.glyphs().horizontal, "═");
    assert_eq!(BorderStyleChoice::Double.glyphs().top_left, "╗");
    assert_eq!(BorderStyleChoice::Thick.glyphs().horizontal, "━");
    assert_eq!(BorderStyleChoice::Thick.glyphs().top_left, "┓");
}

#[test]
fn next_and_prev_undo_each_other_on_every_appearance_value() {
    for l in ContainerLayout::all() {
        assert_eq!(l.next().prev(), l);
        assert_eq!(l.prev().next(), l);
    }
    for b in BorderStyleChoice::all() {
        assert_eq!(b.next().prev(), b);
        assert_eq!(b.prev().next(), b);
    }
    for m in MidPanelOrder::all() {
        assert_eq!(m.next().next(), m);
        assert_ne!(m.next(), m);
    }
    for g in GraphStyleChoice::all() {
        assert_eq!(g.next().next(), g);
        assert_eq!(g.prev(), g.next());
    }
    assert_eq!(ContainerLayout::default(), ContainerLayout::Default);
    assert_eq!(BorderStyleChoice::Sharp.glyphs(), BorderStyleChoice::Rounded.glyphs());
}

#[test]
fn full_sync_labels_and_custom_values() {
    assert_eq!(full_sync_label("60"), "1h (Recommended)");
    assert_eq!(full_sync_label("1440"), "24h (1 day)");
    assert_eq!(full_sync_label("never"), "Never (Local)");
    assert_eq!(full_sync_label("90"), "Custom");
    assert_eq!(full_sync_label(""), "Custom");
}

#[test]
fn setting_rows_per_tab() {
    assert_eq!(SettingId::from_tab_and_idx(0, 0), Some(SettingId::TimerInterval));
    assert_eq!(SettingId::from_tab_and_idx(0, 3), Some(SettingId::StatsInterval));
    assert_eq!(SettingId::from_tab_and_idx(0, 4), Some(SettingId::LocalDirectory));
    assert_eq!(SettingId::from_tab_and_idx(0, 7), Some(SettingId::LogJournalAction));
    assert_eq!(SettingId::from_tab_and_idx(0, 10), None);
    assert_eq!(SettingId::from_tab_and_idx(1, 5), Some(SettingId::TickRate));
    assert_eq!(SettingId::from_tab_and_idx(1, 6), None);
    assert_eq!(SettingId::from_tab_and_idx(2, 0), None);
    assert_eq!(SettingId::tab_count(0), 10);
    assert_eq!(SettingId::tab_count(1), 6);
    assert_eq!(SettingId::tab_count(5), 6);
    for tab in 0..2 {
        for idx in 0..SettingId::tab_count(tab) {
            assert!(SettingId::from_tab_and_idx(tab, idx).is_some());
        }
    }
    assert_eq!(SettingId::TickRate.label(), "UI Loop frequency");
    assert_eq!(SettingId::BandwidthLimit.desc_title(), "Bandwidth limit (bwlimit).");
}

#[test]
fn options_list_marks_disabled_and_ignores_case_and_spaces() {
    let bw = owned(&bwlimit_options());
    let empty_current = format_setting_options_list(&bw, "");
    assert!(empty_current.starts_with("  ▶ Disabled (active)\n  • 5M"));
    let spaced = format_setting_options_list(&bw, " 1 0m ");
    assert!(spaced.contains("  ▶ 10M (active)"));
    assert_eq!(format_setting_options_list(&Vec::<String>::new(), "x"), "");
    assert_eq!(format_setting_options_list(&owned(&["a", "b"]), "b"), "  • a\n  ▶ b (active)");
}

#[test]
fn options_list_two_column_grid_alignment() {
    let items: Vec<String> = (1..=9).map(|i| format!("o{}", i)).collect();
    let out = format_setting_options_list(&items, "o2");
    let lines: Vec<&str> = out.lines().collect();
    assert_eq!(lines.len(), 5);
    assert_eq!(lines[0], format!("  • o1{}• o6", " ".repeat(11)));
    assert_eq!(lines[1], "  ▶ o2 (active)  • o7");
    assert_eq!(lines[4], "  • o5");
}

#[test]
fn config_paths_join_the_directory() {
    assert_eq!(config_file("/home/u/.config/rclone"), "/home/u/.config/rclone/dash-config.json");
    assert_eq!(filters_file("/cfg/"), "/cfg/gdrive-filters.txt");
    assert_eq!(last_full_sync_marker("cfg"), "cfg/.last-full-sync");
    assert_eq!(quota_cache_file(""), ".quota-cache.json");
    assert_eq!(path_join_exec("/a", "/abs"), "/abs");
}

#[test]
fn tilde_expansion() {
    assert_eq!(expand_tilde("~", Some("/home/u")), "/home/u");
    assert_eq!(expand_tilde("~/", Some("/home/u")), "/home/u");
    assert_eq!(expand_tilde("~/GoogleDrive", Some("/home/u")), "/home/u/GoogleDrive");
    assert_eq!(expand_tilde("~//a/b/", Some("/home/u/")), "/home/u/a/b");
    assert_eq!(expand_tilde("~other/x", Some("/home/u")), "~other/x");
    assert_eq!(expand_tilde("~/x", None), "~/x");
    assert_eq!(expand_tilde("/abs/~", Some("/home/u")), "/abs/~");
    assert_eq!(expand_tilde("~/./x", Some("/home/u")), "/home/u/x");
    assert_eq!(expand_tilde("~/.", Some("/home/u")), "/home/u");
    assert_eq!(expand_tilde("~/x/./y/.", Some("/home/u")), "/home/u/x/./y");
    assert_eq!(expand_tilde("~/../x", Some("/home/u")), "/home/u/../x");
    assert_eq!(expand_tilde("~/.config", Some("/home/u")), "/home/u/.config");
}

#[test]
fn bwlimit_file_round_trip() {
    assert_eq!(parse_bwlimit("# limit\nRCLONE_BWLIMIT= 10M \n"), Some("10M".to_string()));
    assert_eq!(parse_bwlimit("OTHER=1\n"), None);
    assert_eq!(parse_bwlimit(""), None);
    assert_eq!(bwlimit_file_content("  20M "), "RCLONE_BWLIMIT=20M\n");
    assert_eq!(bwlimit_file_content("   "), "");
    assert_eq!(bwlimit_file_content("Désactivé"), "");
    let written = bwlimit_file_content("50M");
    assert_eq!(parse_bwlimit(&written), Some("50M".to_string()));
}

#[test]
fn filter_rules_file_round_trip() {
    let rules = owned(&["- /Cache/**", "+ /important/**"]);
    let text = filters_file_content(&rules);
    assert_eq!(text, "- /Cache/**\n+ /important/**\n");
    assert_eq!(parse_filters(&text), rules);
    assert_eq!(filters_file_content(&Vec::new()), "");
    assert!(parse_filters("").is_empty());
}

#[test]
fn default_configuration_and_quota_cache() {
    let c = AppConfig::default();
    assert_eq!(c.remote, "GoogleDrive:");
    assert_eq!(c.local_dir, "~/GoogleDrive");
    assert_eq!(c.timer_interval, "10min");
    assert_eq!(c.full_sync_interval, "60");
    assert_eq!(c.bwlimit, None);
    assert_eq!(c.theme.as_deref(), Some("TokyoNight"));
    assert_eq!(c.tick_rate_ms, Some(250));
    assert_eq!(c.container_layout, ContainerLayout::Default);
    assert_eq!(c.border_style, BorderStyleChoice::Rounded);
    let q = CloudQuotaCache::default();
    assert_eq!(q, CloudQuotaCache { total_bytes: 0, used_bytes: 0, free_bytes: 0 });
}

#[test]
fn test_google_credentials_settings_editing() {
    assert_eq!(SettingId::from_tab_and_idx(0, 8), Some(SettingId::GoogleClientId));
    assert!(SettingId::GoogleClientId.is_text_input());
    assert_eq!(SettingId::from_tab_and_idx(0, 9), Some(SettingId::GoogleClientSecret));
    assert!(SettingId::GoogleClientSecret.is_text_input());
    assert!(SettingId::GoogleClientId.choices(&Vec::new()).is_none());
    assert!(SettingId::GoogleClientSecret.choices(&Vec::new()).is_none());
}

#[test]
fn test_stats_interval_stepping() {
    let mut c = AppConfig::default();
    assert_eq!(c.stats_interval, "2s");
    c.stats_interval = "3s".to_string();
    assert!(step_stats_interval(&mut c, false));
    assert_eq!(c.stats_interval, "2s");
    assert!(step_stats_interval(&mut c, false));
    assert_eq!(c.stats_interval, "1s");
    assert!(!step_stats_interval(&mut c, false));
    assert_eq!(c.stats_interval, "1s");
    assert!(step_stats_interval(&mut c, true));
    assert_eq!(c.stats_interval, "2s");
    c.stats_interval = "30s".to_string();
    assert!(!step_stats_interval(&mut c, true));
    assert_eq!(c.stats_interval, "30s");
    c.stats_interval = "7s".to_string();
    assert!(step_stats_interval(&mut c, true));
    assert_eq!(c.stats_interval, "2s");
}

#[test]
fn test_stats_interval_stepping_and_settings_harmony() {
    let mut c = AppConfig::default();
    c.stats_interval = "2s".to_string();
    step_stats_interval(&mut c, true);
    assert_eq!(c.stats_interval, "3s");
    step_stats_interval(&mut c, false);
    assert_eq!(c.stats_interval, "2s");
    let setting = SettingId::from_tab_and_idx(0, 3).unwrap();
    assert_eq!(setting.kind(), SettingKind::Cycle);
    assert_eq!(cycle_setting(&mut c, setting, true, &vec![]), SettingChange::Changed);
    assert_eq!(c.stats_interval, "3s");
    c.stats_interval = "30s".to_string();
    cycle_setting(&mut c, setting, true, &vec![]);
    assert_eq!(c.stats_interval, "1s");
    cycle_setting(&mut c, setting, false, &vec![]);
    assert_eq!(c.stats_interval, "30s");
    assert_eq!(setting.label(), "Rclone stats interval");
    assert_eq!(
        setting.choices(&vec![]).unwrap(),
        vec!["1s", "2s", "3s", "5s", "10s", "15s", "30s"]
    );
}

#[test]
fn test_stats_interval_boundaries() {
    let mut c = AppConfig::default();
    c.stats_interval = "1s".to_string();
    assert!(!can_dec_stats_interval(&c));
    assert!(can_inc_stats_interval(&c));
    c.stats_interval = "30s".to_string();
    assert!(can_dec_stats_interval(&c));
    assert!(!can_inc_stats_interval(&c));
    c.stats_interval = "5s".to_string();
    assert!(can_dec_stats_interval(&c));
    assert!(can_inc_stats_interval(&c));
}

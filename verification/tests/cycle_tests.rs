use rclonedash::appearance::{BorderStyleChoice, ContainerLayout, GraphStyleChoice, MidPanelOrder};
use rclonedash::config::AppConfig;
use rclonedash::setting_cycle::{cycle_setting, SettingChange};
use rclonedash::settings::SettingId;

fn themes() -> Vec<String> {
    vec!["TokyoNight".to_string(), "Dracula".to_string(), "Nord".to_string()]
}

#[test]
fn test_settings_never_cycle_into_unknown_values() {
    let mut c = AppConfig::default();
    assert_eq!(cycle_setting(&mut c, SettingId::TimerInterval, true, &themes()), SettingChange::Changed);
    assert_eq!(c.timer_interval, "15min");
    cycle_setting(&mut c, SettingId::TimerInterval, false, &themes());
    cycle_setting(&mut c, SettingId::TimerInterval, false, &themes());
    assert_eq!(c.timer_interval, "4h");
    c.timer_interval = "7min".to_string();
    cycle_setting(&mut c, SettingId::TimerInterval, true, &themes());
    assert_eq!(c.timer_interval, "15min");
}

#[test]
fn full_sync_and_bandwidth_cycling() {
    let mut c = AppConfig::default();
    cycle_setting(&mut c, SettingId::CloudSafetyNet, false, &themes());
    assert_eq!(c.full_sync_interval, "never");
    cycle_setting(&mut c, SettingId::CloudSafetyNet, true, &themes());
    assert_eq!(c.full_sync_interval, "60");

    assert_eq!(c.bwlimit, None);
    cycle_setting(&mut c, SettingId::BandwidthLimit, true, &themes());
    assert_eq!(c.bwlimit.as_deref(), Some("5M"));
    cycle_setting(&mut c, SettingId::BandwidthLimit, false, &themes());
    assert_eq!(c.bwlimit, None);
    c.bwlimit = Some("Désactivé".to_string());
    cycle_setting(&mut c, SettingId::BandwidthLimit, false, &themes());
    assert_eq!(c.bwlimit.as_deref(), Some("50M"));
}

#[test]
fn appearance_theme_and_tick_cycling() {
    let mut c = AppConfig::default();
    cycle_setting(&mut c, SettingId::ColorTheme, true, &themes());
    assert_eq!(c.theme.as_deref(), Some("Dracula"));
    c.theme = None;
    cycle_setting(&mut c, SettingId::ColorTheme, false, &themes());
    assert_eq!(c.theme.as_deref(), Some("Nord"));
    assert_eq!(cycle_setting(&mut c, SettingId::ColorTheme, true, &Vec::new()), SettingChange::Nothing);

    cycle_setting(&mut c, SettingId::ContainerLayout, false, &themes());
    assert_eq!(c.container_layout, ContainerLayout::Inverted);
    cycle_setting(&mut c, SettingId::MidPanelOrder, true, &themes());
    assert_eq!(c.mid_panel_order, MidPanelOrder::LogsHistory);
    cycle_setting(&mut c, SettingId::BorderStyle, true, &themes());
    assert_eq!(c.border_style, BorderStyleChoice::Sharp);
    cycle_setting(&mut c, SettingId::GraphStyle, false, &themes());
    assert_eq!(c.graph_style, GraphStyleChoice::Blocks);

    assert_eq!(c.tick_rate_ms, Some(250));
    cycle_setting(&mut c, SettingId::TickRate, true, &themes());
    assert_eq!(c.tick_rate_ms, Some(300));
    c.tick_rate_ms = Some(10000);
    cycle_setting(&mut c, SettingId::TickRate, true, &themes());
    assert_eq!(c.tick_rate_ms, Some(100));
    c.tick_rate_ms = Some(333);
    cycle_setting(&mut c, SettingId::TickRate, false, &themes());
    assert_eq!(c.tick_rate_ms, Some(200));

    let before = c.clone();
    assert_eq!(cycle_setting(&mut c, SettingId::ResyncAction, true, &themes()), SettingChange::ConfirmResync);
    assert_eq!(cycle_setting(&mut c, SettingId::LocalDirectory, true, &themes()), SettingChange::Nothing);
    assert_eq!(c.local_dir, before.local_dir);
}

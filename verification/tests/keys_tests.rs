use rclonedash::dashboard::{
    EditState, FirstRunField, FirstRunState, FirstRunStep, FocusedPanel, HitAction,
    RcloneInstallStatus,
};
use rclonedash::dashboard_keys::{
    can_cancel_sync, copy_run_index, dashboard_key, is_ctrl_x, row_click, run_target,
    DashboardRequest, RowClick, RunTarget,
};
use rclonedash::dialog_keys::{
    confirm_answer, details_key, dry_run_key, files_nav_key, filters_key, help_closes, logs_key,
    logs_wheel, menu_key, menu_option, rule_edit_key, text_wheel, total_log_lines, DetailsOutcome,
    DryRunOutcome, FiltersOutcome, MenuOutcome, RuleEditOutcome,
};
use rclonedash::dashboard::LogFilter;
use rclonedash::dialog_keys::{filtered_log_lines, logs_clipboard_text};
use rclonedash::first_run::FirstRunCommand;
use rclonedash::line_edit::{clean_clipboard_text, edit_line, paste_line, Key};
use rclonedash::settings::SettingId;
use rclonedash::settings_dialog::{
    commit_setting_edit, scroll_settings_down, scroll_settings_up, setting_edit_key,
    settings_items_count, settings_key, start_editing_setting, SettingCommit, SettingEditOutcome,
    SettingKind, SettingsRequest,
};
use rclonedash::config::AppConfig;

fn credentials_state() -> FirstRunState {
    let mut s = FirstRunState::new(Some("rclone v1.68.0".to_string()), None, None);
    s.step = FirstRunStep::GoogleCredentials;
    s.active_field = FirstRunField::ClientIdInput;
    s
}

#[test]
fn text_field_cursor_navigation_and_editing() {
    let mut buf = "hello".to_string();
    let mut cur: usize = 5;
    edit_line(&mut buf, &mut cur, Key::Left);
    assert_eq!(cur, 4);
    edit_line(&mut buf, &mut cur, Key::Left);
    assert_eq!(cur, 3);
    edit_line(&mut buf, &mut cur, Key::Char('X'));
    assert_eq!(buf, "helXlo");
    assert_eq!(cur, 4);
    edit_line(&mut buf, &mut cur, Key::Home);
    assert_eq!(cur, 0);
    edit_line(&mut buf, &mut cur, Key::Delete);
    assert_eq!(buf, "elXlo");
    assert_eq!(cur, 0);
    edit_line(&mut buf, &mut cur, Key::End);
    assert_eq!(cur, 5);
    edit_line(&mut buf, &mut cur, Key::Backspace);
    assert_eq!(buf, "elXl");
    assert_eq!(cur, 4);
}

#[test]
fn text_field_edges_and_multibyte_characters() {
    let mut buf = "é€".to_string();
    let mut cur: usize = 0;
    edit_line(&mut buf, &mut cur, Key::Backspace);
    assert_eq!((buf.as_str(), cur), ("é€", 0));
    edit_line(&mut buf, &mut cur, Key::Left);
    assert_eq!(cur, 0);
    edit_line(&mut buf, &mut cur, Key::Right);
    assert_eq!(cur, 1);
    edit_line(&mut buf, &mut cur, Key::Char('x'));
    assert_eq!(buf, "éx€");
    assert_eq!(cur, 2);
    cur = 9;
    edit_line(&mut buf, &mut cur, Key::Delete);
    assert_eq!(buf, "éx€");
    edit_line(&mut buf, &mut cur, Key::Char('!'));
    assert_eq!(buf, "éx€!");
    assert_eq!(cur, 4);
    edit_line(&mut buf, &mut cur, Key::Right);
    assert_eq!(cur, 4);
    edit_line(&mut buf, &mut cur, Key::Enter);
    assert_eq!((buf.as_str(), cur), ("éx€!", 4));
}

#[test]
fn paste_inserts_cleaned_clipboard_at_cursor() {
    assert_eq!(clean_clipboard_text("  ab\r\ncd\n  "), "abcd");
    assert_eq!(clean_clipboard_text("\n"), "");
    let mut buf = "1234".to_string();
    let mut cur: usize = 2;
    paste_line(&mut buf, &mut cur, "xy");
    assert_eq!(buf, "12xy34");
    assert_eq!(cur, 4);
    cur = 100;
    paste_line(&mut buf, &mut cur, "Z");
    assert_eq!(buf, "12xy34Z");
    assert_eq!(cur, 7);
}

#[test]
fn first_run_flow_through_keys() {
    let mut s = FirstRunState::new(Some("rclone v1.68.0".to_string()), None, None);
    assert_eq!(s.on_key(Key::Enter, false, None), FirstRunCommand::Nothing);
    assert_eq!(s.step, FirstRunStep::GoogleCredentials);
    assert_eq!(s.active_field, FirstRunField::ClientIdInput);
    for c in ['a', 'b', 'c'] {
        s.on_key(Key::Char(c), false, None);
    }
    s.on_key(Key::Tab, false, None);
    assert_eq!(s.client_id, "abc");
    assert_eq!(s.active_field, FirstRunField::ClientSecretInput);
    s.on_key(Key::Char('x'), false, None);
    s.on_key(Key::Char('y'), false, None);
    s.on_key(Key::Tab, false, None);
    assert_eq!(s.client_secret, "xy");
    assert_eq!(s.active_field, FirstRunField::SaveCredentialsButton);
    assert_eq!(
        s.on_key(Key::Enter, false, None),
        FirstRunCommand::SaveCredentials("abc".to_string(), "xy".to_string())
    );
}

#[test]
fn first_run_button_row_arrow_navigation() {
    let mut s = credentials_state();
    s.active_field = FirstRunField::SaveCredentialsButton;
    s.on_key(Key::Right, false, None);
    assert_eq!(s.active_field, FirstRunField::SkipCredentialsButton);
    s.on_key(Key::Right, false, None);
    assert_eq!(s.active_field, FirstRunField::ToggleHelpButton);
    s.on_key(Key::Right, false, None);
    assert_eq!(s.active_field, FirstRunField::SaveCredentialsButton);
    s.on_key(Key::Left, false, None);
    assert_eq!(s.active_field, FirstRunField::ToggleHelpButton);
    s.on_key(Key::Left, false, None);
    assert_eq!(s.active_field, FirstRunField::SkipCredentialsButton);
    s.on_key(Key::Up, false, None);
    assert_eq!(s.active_field, FirstRunField::ClientSecretInput);
    s.on_key(Key::Down, false, None);
    assert_eq!(s.active_field, FirstRunField::SaveCredentialsButton);
}

#[test]
fn first_run_rclone_check_install_and_skip() {
    let mut s = FirstRunState::new(None, None, None);
    assert_eq!(s.active_field, FirstRunField::InstallRcloneButton);
    assert_eq!(s.on_key(Key::Enter, false, None), FirstRunCommand::InstallRclone);
    assert_eq!(s.step, FirstRunStep::RcloneCheck);
    s.on_key(Key::Tab, false, None);
    assert_eq!(s.active_field, FirstRunField::SkipRcloneButton);
    s.on_key(Key::Up, false, None);
    assert_eq!(s.active_field, FirstRunField::InstallRcloneButton);
    s.rclone_status = RcloneInstallStatus::Installing;
    s.on_key(Key::Tab, false, None);
    assert_eq!(s.active_field, FirstRunField::InstallRcloneButton);
    assert_eq!(s.on_key(Key::Enter, false, None), FirstRunCommand::Nothing);
    assert_eq!(s.step, FirstRunStep::RcloneCheck);
    s.rclone_status = RcloneInstallStatus::Failed("no network".to_string());
    s.active_field = FirstRunField::SkipRcloneButton;
    assert_eq!(s.on_key(Key::Enter, false, None), FirstRunCommand::Nothing);
    assert_eq!(s.step, FirstRunStep::GoogleCredentials);
    assert_eq!(s.active_field, FirstRunField::ClientIdInput);
    assert_eq!(s.rclone_status, RcloneInstallStatus::Failed("no network".to_string()));
}

#[test]
fn first_run_help_paste_and_escape() {
    let mut s = credentials_state();
    s.on_key(Key::Char('h'), false, None);
    assert_eq!(s.client_id, "h");
    assert!(!s.show_help);
    s.active_field = FirstRunField::SkipCredentialsButton;
    s.on_key(Key::Char('?'), false, None);
    assert!(s.show_help);
    s.active_field = FirstRunField::ClientIdInput;
    s.client_id_cursor = 0;
    s.on_key(Key::Char('v'), true, Some("  id-123\n".to_string()));
    assert_eq!(s.client_id, "id-123h");
    assert_eq!(s.client_id_cursor, 6);
    s.on_key(Key::Char('v'), true, None);
    assert_eq!(s.client_id, "id-123h");
    s.on_key(Key::Char('v'), false, None);
    assert_eq!(s.client_id, "id-123vh");
    assert_eq!(s.on_key(Key::Esc, false, None), FirstRunCommand::SkipCredentials);
}

#[test]
fn first_run_clicks() {
    let mut s = FirstRunState::new(None, Some("abc".to_string()), Some("secret".to_string()));
    assert_eq!(s.on_click(HitAction::FirstRunInstall), FirstRunCommand::InstallRclone);
    assert_eq!(s.on_click(HitAction::FirstRunSkipRclone), FirstRunCommand::Nothing);
    assert_eq!(s.step, FirstRunStep::GoogleCredentials);
    s.client_secret_cursor = 0;
    s.on_click(HitAction::FirstRunClientSecret);
    assert_eq!(s.active_field, FirstRunField::ClientSecretInput);
    assert_eq!(s.client_secret_cursor, 6);
    s.on_click(HitAction::FirstRunToggleHelp);
    assert!(s.show_help);
    assert_eq!(
        s.on_click(HitAction::FirstRunSaveCredentials),
        FirstRunCommand::SaveCredentials("abc".to_string(), "secret".to_string())
    );
    assert_eq!(s.on_click(HitAction::FirstRunSkipCredentials), FirstRunCommand::SkipCredentials);
    assert_eq!(s.on_click(HitAction::ButtonSync), FirstRunCommand::Nothing);
}

#[test]
fn menu_keyboard_navigation() {
    assert_eq!(menu_key(0, Key::Down), (1, MenuOutcome::Stay));
    assert_eq!(menu_key(1, Key::Char('j')), (2, MenuOutcome::Stay));
    assert_eq!(menu_key(2, Key::Tab), (2, MenuOutcome::Stay));
    assert_eq!(menu_key(0, Key::Up), (0, MenuOutcome::Stay));
    assert_eq!(menu_key(2, Key::Char('k')), (1, MenuOutcome::Stay));
    assert_eq!(menu_key(0, Key::Enter), (0, MenuOutcome::OpenSettings));
    assert_eq!(menu_key(1, Key::Char(' ')), (1, MenuOutcome::OpenHelp));
    assert_eq!(menu_key(2, Key::Enter), (2, MenuOutcome::Quit));
    assert_eq!(menu_key(1, Key::Char('o')), (1, MenuOutcome::OpenSettings));
    assert_eq!(menu_key(1, Key::Char('q')), (1, MenuOutcome::Quit));
    assert_eq!(menu_key(1, Key::Esc), (1, MenuOutcome::Close));
}

#[test]
fn confirmations_and_help() {
    for k in [Key::Char('y'), Key::Char('o'), Key::Enter] {
        assert_eq!(confirm_answer(k), Some(true));
    }
    for k in [Key::Char('n'), Key::Esc, Key::Char('q')] {
        assert_eq!(confirm_answer(k), Some(false));
    }
    assert_eq!(confirm_answer(Key::Char('x')), None);
    assert!(help_closes(Key::Char('?')));
    assert!(!help_closes(Key::Char('h')));
}

#[test]
fn dry_run_report_keys() {
    assert_eq!(dry_run_key(0, Key::Up), (0, DryRunOutcome::Stay));
    assert_eq!(dry_run_key(3, Key::Down), (4, DryRunOutcome::Stay));
    assert_eq!(dry_run_key(3, Key::PageUp), (0, DryRunOutcome::Stay));
    assert_eq!(dry_run_key(usize::MAX - 3, Key::PageDown), (usize::MAX, DryRunOutcome::Stay));
    assert_eq!(dry_run_key(7, Key::Home), (0, DryRunOutcome::Stay));
    assert_eq!(dry_run_key(7, Key::Char('r')), (7, DryRunOutcome::Rerun));
    assert_eq!(dry_run_key(7, Key::Char('q')), (7, DryRunOutcome::Close));
    assert_eq!(text_wheel(4, 10, true), 5);
    assert_eq!(text_wheel(5, 10, true), 5);
    assert_eq!(text_wheel(0, 10, false), 0);
}

#[test]
fn run_details_keys() {
    assert_eq!(details_key(0, 0, 20, false, Key::Down, false, false), (1, 0, DetailsOutcome::Stay));
    assert_eq!(details_key(14, 0, 20, false, Key::Down, false, false), (15, 1, DetailsOutcome::Stay));
    assert_eq!(details_key(19, 5, 20, false, Key::Down, false, false), (19, 5, DetailsOutcome::Stay));
    assert_eq!(details_key(3, 3, 20, false, Key::Up, false, false), (2, 2, DetailsOutcome::Stay));
    assert_eq!(details_key(15, 12, 20, false, Key::PageDown, false, false), (19, 22, DetailsOutcome::Stay));
    assert_eq!(details_key(4, 12, 20, false, Key::PageUp, false, false), (0, 2, DetailsOutcome::Stay));
    assert_eq!(details_key(4, 2, 20, false, Key::End, false, false), (19, 2, DetailsOutcome::Stay));
    assert_eq!(details_key(4, 2, 20, false, Key::Home, false, false), (0, 0, DetailsOutcome::Stay));
    assert_eq!(details_key(4, 2, 0, false, Key::Down, false, false), (4, 3, DetailsOutcome::Stay));
    assert_eq!(details_key(4, 2, 20, false, Key::Enter, false, false).2, DetailsOutcome::OpenFile(4));
    assert_eq!(details_key(4, 2, 20, false, Key::Enter, true, false).2, DetailsOutcome::OpenFolder(4));
    assert_eq!(details_key(4, 2, 20, false, Key::Enter, false, true).2, DetailsOutcome::OpenFolder(4));
    assert_eq!(details_key(4, 2, 0, false, Key::Enter, false, false).2, DetailsOutcome::Stay);
    assert_eq!(details_key(4, 2, 0, true, Key::Char('y'), false, false).2, DetailsOutcome::CopyErrors);
    assert_eq!(details_key(4, 2, 0, false, Key::Char('c'), false, false).2, DetailsOutcome::Stay);
    assert_eq!(details_key(4, 2, 20, false, Key::Char('x'), true, false).2, DetailsOutcome::ToggleFolderMode);
    assert_eq!(details_key(4, 2, 20, false, Key::Char('o'), false, false).2, DetailsOutcome::OpenSettings);
}

#[test]
fn logs_panel_keys_and_wheel() {
    // 100 lines, a view of 10: at most 90 lines back.
    assert_eq!(logs_key(0, true, 100, 10, Key::Up), (1, false));
    assert_eq!(logs_key(89, false, 100, 10, Key::PageUp), (90, false));
    assert_eq!(logs_key(1, false, 100, 10, Key::Down), (0, true));
    assert_eq!(logs_key(15, false, 100, 10, Key::PageDown), (5, false));
    assert_eq!(logs_key(5, false, 100, 10, Key::Home), (90, false));
    assert_eq!(logs_key(5, false, 100, 10, Key::End), (0, true));
    assert_eq!(logs_key(5, false, 100, 10, Key::Char(' ')), (0, true));
    assert_eq!(logs_key(0, true, 100, 10, Key::Char(' ')), (0, false));
    // A view of less than three lines counts as three.
    assert_eq!(logs_key(0, true, 5, 1, Key::Home), (2, false));
    assert_eq!(logs_wheel(3, false, 100, 10, true), (2, false));
    assert_eq!(logs_wheel(1, false, 100, 10, true), (0, true));
    assert_eq!(logs_wheel(90, true, 100, 10, false), (90, true));
    assert_eq!(logs_wheel(0, true, 100, 10, false), (1, false));
    assert_eq!(total_log_lines(0, 42), 42);
    assert_eq!(total_log_lines(7, 42), 7);
}

#[test]
fn file_browser_page_keys() {
    let (mut sel, mut off) = (2usize, 0usize);
    files_nav_key(&mut sel, &mut off, 5, 12, Key::PageDown);
    assert_eq!((sel, off), (7, 3));
    files_nav_key(&mut sel, &mut off, 5, 12, Key::PageDown);
    assert_eq!((sel, off), (11, 7));
    files_nav_key(&mut sel, &mut off, 5, 12, Key::PageUp);
    assert_eq!((sel, off), (6, 6));
    files_nav_key(&mut sel, &mut off, 5, 12, Key::Home);
    assert_eq!((sel, off), (0, 0));
    files_nav_key(&mut sel, &mut off, 5, 12, Key::End);
    assert_eq!((sel, off), (11, 7));
    files_nav_key(&mut sel, &mut off, 5, 12, Key::Up);
    assert_eq!((sel, off), (10, 7));
    files_nav_key(&mut sel, &mut off, 5, 12, Key::Char('x'));
    assert_eq!((sel, off), (10, 7));
}

#[test]
fn filter_rules_list_keys() {
    let (mut sel, mut off) = (0usize, 0usize);
    assert_eq!(filters_key(&mut sel, &mut off, 12, false, 4, Key::PageDown), FiltersOutcome::Stay);
    assert_eq!((sel, off), (5, 2));
    filters_key(&mut sel, &mut off, 12, false, 4, Key::End);
    assert_eq!((sel, off), (11, 8));
    filters_key(&mut sel, &mut off, 12, false, 4, Key::PageUp);
    assert_eq!((sel, off), (6, 6));
    filters_key(&mut sel, &mut off, 12, false, 4, Key::Home);
    assert_eq!((sel, off), (0, 0));
    assert_eq!(filters_key(&mut sel, &mut off, 12, false, 4, Key::Char('t')), FiltersOutcome::CycleSelected);
    assert_eq!(filters_key(&mut sel, &mut off, 0, false, 4, Key::Char(' ')), FiltersOutcome::Stay);
    assert_eq!(filters_key(&mut sel, &mut off, 12, false, 4, Key::Char('E')), FiltersOutcome::OpenEditor);
    assert_eq!(filters_key(&mut sel, &mut off, 12, false, 4, Key::Delete), FiltersOutcome::DeleteSelected);
    assert_eq!(filters_key(&mut sel, &mut off, 12, false, 4, Key::Char('+')), FiltersOutcome::AddRule);
    assert_eq!(filters_key(&mut sel, &mut off, 12, false, 4, Key::Enter), FiltersOutcome::EditSelected);
    assert_eq!(filters_key(&mut sel, &mut off, 12, false, 4, Key::Esc), FiltersOutcome::Close);
}

#[test]
fn filter_rule_typing() {
    let mut buf = "- *.tmp".to_string();
    assert_eq!(rule_edit_key(&mut buf, Key::Backspace), RuleEditOutcome::Editing);
    assert_eq!(buf, "- *.tm");
    assert_eq!(rule_edit_key(&mut buf, Key::Char('é')), RuleEditOutcome::Editing);
    assert_eq!(buf, "- *.tmé");
    assert_eq!(rule_edit_key(&mut buf, Key::Enter), RuleEditOutcome::Commit);
    assert_eq!(rule_edit_key(&mut buf, Key::Esc), RuleEditOutcome::Cancel);
    let mut empty = String::new();
    rule_edit_key(&mut empty, Key::Backspace);
    assert_eq!(empty, "");
}

#[test]
fn settings_tab_switching_and_moves() {
    assert_eq!(settings_key(0, 3, Key::Tab), (1, 0, SettingsRequest::Stay));
    assert_eq!(settings_key(1, 2, Key::Tab), (0, 0, SettingsRequest::Stay));
    assert_eq!(settings_key(0, 2, Key::Char('2')), (1, 0, SettingsRequest::Stay));
    assert_eq!(settings_key(1, 2, Key::Char('2')), (1, 2, SettingsRequest::Stay));
    assert_eq!(settings_key(1, 2, Key::Char('1')), (0, 0, SettingsRequest::Stay));
    assert_eq!(settings_key(0, 9, Key::Down), (0, 9, SettingsRequest::Stay));
    assert_eq!(settings_key(0, 2, Key::Down), (0, 3, SettingsRequest::Stay));
    assert_eq!(settings_key(0, 8, Key::Enter).2, SettingsRequest::StartEditing);
    assert_eq!(settings_key(0, 9, Key::Char('e')).2, SettingsRequest::StartEditing);
    assert_eq!(settings_key(1, 4, Key::Char('j')), (1, 5, SettingsRequest::Stay));
    assert_eq!(settings_key(1, 5, Key::Down), (1, 5, SettingsRequest::Stay));
    assert_eq!(settings_key(0, 0, Key::Up), (0, 0, SettingsRequest::Stay));
    assert_eq!(settings_items_count(0), 10);
    assert_eq!(settings_items_count(1), 6);
    let mut sel = 5usize;
    scroll_settings_down(&mut sel, 1);
    assert_eq!(sel, 5);
    scroll_settings_up(&mut sel);
    assert_eq!(sel, 4);
}

#[test]
fn settings_activation_by_kind() {
    assert_eq!(SettingId::LocalDirectory.kind(), SettingKind::TextInput);
    assert_eq!(SettingId::ResyncAction.kind(), SettingKind::Action);
    assert_eq!(SettingId::TickRate.kind(), SettingKind::Cycle);
    assert_eq!(settings_key(0, 4, Key::Enter).2, SettingsRequest::StartEditing);
    assert_eq!(settings_key(0, 6, Key::Enter).2, SettingsRequest::ConfirmResync);
    assert_eq!(settings_key(0, 7, Key::Right).2, SettingsRequest::OpenFullLogs);
    assert_eq!(settings_key(0, 0, Key::Char('l')).2, SettingsRequest::CycleForward);
    assert_eq!(settings_key(1, 1, Key::Char('h')).2, SettingsRequest::CycleBackward);
    assert_eq!(settings_key(0, 6, Key::Char('e')).2, SettingsRequest::Stay);
    assert_eq!(settings_key(0, 5, Key::Char(' ')).2, SettingsRequest::StartEditing);
    assert_eq!(settings_key(0, 3, Key::Enter).2, SettingsRequest::CycleForward);
    assert_eq!(settings_key(0, 1, Key::Esc).2, SettingsRequest::Close);
}

#[test]
fn setting_typed_then_kept() {
    let mut config = AppConfig::default();
    config.local_dir = "~/Drive".to_string();
    assert!(start_editing_setting(0, 0, &config, &None, &None).is_none());
    let mut edit = start_editing_setting(0, 4, &config, &None, &None).unwrap();
    assert_eq!(
        edit,
        EditState::Setting { tab: 0, index: 4, buffer: "~/Drive".to_string(), cursor: 7 }
    );
    if let EditState::Setting { buffer, cursor, .. } = &mut edit {
        assert_eq!(setting_edit_key(buffer, cursor, Key::Char('2'), false, None), SettingEditOutcome::Editing);
        assert_eq!(setting_edit_key(buffer, cursor, Key::Char('z'), true, None), SettingEditOutcome::Editing);
        assert_eq!(buffer, "~/Drive2");
        setting_edit_key(buffer, cursor, Key::Home, false, None);
        setting_edit_key(buffer, cursor, Key::Char('v'), true, Some(" \n".to_string()));
        assert_eq!(*cursor, 0);
        assert_eq!(setting_edit_key(buffer, cursor, Key::Enter, false, None), SettingEditOutcome::Commit);
    }
    assert_eq!(commit_setting_edit(&mut edit, &mut config, &None, &None), SettingCommit::Changed(SettingId::LocalDirectory));
    assert_eq!(config.local_dir, "~/Drive2");
    assert_eq!(edit, EditState::Idle);
    assert_eq!(commit_setting_edit(&mut edit, &mut config, &None, &None), SettingCommit::NotEditing);
    let mut same = EditState::Setting { tab: 0, index: 5, buffer: format!("  {}  ", config.remote), cursor: 0 };
    assert_eq!(commit_setting_edit(&mut same, &mut config, &None, &None), SettingCommit::Kept(SettingId::RemoteStorage));
    let mut blank = EditState::Setting { tab: 0, index: 5, buffer: "   ".to_string(), cursor: 0 };
    assert_eq!(commit_setting_edit(&mut blank, &mut config, &None, &None), SettingCommit::EmptyKept(SettingId::RemoteStorage));
    let mut other = EditState::Setting { tab: 1, index: 0, buffer: "x".to_string(), cursor: 0 };
    assert_eq!(commit_setting_edit(&mut other, &mut config, &None, &None), SettingCommit::Ended);
    assert_eq!(other, EditState::Idle);
}

#[test]
fn dashboard_shortcuts() {
    assert_eq!(dashboard_key(Key::Char('q'), false, FocusedPanel::Logs, false), DashboardRequest::Quit);
    assert_eq!(dashboard_key(Key::Char('c'), true, FocusedPanel::Logs, false), DashboardRequest::Quit);
    assert_eq!(dashboard_key(Key::Char('c'), false, FocusedPanel::Logs, false), DashboardRequest::CancelSync);
    assert_eq!(dashboard_key(Key::Char('f'), false, FocusedPanel::Logs, false), DashboardRequest::NextLogFilter);
    assert_eq!(dashboard_key(Key::Char('f'), false, FocusedPanel::History, false), DashboardRequest::FilterRecent);
    assert_eq!(dashboard_key(Key::Char('3'), false, FocusedPanel::History, false), DashboardRequest::ToggleBox(3));
    assert_eq!(dashboard_key(Key::Char('P'), false, FocusedPanel::History, false), DashboardRequest::ToggleFileBrowser);
    assert_eq!(dashboard_key(Key::Enter, false, FocusedPanel::RecentFiles, true), DashboardRequest::OpenRecent(true));
    assert_eq!(dashboard_key(Key::Enter, false, FocusedPanel::History, false), DashboardRequest::OpenRunDetails);
    assert_eq!(dashboard_key(Key::Enter, false, FocusedPanel::Logs, false), DashboardRequest::Nothing);
    assert_eq!(dashboard_key(Key::Left, false, FocusedPanel::Logs, false), DashboardRequest::PrevLogFilter);
    assert_eq!(dashboard_key(Key::Left, false, FocusedPanel::History, false), DashboardRequest::Nothing);
    assert_eq!(dashboard_key(Key::Char('-'), false, FocusedPanel::History, false), DashboardRequest::FasterTicks);
    assert_eq!(dashboard_key(Key::Char('='), false, FocusedPanel::History, false), DashboardRequest::SlowerTicks);
    assert_eq!(dashboard_key(Key::BackTab, false, FocusedPanel::History, false), DashboardRequest::PrevPanel);
    assert_eq!(dashboard_key(Key::Char('m'), false, FocusedPanel::History, false), DashboardRequest::OpenMenu);
    assert!(is_ctrl_x(Key::Char('X'), true));
    assert!(!is_ctrl_x(Key::Char('x'), false));
    assert!(is_ctrl_x(Key::Char('\u{18}'), false));
    assert!(can_cancel_sync(false, true));
    assert!(!can_cancel_sync(false, false));
}

#[test]
fn history_rows_designate_runs() {
    assert_eq!(run_target(Some(0), true, 3), RunTarget::ActiveSync);
    assert_eq!(run_target(Some(1), true, 3), RunTarget::Past(0));
    assert_eq!(run_target(Some(3), true, 3), RunTarget::Past(2));
    assert_eq!(run_target(Some(4), true, 3), RunTarget::NoRun);
    assert_eq!(run_target(Some(2), false, 3), RunTarget::Past(2));
    assert_eq!(run_target(None, false, 3), RunTarget::NoRun);
    assert_eq!(copy_run_index(Some(0), true), Some(0));
    assert_eq!(copy_run_index(Some(2), true), Some(1));
    assert_eq!(copy_run_index(Some(2), false), Some(2));
    assert_eq!(copy_run_index(None, true), None);
}

#[test]
fn log_lines_through_filters_and_clipboard() {
    let lines = vec![
        "INFO  : a.txt: Copied (new)".to_string(),
        "ERROR : b.txt: Failed to copy".to_string(),
        "NOTICE: Bisync successful".to_string(),
        "DEBUG : nothing".to_string(),
    ];
    assert_eq!(filtered_log_lines(&lines, LogFilter::All), lines);
    assert_eq!(
        filtered_log_lines(&lines, LogFilter::Files),
        vec!["INFO  : a.txt: Copied (new)", "NOTICE: Bisync successful"]
    );
    assert_eq!(filtered_log_lines(&lines, LogFilter::Problems), vec!["ERROR : b.txt: Failed to copy"]);
    assert_eq!(
        logs_clipboard_text(&lines, LogFilter::Files),
        Some("INFO  : a.txt: Copied (new)\nNOTICE: Bisync successful".to_string())
    );
    assert_eq!(logs_clipboard_text(&Vec::new(), LogFilter::All), None);
}

#[test]
fn edit_state_accessors() {
    let s = EditState::Setting { tab: 0, index: 3, buffer: "abc".to_string(), cursor: 1 };
    assert!(s.is_editing_setting() && !s.is_editing_filter() && !s.is_adding_filter());
    assert_eq!(s.edit_buffer(), "abc");
    assert_eq!(s.edit_cursor(), 1);
    let f = EditState::AddingFilter { buffer: "- é".to_string() };
    assert!(f.is_editing_filter() && f.is_adding_filter());
    assert_eq!(f.edit_cursor(), 3);
    let g = EditState::Filter { index: 0, buffer: "+ x".to_string() };
    assert!(g.is_editing_filter() && !g.is_adding_filter());
    assert_eq!(EditState::Idle.edit_buffer(), "");
    assert_eq!(EditState::Idle.edit_cursor(), 0);
}

#[test]
fn row_and_menu_clicks() {
    assert_eq!(row_click(2, None, 5), RowClick::Select);
    assert_eq!(row_click(2, Some(1), 5), RowClick::Select);
    assert_eq!(row_click(2, Some(2), 5), RowClick::Activate);
    assert_eq!(row_click(5, Some(5), 5), RowClick::Ignore);
    assert_eq!(menu_option(0), MenuOutcome::OpenSettings);
    assert_eq!(menu_option(1), MenuOutcome::OpenHelp);
    assert_eq!(menu_option(2), MenuOutcome::Quit);
    assert_eq!(menu_option(3), MenuOutcome::Stay);
}

#[test]
fn google_credentials_typed_and_kept() {
    let mut config = AppConfig::default();
    let id = Some("old-id".to_string());
    let secret = Some("s3cret".to_string());
    let mut edit = start_editing_setting(0, 8, &config, &id, &secret).unwrap();
    assert_eq!(edit, EditState::Setting { tab: 0, index: 8, buffer: "old-id".to_string(), cursor: 6 });
    if let EditState::Setting { buffer, cursor, .. } = &mut edit {
        setting_edit_key(buffer, cursor, Key::Char('2'), false, None);
    }
    let before = config.clone();
    assert_eq!(
        commit_setting_edit(&mut edit, &mut config, &id, &secret),
        SettingCommit::WriteCredentials(SettingId::GoogleClientId, "old-id2".to_string(), "s3cret".to_string())
    );
    assert_eq!(config.remote, before.remote);
    let mut same = EditState::Setting { tab: 0, index: 9, buffer: " s3cret ".to_string(), cursor: 0 };
    assert_eq!(commit_setting_edit(&mut same, &mut config, &id, &secret), SettingCommit::Kept(SettingId::GoogleClientSecret));
    let mut empty = EditState::Setting { tab: 0, index: 9, buffer: "".to_string(), cursor: 0 };
    assert_eq!(
        commit_setting_edit(&mut empty, &mut config, &None, &None),
        SettingCommit::WriteCredentials(SettingId::GoogleClientSecret, String::new(), String::new())
    );
    assert_eq!(
        start_editing_setting(0, 9, &config, &None, &None),
        Some(EditState::Setting { tab: 0, index: 9, buffer: String::new(), cursor: 0 })
    );
}

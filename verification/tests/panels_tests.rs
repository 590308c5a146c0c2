use rclonedash::dashboard::{FocusedPanel, HitAction};
use rclonedash::fs_tree::{
    clamp_file_selection, entry_opening, get_tracked_files_count, parent_file_dir, EntryOpening,
    FileEntry,
};
use rclonedash::hitboxes::{hit_test, wheel_panel, ClickOutcome, Hitbox, HitboxManager, Rect};
use rclonedash::installer::{get_arch_tag, rclone_download_url, version_line};
use rclonedash::panels::BoxVisibility;
use rclonedash::scroll::{ensure_filter_visible, ensure_history_visible, ensure_recent_visible};

fn entry(name: &str, is_dir: bool) -> FileEntry {
    FileEntry {
        name: name.to_string(),
        rel_path: name.to_string(),
        is_dir,
        size: 0,
        mtime: String::new(),
        ignored: false,
    }
}

#[test]
fn test_arch_tag() {
    for arch in ["x86_64", "aarch64", "arm", "x86", "riscv64", ""] {
        let tag = get_arch_tag(arch);
        assert!(tag.starts_with("linux-"));
    }
}

#[test]
fn arch_tags_and_download_address() {
    assert_eq!(get_arch_tag("x86_64"), "linux-amd64");
    assert_eq!(get_arch_tag("aarch64"), "linux-arm64");
    assert_eq!(get_arch_tag("arm"), "linux-arm-v7");
    assert_eq!(get_arch_tag("x86"), "linux-386");
    assert_eq!(get_arch_tag("mips"), "linux-amd64");
    assert_eq!(
        rclone_download_url("linux-arm64"),
        "https://downloads.rclone.org/rclone-current-linux-arm64.zip"
    );
}

#[test]
fn rclone_version_line() {
    assert_eq!(
        version_line("rclone v1.68.0 \r\n- os/version: debian\n"),
        Some("rclone v1.68.0".to_string())
    );
    assert_eq!(version_line("  only line"), Some("only line".to_string()));
    assert_eq!(version_line(""), None);
    assert_eq!(version_line("\nsecond"), Some(String::new()));
}

#[test]
fn toggle_boxes_and_focus_adjustment() {
    let mut b = BoxVisibility::all_shown();
    for n in 1..=5 {
        assert!(b.is_box_visible(n));
    }
    assert!(!b.is_box_visible(0));
    assert!(!b.is_box_visible(6));
    assert!(b.any_box_visible());
    assert!(b.toggle_box(1));
    assert!(!b.is_box_visible(1));
    assert!(b.toggle_box(2));
    assert!(b.any_box_visible());
    assert!(b.toggle_box(3));
    assert_eq!(b.adjust_focused_panel(FocusedPanel::History), FocusedPanel::Logs);
    assert_eq!(b.adjust_focused_panel(FocusedPanel::Logs), FocusedPanel::Logs);
    b.toggle_box(4);
    b.toggle_box(5);
    assert!(!b.any_box_visible());
    assert_eq!(b.next_visible_panel(FocusedPanel::Logs), FocusedPanel::Logs);
    assert_eq!(b.prev_visible_panel(FocusedPanel::Logs), FocusedPanel::Logs);
    b.toggle_box(3);
    b.toggle_box(5);
    assert_eq!(b.next_visible_panel(FocusedPanel::History), FocusedPanel::RecentFiles);
    assert_eq!(b.next_visible_panel(FocusedPanel::RecentFiles), FocusedPanel::History);
    assert_eq!(b.prev_visible_panel(FocusedPanel::History), FocusedPanel::RecentFiles);
    assert!(!b.toggle_box(9));
    let before = b;
    b.toggle_box(2);
    b.toggle_box(2);
    assert_eq!(b, before);
}

#[test]
fn hit_testing_picks_the_topmost_area() {
    let mut m = HitboxManager::new();
    m.register_hitbox(false, Rect { x: 0, y: 0, width: 80, height: 24 }, HitAction::LogsArea);
    m.register_hitbox(false, Rect { x: 5, y: 5, width: 10, height: 1 }, HitAction::ButtonSync);
    assert_eq!(hit_test(&m.dashboard, 5, 5), Some(HitAction::ButtonSync));
    assert_eq!(hit_test(&m.dashboard, 14, 5), Some(HitAction::ButtonSync));
    assert_eq!(hit_test(&m.dashboard, 15, 5), Some(HitAction::LogsArea));
    assert_eq!(hit_test(&m.dashboard, 80, 5), None);
    assert_eq!(m.click(false, 6, 5), ClickOutcome::Hit(HitAction::ButtonSync));
    assert_eq!(m.click(false, 90, 90), ClickOutcome::Missed);
    assert_eq!(wheel_panel(&m.dashboard, 6, 5), Some(FocusedPanel::Logs));
    assert_eq!(wheel_panel(&m.dashboard, 90, 5), None);
    let edge = Rect { x: 65535, y: 65535, width: 1, height: 1 };
    assert!(edge.contains(65535, 65535));
    assert!(!edge.contains(65534, 65535));
}

#[test]
fn click_outside_modal_dismisses_it() {
    let mut m = HitboxManager::new();
    m.active_modal_area = Some(Rect { x: 20, y: 10, width: 40, height: 20 });
    m.register_hitbox(false, Rect { x: 5, y: 5, width: 10, height: 1 }, HitAction::ButtonSync);
    assert_eq!(m.click(true, 5, 5), ClickOutcome::Dismiss);
    assert_eq!(m.click(true, 25, 15), ClickOutcome::Absorbed);
    m.register_hitbox(true, Rect { x: 24, y: 15, width: 4, height: 1 }, HitAction::CloseModal);
    assert_eq!(m.click(true, 25, 15), ClickOutcome::Hit(HitAction::CloseModal));
    assert_eq!(m.active_layer(true).len(), 1);
    assert_eq!(m.active_layer(false).len(), 1);
    m.clear_hitboxes();
    assert!(m.dashboard.is_empty() && m.modal.is_empty());
    assert_eq!(m.active_modal_area, Some(Rect { x: 20, y: 10, width: 40, height: 20 }));
}

#[test]
fn keeping_selections_in_view() {
    let mut off = 10usize;
    ensure_history_visible(Some(3), &mut off, 5);
    assert_eq!(off, 3);
    ensure_history_visible(Some(12), &mut off, 5);
    assert_eq!(off, 8);
    ensure_history_visible(None, &mut off, 5);
    assert_eq!(off, 8);
    ensure_history_visible(Some(0), &mut off, 0);
    assert_eq!(off, 8);
    let mut r = 0usize;
    ensure_recent_visible(Some(4), &mut r, 0);
    assert_eq!(r, 4);
    let mut f = 0usize;
    ensure_filter_visible(9, &mut f, 3);
    assert_eq!(f, 7);
}

#[test]
fn browsing_entries() {
    assert_eq!(entry_opening(&entry(".. (Dossier parent)", true), false), EntryOpening::GoToParent);
    assert_eq!(entry_opening(&entry("docs", true), true), EntryOpening::EnterDirectory);
    assert_eq!(entry_opening(&entry("a.txt", false), false), EntryOpening::OpenFile);
    assert_eq!(entry_opening(&entry("a.txt", false), true), EntryOpening::OpenFolder);
    assert_eq!(parent_file_dir(""), None);
    assert_eq!(parent_file_dir("a"), Some(String::new()));
    assert_eq!(parent_file_dir("a/b"), Some("a".to_string()));
    assert_eq!(parent_file_dir("a/b/c.txt"), Some("a/b".to_string()));
    assert_eq!(clamp_file_selection(3, 3), 0);
    assert_eq!(clamp_file_selection(2, 3), 2);
    let entries = vec![entry("d", true), entry("x", false), entry("y", false)];
    assert_eq!(get_tracked_files_count(0, &entries), 2);
    assert_eq!(get_tracked_files_count(17, &entries), 17);
}

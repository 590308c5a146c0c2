use rclonedash::dashboard::{FirstRunField, FirstRunState, FirstRunStep};
use rclonedash::dialog_keys::{details_key, logs_key, menu_key, rule_edit_key};
use rclonedash::fs_tree::FileEntry;
use rclonedash::line_edit::{clean_clipboard_text, edit_line, paste_line, Key};
use rclonedash::listing::sort_entries;
use rclonedash::settings_dialog::{settings_items_count, settings_key};

fn all_keys() -> Vec<Key> {
    let mut keys = vec![
        Key::Enter, Key::Esc, Key::Tab, Key::BackTab, Key::Left, Key::Right, Key::Up, Key::Down,
        Key::Home, Key::End, Key::PageUp, Key::PageDown, Key::Backspace, Key::Delete, Key::Other,
    ];
    for c in ['a', 'h', 'j', 'k', 'l', 'q', 'e', ' ', '1', '2', 'v', '?', 'é'] {
        keys.push(Key::Char(c));
    }
    keys
}

#[test]
fn typing_then_erasing_restores_the_field() {
    for cursor in 0..=4usize {
        let mut buf = "abçd".to_string();
        let mut cur = cursor;
        edit_line(&mut buf, &mut cur, Key::Char('Z'));
        edit_line(&mut buf, &mut cur, Key::Backspace);
        assert_eq!((buf.as_str(), cur), ("abçd", cursor));
        edit_line(&mut buf, &mut cur, Key::Char('Z'));
        edit_line(&mut buf, &mut cur, Key::Left);
        edit_line(&mut buf, &mut cur, Key::Delete);
        assert_eq!((buf.as_str(), cur), ("abçd", cursor));
    }
    let mut rule = "- /x".to_string();
    rule_edit_key(&mut rule, Key::Char('y'));
    rule_edit_key(&mut rule, Key::Backspace);
    assert_eq!(rule, "- /x");
}

#[test]
fn cursors_stay_within_the_text() {
    for key in all_keys() {
        for cursor in 0..=3usize {
            let mut buf = "abc".to_string();
            let mut cur = cursor;
            edit_line(&mut buf, &mut cur, key);
            assert!(cur <= buf.chars().count());
        }
    }
    let mut buf = "abc".to_string();
    let mut cur = 1usize;
    paste_line(&mut buf, &mut cur, "XY");
    assert_eq!((buf.as_str(), cur), ("aXYbc", 3));
    assert!(!clean_clipboard_text("a\r\nb\rc\n").contains(['\n', '\r']));
}

#[test]
fn first_run_focus_cycles_through_its_controls() {
    let mut s = FirstRunState::new(Some("v".to_string()), None, None);
    s.step = FirstRunStep::GoogleCredentials;
    s.active_field = FirstRunField::ClientIdInput;
    let mut seen = Vec::new();
    for _ in 0..5 {
        s.on_key(Key::Tab, false, None);
        seen.push(s.active_field);
    }
    assert_eq!(s.active_field, FirstRunField::ClientIdInput);
    assert_eq!(seen.len(), 5);
    s.on_key(Key::Tab, false, None);
    s.on_key(Key::BackTab, false, None);
    assert_eq!(s.active_field, FirstRunField::ClientIdInput);
    for key in all_keys() {
        let mut t = s.clone();
        t.on_key(key, false, None);
        assert!(t.client_id_cursor <= t.client_id.chars().count());
        assert!(t.client_secret_cursor <= t.client_secret.chars().count());
    }
}

#[test]
fn selections_stay_in_range() {
    for key in all_keys() {
        for sel in 0..3usize {
            assert!(menu_key(sel, key).0 < 3);
        }
        for tab in 0..2usize {
            for sel in 0..settings_items_count(tab) {
                let (t, s, _) = settings_key(tab, sel, key);
                assert!(s < settings_items_count(t));
            }
        }
        for sel in 0..6usize {
            let (s, _, _) = details_key(sel, 0, 6, false, key, false, false);
            assert!(s < 6);
        }
        for scroll in 0..=5usize {
            let (s, follow) = logs_key(scroll, scroll == 0, 10, 5, key);
            assert!(s <= 5);
            assert!(!follow || s == 0);
        }
    }
}

#[test]
fn sorting_a_sorted_listing_changes_nothing() {
    let e = |n: &str, d: bool| FileEntry {
        name: n.to_string(),
        rel_path: n.to_string(),
        is_dir: d,
        size: 0,
        mtime: String::new(),
        ignored: false,
    };
    let v = vec![e("b", false), e("..", true), e("A", false), e("c", true), e("a", false)];
    let once = sort_entries(&v);
    let twice = sort_entries(&once);
    let names = |x: &Vec<FileEntry>| x.iter().map(|f| f.name.clone()).collect::<Vec<_>>();
    assert_eq!(names(&once), vec!["..", "c", "A", "a", "b"]);
    assert_eq!(names(&once), names(&twice));
}

use rclonedash::countdown::{timer_cycle_seconds, timer_remaining_seconds};
use rclonedash::filter_rules::{
    cancel_filter_edit, commit_filter_edit, cycle_rule_type, delete_selected_filter,
};
use rclonedash::systemd::{timer_needs_interval, timer_status, timer_status_checked, ServiceState};

fn strings(v: &[&str]) -> Vec<String> {
    v.iter().map(|s| s.to_string()).collect()
}

#[test]
fn timer_line_scheduled() {
    let line = "Fri 2026-09-18 08:18:58 CEST 9min left Fri 2026-09-18 08:08:58 CEST 1min 2s ago rclone-bisync.timer rclone-bisync.service\n";
    let (next, left) = timer_status(line, "10min", ServiceState::Idle, (0, 0));
    assert_eq!(next, "08:18:58");
    assert_eq!(left, "9min");
    let (n2, l2) = timer_status("Fri 2026-09-18 08:18:58 CEST 3s", "10min", ServiceState::Idle, (0, 0));
    assert_eq!(n2, "08:18:58");
    assert_eq!(l2, "3s");
    let (n3, l3) = timer_status("Fri 2026-09-18 08:18:58 CEST", "10min", ServiceState::Idle, (0, 0));
    assert_eq!(n3, "08:18:58");
    assert_eq!(l3, "08:18:58");
    let (n4, l4) = timer_status("Fri left 2026", "10min", ServiceState::Idle, (0, 0));
    assert_eq!(n4, "Fri");
    assert_eq!(l4, "Fri");
}

#[test]
fn timer_line_disabled_and_waiting() {
    assert_eq!(
        timer_status("  \n", "10min", ServiceState::Idle, (0, 0)),
        ("Disabled".to_string(), "Disabled".to_string())
    );
    let idle = "- - Fri 2026-09-18 08:08:58 CEST 5min ago rclone-bisync.timer rclone-bisync.service";
    let last = 8 * 3600 + 8 * 60 + 58;
    assert_eq!(
        timer_status(idle, "10min", ServiceState::Idle, (last + 300, 0)),
        ("08:18:58".to_string(), "5m 00s".to_string())
    );
    assert_eq!(
        timer_status(idle, "10min", ServiceState::Idle, (last + 545, 0)),
        ("08:18:58".to_string(), "0m 55s".to_string())
    );
    assert_eq!(
        timer_status(idle, "10min", ServiceState::Idle, (last + 600, 500_000_000)),
        ("08:18:58".to_string(), "imminent".to_string())
    );
    assert_eq!(
        timer_status(idle, "10min", ServiceState::Active, (last + 700, 0)),
        ("In progress".to_string(), "after sync (10min)".to_string())
    );
    assert_eq!(
        timer_status("n/a n/a", "2h", ServiceState::Idle, (0, 0)),
        ("~2h".to_string(), "in ~2h".to_string())
    );
    let late = "- - Fri 2026-09-18 23:55:00 CEST";
    assert_eq!(
        timer_status(late, "10min", ServiceState::Idle, (3 * 60, 0)),
        ("00:05:00".to_string(), "2m 00s".to_string())
    );
}

#[test]
fn timer_cycle_lengths() {
    assert_eq!(timer_cycle_seconds("never"), 0);
    assert_eq!(timer_cycle_seconds(" NEVER "), 0);
    assert_eq!(timer_cycle_seconds("15min"), 900);
    assert_eq!(timer_cycle_seconds("5m"), 300);
    assert_eq!(timer_cycle_seconds("2h"), 7200);
    assert_eq!(timer_cycle_seconds("30s"), 30);
    assert_eq!(timer_cycle_seconds("20"), 1200);
    assert_eq!(timer_cycle_seconds("x"), 600);
    assert_eq!(timer_cycle_seconds("xmin"), 600);
}

#[test]
fn timer_remaining_countdowns() {
    assert_eq!(timer_remaining_seconds("10min", "4m 12s"), Some(252));
    assert_eq!(timer_remaining_seconds("10min", "1h 10m"), Some(4200));
    assert_eq!(timer_remaining_seconds("10min", "45s left"), Some(45));
    assert_eq!(timer_remaining_seconds("10min", "9min left"), Some(540));
    assert_eq!(timer_remaining_seconds("10min", "12"), Some(720));
    assert_eq!(timer_remaining_seconds("10min", "3m 5"), Some(185));
    assert_eq!(timer_remaining_seconds("never", "5m"), None);
    assert_eq!(timer_remaining_seconds("10min", "--"), None);
    assert_eq!(timer_remaining_seconds("10min", " Disabled "), None);
    assert_eq!(timer_remaining_seconds("10min", "Imminent"), Some(0));
    assert_eq!(timer_remaining_seconds("10min", "after sync (10min)"), Some(600));
    assert_eq!(timer_remaining_seconds("15min", "in ~15min"), Some(900));
    assert_eq!(timer_remaining_seconds("10min", "abc"), None);
}

#[test]
fn filter_rule_type_cycle() {
    assert_eq!(cycle_rule_type("+ /Docs/**"), "- /Docs/**");
    assert_eq!(cycle_rule_type("- /Docs/**"), "# /Docs/**");
    assert_eq!(cycle_rule_type("# /Docs/**"), "/Docs/**");
    assert_eq!(cycle_rule_type("/Docs/**"), "+ /Docs/**");
    assert_eq!(cycle_rule_type("  ++  x "), "- x");
    let mut r = "+ *.tmp".to_string();
    for _ in 0..4 {
        r = cycle_rule_type(&r);
    }
    assert_eq!(r, "+ *.tmp");
}

#[test]
fn filter_list_editing() {
    let mut rules = strings(&["- /a/**", "+ /b/**", "- *.tmp"]);
    let mut sel = 2usize;
    delete_selected_filter(&mut rules, &mut sel);
    assert_eq!(rules, strings(&["- /a/**", "+ /b/**"]));
    assert_eq!(sel, 1);
    let mut far = 9usize;
    delete_selected_filter(&mut rules, &mut far);
    assert_eq!(rules.len(), 2);
    assert_eq!(far, 9);

    assert!(commit_filter_edit(&mut rules, &mut sel, "  - /c  ", true));
    assert_eq!(rules, strings(&["- /a/**", "+ /b/**", "- /c"]));
    assert_eq!(sel, 2);
    assert!(commit_filter_edit(&mut rules, &mut sel, "# note", false));
    assert_eq!(rules[2], "# note");
    let mut past = 3usize;
    assert!(!commit_filter_edit(&mut rules, &mut past, "   ", true));
    assert_eq!(past, 2);
    let mut past2 = 7usize;
    cancel_filter_edit(&rules, &mut past2);
    assert_eq!(past2, 2);
    let mut empty: Vec<String> = Vec::new();
    let mut s0 = 0usize;
    delete_selected_filter(&mut empty, &mut s0);
    assert!(empty.is_empty());
}

#[test]
fn timer_unit_period_rewritten() {
    let unit = "[Timer]\nOnBootSec=2min\nOnUnitActiveSec=15min\nPersistent=true\n";
    assert_eq!(
        rclonedash::systemd::updated_timer_unit(unit, "30min"),
        Some("[Timer]\nOnBootSec=2min\nOnUnitInactiveSec=30min\nPersistent=true\n".to_string())
    );
    let done = "[Timer]\nOnUnitInactiveSec=30min\n";
    assert_eq!(rclonedash::systemd::updated_timer_unit(done, "30min"), None);
    assert_eq!(
        rclonedash::systemd::updated_timer_unit("A\nOnUnitInactiveSec=1h\nOnUnitActiveSec=2h", "5min"),
        Some("A\nOnUnitInactiveSec=5min\nOnUnitInactiveSec=5min".to_string())
    );
    assert_eq!(rclonedash::systemd::updated_timer_unit("no period here", "5min"), None);
}

#[test]
fn timer_interval_needed_only_for_estimate() {
    let huge = "999999999999999999min";
    assert_eq!(
        timer_status_checked("", huge, ServiceState::Idle, (0, 0)),
        Some(("Disabled".to_string(), "Disabled".to_string()))
    );
    let scheduled = "Fri 2026-09-18 08:18:58 CEST 9min left";
    assert!(!timer_needs_interval(scheduled));
    assert_eq!(
        timer_status_checked(scheduled, huge, ServiceState::Idle, (0, 0)),
        Some(("08:18:58".to_string(), "9min".to_string()))
    );
    assert_eq!(
        timer_status_checked("n/a n/a", huge, ServiceState::Idle, (0, 0)),
        Some(("~999999999999999999min".to_string(), "in ~999999999999999999min".to_string()))
    );
    let idle = "- - Fri 2026-09-18 08:08:58 CEST 5min ago";
    assert!(timer_needs_interval(idle));
    assert_eq!(timer_status_checked(idle, huge, ServiceState::Idle, (0, 0)), None);
    let last = 8 * 3600 + 8 * 60 + 58;
    assert_eq!(
        timer_status_checked(idle, "10min", ServiceState::Idle, (last + 300, 0)),
        Some(("08:18:58".to_string(), "5m 00s".to_string()))
    );
}

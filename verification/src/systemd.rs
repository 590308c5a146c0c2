//! State of the systemd service and timer that run the synchronisation, as read from
//! `systemctl` output, and the countdown of the periodic full sync.
use vstd::prelude::*;
use crate::numparse::{decimal, decimal_exec, parse_unsigned, parse_unsigned_exec};
use crate::pattern::{opt_text, regex_replaced, replace_all};
use crate::text::{
    append_chars, append_str, chars_of, contains_str, ends_with, ends_with_exec, lowercase,
    seq_contains, seq_eq, string_of, to_lower, trim, trim_exec, utf8_len, utf8_len_exec, words,
    words_exec,
};

verus! {

/// State of the synchronisation service.
#[derive(Debug, Clone, Copy, PartialEq, Eq, Structural)]
pub enum ServiceState {
    Active,
    Idle,
    Failed,
    Unknown,
}

/// What the dashboard shows of the service, its timer and the periodic full sync.
#[derive(Debug, Clone)]
pub struct ServiceInfo {
    pub state: ServiceState,
    pub active_substate: String,
    pub timer_next: String,
    pub timer_left: String,
    pub cloud_safety_net: String,
}

/// The information shown before anything is known.
pub open spec fn is_unknown_info(i: ServiceInfo) -> bool {
    &&& i.state == ServiceState::Unknown
    &&& i.active_substate@ == "inconnu"@
    &&& i.timer_next@ == "--"@
    &&& i.timer_left@ == "--"@
    &&& i.cloud_safety_net@ == "--"@
}

impl Default for ServiceInfo {
    fn default() -> (r: Self)
        ensures
            is_unknown_info(r),
    {
        ServiceInfo {
            state: ServiceState::Unknown,
            active_substate: String::from_str("inconnu"),
            timer_next: String::from_str("--"),
            timer_left: String::from_str("--"),
            cloud_safety_net: String::from_str("--"),
        }
    }
}

/// State and sub-state for the output of `systemctl is-active` (trimmed, lower-cased):
/// `active`/`activating` run, `failed` failed, `inactive`/`deactivating` idle; any other
/// answer counts as idle and is shown as it is.
pub open spec fn service_status(out: Seq<char>) -> (ServiceState, Seq<char>) {
    let s = lowercase(trim(out));
    if s == "active"@ || s == "activating"@ {
        (ServiceState::Active, "Running"@)
    } else if s == "failed"@ {
        (ServiceState::Failed, "Failed"@)
    } else if s == "inactive"@ || s == "deactivating"@ {
        (ServiceState::Idle, "Idle"@)
    } else {
        (ServiceState::Idle, s)
    }
}

fn is_str(v: &Vec<char>, s: &str) -> (r: bool)
    ensures
        r == (v@ == s@),
{
    let c = chars_of(s);
    seq_eq(v, &c)
}

/// State and sub-state of the service from the output of `systemctl is-active`.
pub fn service_state_from_status(out: &str) -> (r: (ServiceState, String))
    ensures
        r.0 == service_status(out@).0,
        r.1@ == service_status(out@).1,
{
    let s = to_lower(&trim_exec(&chars_of(out)));
    if is_str(&s, "active") || is_str(&s, "activating") {
        (ServiceState::Active, String::from_str("Running"))
    } else if is_str(&s, "failed") {
        (ServiceState::Failed, String::from_str("Failed"))
    } else if is_str(&s, "inactive") || is_str(&s, "deactivating") {
        (ServiceState::Idle, String::from_str("Idle"))
    } else {
        (ServiceState::Idle, string_of(&s))
    }
}

/// `s` without the repeated suffix `suf` (`trim_end_matches`).
pub open spec fn trim_end_matches(s: Seq<char>, suf: Seq<char>) -> Seq<char>
    decreases s.len(),
{
    if suf.len() > 0 && ends_with(s, suf) {
        trim_end_matches(s.take(s.len() - suf.len()), suf)
    } else {
        s
    }
}

pub fn trim_end_matches_exec(s: &Vec<char>, suf: &Vec<char>) -> (r: Vec<char>)
    ensures
        r@ == trim_end_matches(s@, suf@),
{
    let mut end: usize = s.len();
    let mut cur = s.clone();
    assert(cur@ == s@.take(end as int));
    while suf.len() > 0 && ends_with_exec(&cur, suf)
        invariant
            end <= s.len(),
            cur@ == s@.take(end as int),
            trim_end_matches(s@, suf@) == trim_end_matches(cur@, suf@),
        decreases end,
    {
        end = end - suf.len();
        let mut next: Vec<char> = Vec::new();
        let mut k: usize = 0;
        while k < end
            invariant
                k <= end <= s.len(),
                next@ == s@.take(k as int),
            decreases end - k,
        {
            next.push(s[k]);
            assert(s@.take(k + 1) =~= s@.take(k as int).push(s@[k as int]));
            k = k + 1;
        }
        assert(cur@.take(cur@.len() - suf@.len()) =~= s@.take(end as int));
        cur = next;
    }
    cur
}

/// Timer interval of the configuration, in minutes: `<n>min` gives `n` (10 when `n` is not
/// a number), `<n>h` gives `60 n` (60 when `n` is not a number), anything else 10.
pub open spec fn interval_minutes(cfg: Seq<char>) -> nat {
    if ends_with(cfg, "min"@) {
        match parse_unsigned(trim_end_matches(cfg, "min"@), u64::MAX as nat) {
            Some(v) => v,
            None => 10,
        }
    } else if ends_with(cfg, seq!['h']) {
        match parse_unsigned(trim_end_matches(cfg, seq!['h']), u64::MAX as nat) {
            Some(v) => v * 60,
            None => 60,
        }
    } else {
        10
    }
}

/// Timer interval of the configuration, in minutes (see `interval_minutes`).
pub fn timer_interval_minutes(cfg: &str) -> (r: u64)
    requires
        interval_minutes(cfg@) <= u64::MAX,
    ensures
        r == interval_minutes(cfg@),
{
    let c = chars_of(cfg);
    let min_suffix = chars_of("min");
    let h_suffix: Vec<char> = vec!['h'];
    assert(h_suffix@ =~= seq!['h']);
    if ends_with_exec(&c, &min_suffix) {
        let body = trim_end_matches_exec(&c, &min_suffix);
        match parse_unsigned_exec(&body, u64::MAX) {
            Some(v) => v,
            None => 10,
        }
    } else if ends_with_exec(&c, &h_suffix) {
        let body = trim_end_matches_exec(&c, &h_suffix);
        match parse_unsigned_exec(&body, u64::MAX) {
            Some(v) => v * 60,
            None => 60,
        }
    } else {
        10
    }
}

/// Text of the full-sync countdown. `marker` is the content of the last-full-sync marker
/// when it was read (`None` when it does not exist), `now` the current Unix time in seconds.
/// `None` means the text stays as it was (an unreadable or invalid marker).
pub open spec fn safety_net_text(interval: Seq<char>, marker: Option<Option<Seq<char>>>, now: u64) -> Option<Seq<char>> {
    if interval == "never"@ {
        Some("Disabled"@)
    } else {
        match marker {
            None => Some("On next run"@),
            Some(None) => None,
            Some(Some(content)) => match parse_unsigned(trim(content), u64::MAX as nat) {
                None => None,
                Some(ts) => {
                    let diff_min: int = if now >= ts {
                        (now - ts) / 60
                    } else {
                        0
                    };
                    let full: int = match parse_unsigned(interval, u64::MAX as nat) {
                        Some(v) => v as int,
                        None => 60,
                    };
                    if diff_min >= full {
                        Some("Full sync due"@)
                    } else {
                        Some("in "@ + decimal((full - diff_min) as nat) + " min"@)
                    }
                },
            },
        }
    }
}

/// The view of a marker's state.
pub open spec fn marker_view(m: Option<Option<String>>) -> Option<Option<Seq<char>>> {
    match m {
        None => None,
        Some(None) => Some(None),
        Some(Some(s)) => Some(Some(s@)),
    }
}

/// Text of the full-sync countdown (see `safety_net_text`).
pub fn cloud_safety_net_text(interval: &str, marker: &Option<Option<String>>, now: u64) -> (r: Option<String>)
    ensures
        match r {
            Some(s) => safety_net_text(interval@, marker_view(*marker), now) == Some(s@),
            None => safety_net_text(interval@, marker_view(*marker), now).is_none(),
        },
{
    let iv = chars_of(interval);
    if is_str(&iv, "never") {
        return Some(String::from_str("Disabled"));
    }
    match marker {
        None => Some(String::from_str("On next run")),
        Some(None) => None,
        Some(Some(content)) => {
            let t = trim_exec(&chars_of(content.as_str()));
            match parse_unsigned_exec(&t, u64::MAX) {
                None => None,
                Some(ts) => {
                    let diff_min: u64 = if now >= ts {
                        (now - ts) / 60
                    } else {
                        0
                    };
                    let full: u64 = match parse_unsigned_exec(&iv, u64::MAX) {
                        Some(v) => v,
                        None => 60,
                    };
                    if diff_min >= full {
                        Some(String::from_str("Full sync due"))
                    } else {
                        let mut v: Vec<char> = Vec::new();
                        append_str(&mut v, "in ");
                        let d = decimal_exec(full - diff_min);
                        append_chars(&mut v, &d);
                        append_str(&mut v, " min");
                        Some(string_of(&v))
                    }
                },
            }
        },
    }
}

} // verus!

verus! {

// ---------------------------------------------------------------------------
// Clock times (chrono's `NaiveTime`), as (seconds since midnight, nanoseconds)
// ---------------------------------------------------------------------------

/// A valid `NaiveTime`: a second of the day, with a nanosecond part that reaches past one
/// second only during a leap second (the last second of a minute).
pub open spec fn valid_clock(t: (u32, u32)) -> bool {
    &&& t.0 < 86400
    &&& t.1 < 2_000_000_000
    &&& (t.1 >= 1_000_000_000 ==> t.0 % 60 == 59)
}

/// What `NaiveTime::parse_from_str(token, "%H:%M:%S")` gives for `token`.
pub uninterp spec fn parsed_clock(token: Seq<char>) -> Option<(u32, u32)>;

/// chrono's `NaiveTime::parse_from_str` with the format `%H:%M:%S`. Claims that the result
/// is the named one and, when there is one, a valid time of day.
#[verifier::external_body]
fn parse_clock(token: &str) -> (r: Option<(u32, u32)>)
    ensures
        r == parsed_clock(token@),
        r matches Some(t) ==> valid_clock(t),
{
    match chrono::NaiveTime::parse_from_str(token, "%H:%M:%S") {
        Ok(t) => Some((
            chrono::Timelike::num_seconds_from_midnight(&t),
            chrono::Timelike::nanosecond(&t),
        )),
        Err(_) => None,
    }
}

/// What `NaiveTime + TimeDelta::minutes(minutes)` gives (the addition wraps around midnight).
pub uninterp spec fn clock_plus_minutes(t: (u32, u32), minutes: i64) -> (u32, u32);

/// Largest number of minutes that chrono's `TimeDelta::minutes` accepts.
pub open spec fn max_delta_minutes() -> int {
    (i64::MAX / 1000) / 60
}

/// chrono's `NaiveTime + TimeDelta::minutes(minutes)`. Claims that the result is the named
/// one and a valid time of day; `TimeDelta::minutes` panics beyond `max_delta_minutes`, which
/// the precondition leaves out.
#[verifier::external_body]
fn add_minutes(t: (u32, u32), minutes: i64) -> (r: (u32, u32))
    requires
        valid_clock(t),
        -max_delta_minutes() <= minutes <= max_delta_minutes(),
    ensures
        r == clock_plus_minutes(t, minutes),
        valid_clock(r),
{
    let nt = chrono::NaiveTime::from_num_seconds_from_midnight_opt(t.0, t.1).unwrap();
    let r = nt + chrono::TimeDelta::minutes(minutes);
    (chrono::Timelike::num_seconds_from_midnight(&r), chrono::Timelike::nanosecond(&r))
}

/// What `(a - b).num_seconds()` gives for two `NaiveTime`s.
pub uninterp spec fn clock_diff_seconds(a: (u32, u32), b: (u32, u32)) -> i64;

/// chrono's `NaiveTime - NaiveTime`, in whole seconds (`TimeDelta::num_seconds`). Claims
/// only that the result is the named one.
#[verifier::external_body]
fn clock_diff(a: (u32, u32), b: (u32, u32)) -> (r: i64)
    requires
        valid_clock(a),
        valid_clock(b),
    ensures
        r == clock_diff_seconds(a, b),
{
    let ta = chrono::NaiveTime::from_num_seconds_from_midnight_opt(a.0, a.1).unwrap();
    let tb = chrono::NaiveTime::from_num_seconds_from_midnight_opt(b.0, b.1).unwrap();
    (ta - tb).num_seconds()
}

/// Two decimal digits of `n < 100`, zero-padded.
pub open spec fn two_digits(n: int) -> Seq<char> {
    seq![((48 + n / 10) as char), ((48 + n % 10) as char)]
}

/// `%H:%M:%S` of a time of day: zero-padded hour, minute and second (60 during a leap second).
pub open spec fn hms_text(t: (u32, u32)) -> Seq<char> {
    let h = t.0 / 3600;
    let m = (t.0 % 3600) / 60;
    let sec = t.0 % 60 + if t.1 >= 1_000_000_000 {
        1int
    } else {
        0int
    };
    two_digits(h as int) + seq![':'] + two_digits(m as int) + seq![':'] + two_digits(sec)
}

/// chrono's `NaiveTime::format("%H:%M:%S")`. Claims what chrono documents for these three
/// fields: each zero-padded to two digits, the second being 60 during a leap second.
#[verifier::external_body]
fn format_clock(t: (u32, u32)) -> (r: String)
    requires
        valid_clock(t),
    ensures
        r@ == hms_text(t),
{
    let nt = chrono::NaiveTime::from_num_seconds_from_midnight_opt(t.0, t.1).unwrap();
    nt.format("%H:%M:%S").to_string()
}

// ---------------------------------------------------------------------------
// Timer status (`systemctl list-timers`)
// ---------------------------------------------------------------------------

/// The interval in minutes as chrono receives it (`u64 as i64`).
pub open spec fn minutes_as_i64(m: nat) -> int {
    if m <= i64::MAX {
        m as int
    } else {
        m - 0x1_0000_0000_0000_0000
    }
}

/// The first word with a `:` and at least five bytes: the time of the last run.
pub open spec fn last_run_word(parts: Seq<Seq<char>>) -> Option<Seq<char>>
    decreases parts.len(),
{
    if parts.len() == 0 {
        None
    } else if seq_contains(parts[0], seq![':']) && utf8_len(parts[0]) >= 5 {
        Some(parts[0])
    } else {
        last_run_word(parts.drop_first())
    }
}

/// Index of the first word `left`, if any.
pub open spec fn left_index(parts: Seq<Seq<char>>, k: int) -> Option<int>
    decreases parts.len() - k,
{
    if k < 0 || k >= parts.len() {
        None
    } else if parts[k] == "left"@ {
        Some(k)
    } else {
        left_index(parts, k + 1)
    }
}

/// `{m}m {s:02}s` for a positive number of seconds.
pub open spec fn countdown_text(diff: int) -> Seq<char> {
    decimal((diff / 60) as nat) + "m "@ + two_digits(diff % 60) + seq!['s']
}

/// The (next run, time left) texts when the timer waits for the service: counted from the
/// last run plus the interval, or approximate when no time of the last run can be read.
pub open spec fn idle_timer_texts(
    parts: Seq<Seq<char>>,
    cfg: Seq<char>,
    state: ServiceState,
    now: (u32, u32),
) -> (Seq<char>, Seq<char>) {
    let approx = (seq!['~'] + cfg, "in ~"@ + cfg);
    match last_run_word(parts) {
        None => approx,
        Some(w) => match parsed_clock(w) {
            None => approx,
            Some(t) => {
                let next = clock_plus_minutes(t, minutes_as_i64(interval_minutes(cfg)) as i64);
                let diff = clock_diff_seconds(next, now);
                if diff > 0 {
                    (hms_text(next), countdown_text(diff as int))
                } else if state == ServiceState::Active {
                    ("In progress"@, "after sync ("@ + cfg + seq![')'])
                } else {
                    (hms_text(next), "imminent"@)
                }
            },
        },
    }
}

/// The (next run, time left) texts of a scheduled timer line: the time column, and the word
/// before `left` (else the fifth column, else the time).
pub open spec fn scheduled_timer_texts(parts: Seq<Seq<char>>) -> (Seq<char>, Seq<char>) {
    let next = if parts.len() >= 3 && seq_contains(parts[2], seq![':']) {
        parts[2]
    } else if parts.len() >= 2 && seq_contains(parts[1], seq![':']) {
        parts[1]
    } else {
        parts[0]
    };
    let left = match left_index(parts, 0) {
        Some(k) => if k > 0 {
            parts[k - 1]
        } else {
            "--"@
        },
        None => if parts.len() >= 5 && parts[4] != seq!['-'] && parts[4].len() > 0 {
            parts[4]
        } else {
            next
        },
    };
    (next, left)
}

/// The (next run, time left) texts for the output of `systemctl list-timers` on the bisync
/// timer: `Disabled` when it lists nothing, the waiting texts when the next run is not
/// scheduled (`-` or `n/a`), else the scheduled texts.
pub open spec fn timer_texts(out: Seq<char>, cfg: Seq<char>, state: ServiceState, now: (u32, u32)) -> (
    Seq<char>,
    Seq<char>,
) {
    let line = trim(out);
    if line.len() == 0 {
        ("Disabled"@, "Disabled"@)
    } else {
        let parts = words(line);
        if parts.len() == 0 || parts[0] == seq!['-'] || parts[0] == "n/a"@ {
            idle_timer_texts(parts, cfg, state, now)
        } else {
            scheduled_timer_texts(parts)
        }
    }
}

/// Whether the timer status estimates the next run from the last one: the timer lists no
/// scheduled run (`-` or `n/a`) and a time of the last run can be read. Only then is the
/// configured interval added to a time.
pub open spec fn estimates_next_run(out: Seq<char>) -> bool {
    let line = trim(out);
    let parts = words(line);
    &&& line.len() > 0
    &&& (parts.len() == 0 || parts[0] == seq!['-'] || parts[0] == "n/a"@)
    &&& match last_run_word(parts) {
        Some(w) => parsed_clock(w) is Some,
        None => false,
    }
}

/// The interval of `cfg` is one chrono can add to a time.
pub open spec fn interval_in_range(cfg: Seq<char>) -> bool {
    &&& interval_minutes(cfg) <= u64::MAX
    &&& -max_delta_minutes() <= minutes_as_i64(interval_minutes(cfg)) <= max_delta_minutes()
}

fn two_digits_exec(n: u64) -> (r: Vec<char>)
    requires
        n < 100,
    ensures
        r@ == two_digits(n as int),
{
    let hi: u8 = (48 + n / 10) as u8;
    let lo: u8 = (48 + n % 10) as u8;
    let mut v: Vec<char> = Vec::new();
    v.push(hi as char);
    v.push(lo as char);
    v
}

/// Index of the first word with a `:` and at least five bytes.
fn find_last_run_word(parts: &Vec<Vec<char>>) -> (r: Option<usize>)
    ensures
        match r {
            Some(k) => k < parts.len() && last_run_word(parts@.map_values(|w: Vec<char>| w@))
                == Some(parts@[k as int]@),
            None => last_run_word(parts@.map_values(|w: Vec<char>| w@)).is_none(),
        },
{
    let ghost pv = parts@.map_values(|w: Vec<char>| w@);
    let colon: Vec<char> = vec![':'];
    assert(colon@ =~= seq![':']);
    let mut k: usize = 0;
    assert(pv.skip(0) =~= pv);
    while k < parts.len()
        invariant
            k <= parts.len(),
            pv == parts@.map_values(|w: Vec<char>| w@),
            colon@ == seq![':'],
            last_run_word(pv.skip(k as int)) == last_run_word(pv),
        decreases parts.len() - k,
    {
        assert(pv.skip(k as int).drop_first() =~= pv.skip(k + 1));
        assert(pv.skip(k as int)[0] == parts@[k as int]@);
        if crate::text::contains(&parts[k], &colon) && crate::text::utf8_len_at_least(&parts[k], 5) {
            return Some(k);
        }
        k = k + 1;
    }
    None
}

/// Index of the first word `left`.
fn find_left_word(parts: &Vec<Vec<char>>) -> (r: Option<usize>)
    ensures
        r.is_some() ==> r.unwrap() < parts.len(),
        opt_index(r) == left_index(parts@.map_values(|w: Vec<char>| w@), 0),
{
    let ghost pv = parts@.map_values(|w: Vec<char>| w@);
    let left_word = chars_of("left");
    let mut k: usize = 0;
    while k < parts.len()
        invariant
            k <= parts.len(),
            pv == parts@.map_values(|w: Vec<char>| w@),
            left_word@ == "left"@,
            left_index(pv, 0) == left_index(pv, k as int),
        decreases parts.len() - k,
    {
        assert(pv[k as int] == parts@[k as int]@);
        if seq_eq(&parts[k], &left_word) {
            return Some(k);
        }
        k = k + 1;
    }
    None
}

/// The view of an optional index.
pub open spec fn opt_index(o: Option<usize>) -> Option<int> {
    match o {
        Some(k) => Some(k as int),
        None => None,
    }
}

/// The (next run, time left) texts of the bisync timer (see `timer_texts`). `out` is the
/// output of `systemctl list-timers`, `cfg_interval` the configured interval, `state` the
/// service state and `now` the local time of day.
pub fn timer_status(out: &str, cfg_interval: &str, state: ServiceState, now: (u32, u32)) -> (r: (
    String,
    String,
))
    requires
        estimates_next_run(out@) ==> interval_in_range(cfg_interval@),
        valid_clock(now),
    ensures
        (r.0@, r.1@) == timer_texts(out@, cfg_interval@, state, now),
{
    let line = trim_exec(&chars_of(out));
    if line.len() == 0 {
        return (String::from_str("Disabled"), String::from_str("Disabled"));
    }
    let parts = words_exec(&line);
    let ghost pv = parts@.map_values(|w: Vec<char>| w@);
    let dash: Vec<char> = vec!['-'];
    assert(dash@ =~= seq!['-']);
    let na = chars_of("n/a");
    if parts.len() == 0 || seq_eq(&parts[0], &dash) || seq_eq(&parts[0], &na) {
        let cfg = chars_of(cfg_interval);
        let mut approx_next: Vec<char> = Vec::new();
        approx_next.push('~');
        append_chars(&mut approx_next, &cfg);
        let mut approx_left: Vec<char> = Vec::new();
        append_str(&mut approx_left, "in ~");
        append_chars(&mut approx_left, &cfg);
        let found = find_last_run_word(&parts);
        match found {
            None => {
                return (string_of(&approx_next), string_of(&approx_left));
            },
            Some(k) => {
                let word = string_of(&parts[k]);
                match parse_clock(word.as_str()) {
                    None => {
                        return (string_of(&approx_next), string_of(&approx_left));
                    },
                    Some(t) => {
                        assert(estimates_next_run(out@));
                        let mins = timer_interval_minutes(cfg_interval);
                        let m: i64 = if mins <= 0x7fff_ffff_ffff_ffff {
                            mins as i64
                        } else {
                            (mins - 0x8000_0000_0000_0000) as i64 - 0x7fff_ffff_ffff_ffff - 1
                        };
                        let next = add_minutes(t, m);
                        let diff = clock_diff(next, now);
                        if diff > 0 {
                            let mut left: Vec<char> = crate::numparse::decimal_exec((diff / 60) as u64);
                            append_str(&mut left, "m ");
                            append_chars(&mut left, &two_digits_exec((diff % 60) as u64));
                            left.push('s');
                            return (format_clock(next), string_of(&left));
                        } else if state == ServiceState::Active {
                            let mut left: Vec<char> = Vec::new();
                            append_str(&mut left, "after sync (");
                            append_chars(&mut left, &cfg);
                            left.push(')');
                            return (String::from_str("In progress"), string_of(&left));
                        } else {
                            return (format_clock(next), String::from_str("imminent"));
                        }
                    },
                }
            },
        }
    }
    // a scheduled run
    let colon: Vec<char> = vec![':'];
    assert(colon@ =~= seq![':']);
    let next: &Vec<char> = if parts.len() >= 3 && crate::text::contains(&parts[2], &colon) {
        &parts[2]
    } else if parts.len() >= 2 && crate::text::contains(&parts[1], &colon) {
        &parts[1]
    } else {
        &parts[0]
    };
    let left_at = find_left_word(&parts);
    proof {
        assert(pv.len() == parts@.len());
        assert(pv[0] == parts@[0]@);
        if parts.len() >= 2 {
            assert(pv[1] == parts@[1]@);
        }
        if parts.len() >= 3 {
            assert(pv[2] == parts@[2]@);
        }
        if parts.len() >= 5 {
            assert(pv[4] == parts@[4]@);
        }
        if let Some(k) = left_at {
            if k > 0 {
                assert(pv[k - 1] == parts@[k - 1]@);
            }
        }
        assert(next@ == scheduled_timer_texts(pv).0);
    }
    let left: String = match left_at {
        Some(k) => if k > 0 {
            string_of(&parts[k - 1])
        } else {
            String::from_str("--")
        },
        None => if parts.len() >= 5 && !seq_eq(&parts[4], &dash) && parts[4].len() > 0 {
            string_of(&parts[4])
        } else {
            string_of(next)
        },
    };
    (string_of(next), left)
}

} // verus!

verus! {

/// Whether the timer status will estimate the next run from the last one (see
/// `estimates_next_run`), the one case where it needs a usable interval.
pub fn timer_needs_interval(out: &str) -> (r: bool)
    ensures
        r == estimates_next_run(out@),
{
    let line = trim_exec(&chars_of(out));
    if line.len() == 0 {
        return false;
    }
    let parts = words_exec(&line);
    let ghost pv = parts@.map_values(|w: Vec<char>| w@);
    let dash: Vec<char> = vec!['-'];
    assert(dash@ =~= seq!['-']);
    let na = chars_of("n/a");
    if parts.len() > 0 {
        assert(pv[0] == parts@[0]@);
    }
    if !(parts.len() == 0 || seq_eq(&parts[0], &dash) || seq_eq(&parts[0], &na)) {
        return false;
    }
    match find_last_run_word(&parts) {
        None => false,
        Some(k) => {
            let word = string_of(&parts[k]);
            parse_clock(word.as_str()).is_some()
        },
    }
}

/// The timer status (see `timer_texts`), or `None` when it would have to add an interval
/// that chrono cannot take (see `interval_in_range`), where the status cannot be computed.
pub fn timer_status_checked(out: &str, cfg_interval: &str, state: ServiceState, now: (u32, u32)) -> (r: Option<(String, String)>)
    requires
        valid_clock(now),
    ensures
        match r {
            Some(p) => (p.0@, p.1@) == timer_texts(out@, cfg_interval@, state, now),
            None => estimates_next_run(out@) && !interval_in_range(cfg_interval@),
        },
{
    if timer_needs_interval(out) && !timer_interval_usable(cfg_interval) {
        return None;
    }
    Some(timer_status(out, cfg_interval, state, now))
}

/// Whether the configured interval is one the timer status can be computed with
/// (see `interval_in_range`).
pub fn timer_interval_usable(cfg: &str) -> (r: bool)
    ensures
        r == interval_in_range(cfg@),
{
    let c = chars_of(cfg);
    let min_suffix = chars_of("min");
    let h_suffix: Vec<char> = vec!['h'];
    assert(h_suffix@ =~= seq!['h']);
    let bound: u64 = 153722867280912;
    assert(bound == max_delta_minutes());
    let minutes: u64 = if ends_with_exec(&c, &min_suffix) {
        match parse_unsigned_exec(&trim_end_matches_exec(&c, &min_suffix), u64::MAX) {
            Some(v) => v,
            None => 10,
        }
    } else if ends_with_exec(&c, &h_suffix) {
        match parse_unsigned_exec(&trim_end_matches_exec(&c, &h_suffix), u64::MAX) {
            Some(v) => {
                if v > u64::MAX / 60 {
                    return false;
                }
                v * 60
            },
            None => 60,
        }
    } else {
        10
    };
    assert(minutes == interval_minutes(cfg@));
    minutes <= bound || minutes >= u64::MAX - bound + 1
}

// ---------------------------------------------------------------------------
// Timer unit
// ---------------------------------------------------------------------------

/// The lines of the timer unit that set its period.
pub open spec fn timer_period_pattern() -> Seq<char> {
    "(?m)^(OnUnitActiveSec|OnUnitInactiveSec)=.*$"@
}

/// The line that sets the timer's period to `interval`.
pub open spec fn timer_period_line(interval: Seq<char>) -> Seq<char> {
    "OnUnitInactiveSec="@ + interval
}

/// The timer unit `content` with its period lines set to `interval`, when that changes the
/// unit; `None` when it is already so (nothing to write).
pub open spec fn updated_timer_unit_of(content: Seq<char>, interval: Seq<char>) -> Option<Seq<char>> {
    match regex_replaced(timer_period_pattern(), content, timer_period_line(interval)) {
        Some(u) => if u != content {
            Some(u)
        } else {
            None
        },
        None => None,
    }
}

/// The timer unit with its period set to `interval` (see `updated_timer_unit_of`).
pub fn updated_timer_unit(content: &str, interval: &str) -> (r: Option<String>)
    ensures
        opt_text(r) == updated_timer_unit_of(content@, interval@),
{
    let mut line: Vec<char> = Vec::new();
    append_str(&mut line, "OnUnitInactiveSec=");
    append_str(&mut line, interval);
    assert(Seq::<char>::empty() + "OnUnitInactiveSec="@ + interval@ =~= timer_period_line(interval@));
    let rep = string_of(&line);
    match replace_all("(?m)^(OnUnitActiveSec|OnUnitInactiveSec)=.*$", content, rep.as_str()) {
        Some(u) => {
            if seq_eq(&chars_of(u.as_str()), &chars_of(content)) {
                None
            } else {
                Some(u)
            }
        },
        None => None,
    }
}

} // verus!

//! Countdown to the next timer run: the length of a timer cycle from the configured
//! interval, and the seconds left read from systemd's "time left" text.
use vstd::prelude::*;
use crate::numparse::{parse_unsigned, parse_unsigned_exec};
use crate::options_list::{eq_ignore_ascii_case, eq_ignore_ascii_case_exec};
use crate::systemd::{trim_end_matches, trim_end_matches_exec};
use crate::text::{chars_of, ends_with, ends_with_exec, seq_eq, starts_with, starts_with_exec, trim, trim_exec};

verus! {

/// `parse::<u64>()` of `s`, if it succeeds.
pub open spec fn parse_u64(s: Seq<char>) -> Option<nat> {
    parse_unsigned(s, u64::MAX as nat)
}

/// The value `parse` gives, or `d`.
pub open spec fn or_default(o: Option<nat>, d: int) -> int {
    match o {
        Some(v) => v as int,
        None => d,
    }
}

/// Length of a timer cycle in seconds for a configured interval: `never` is 0; `<n>min` and
/// `<n>m` are minutes (10 when `n` is not a number), `<n>h` hours (1 by default), `<n>s`
/// seconds (600 by default), and a bare number is minutes (600 seconds when not a number).
pub open spec fn cycle_seconds(interval: Seq<char>) -> int {
    let i = trim(interval);
    if eq_ignore_ascii_case(i, "never"@) {
        0
    } else if ends_with(i, "min"@) {
        or_default(parse_u64(trim_end_matches(i, "min"@)), 10) * 60
    } else if ends_with(i, seq!['m']) {
        or_default(parse_u64(trim_end_matches(i, seq!['m'])), 10) * 60
    } else if ends_with(i, seq!['h']) {
        or_default(parse_u64(trim_end_matches(i, seq!['h'])), 1) * 3600
    } else if ends_with(i, seq!['s']) {
        or_default(parse_u64(trim_end_matches(i, seq!['s'])), 600)
    } else {
        match parse_u64(i) {
            Some(m) => (m * 60) as int,
            None => 600,
        }
    }
}

/// Length of a timer cycle in seconds (see `cycle_seconds`).
pub fn timer_cycle_seconds(interval: &str) -> (r: u64)
    requires
        cycle_seconds(interval@) <= u64::MAX,
    ensures
        r == cycle_seconds(interval@),
{
    let i = trim_exec(&chars_of(interval));
    let never = chars_of("never");
    if eq_ignore_ascii_case_exec(&i, &never) {
        return 0;
    }
    let min = chars_of("min");
    let m: Vec<char> = vec!['m'];
    let h: Vec<char> = vec!['h'];
    let s: Vec<char> = vec!['s'];
    assert(m@ =~= seq!['m']);
    assert(h@ =~= seq!['h']);
    assert(s@ =~= seq!['s']);
    if ends_with_exec(&i, &min) {
        let v = match parse_unsigned_exec(&trim_end_matches_exec(&i, &min), u64::MAX) {
            Some(v) => v,
            None => 10,
        };
        v * 60
    } else if ends_with_exec(&i, &m) {
        let v = match parse_unsigned_exec(&trim_end_matches_exec(&i, &m), u64::MAX) {
            Some(v) => v,
            None => 10,
        };
        v * 60
    } else if ends_with_exec(&i, &h) {
        let v = match parse_unsigned_exec(&trim_end_matches_exec(&i, &h), u64::MAX) {
            Some(v) => v,
            None => 1,
        };
        v * 3600
    } else if ends_with_exec(&i, &s) {
        match parse_unsigned_exec(&trim_end_matches_exec(&i, &s), u64::MAX) {
            Some(v) => v,
            None => 600,
        }
    } else {
        match parse_unsigned_exec(&i, u64::MAX) {
            Some(v) => v * 60,
            None => 600,
        }
    }
}

/// Seconds carried by a unit letter (`h`, `m`, `s`, in either case); 0 for other characters.
pub open spec fn unit_seconds(c: char) -> int {
    if c == 'h' || c == 'H' {
        3600
    } else if c == 'm' || c == 'M' {
        60
    } else if c == 's' || c == 'S' {
        1
    } else {
        0
    }
}

/// Reading state: seconds counted so far, pending digits, and whether a number was read.
pub type LeftRead = (int, Seq<char>, bool);

/// One character of the countdown text: digits accumulate, a unit letter converts the
/// pending number (dropped when it is not a number), other characters are skipped.
pub open spec fn left_step(st: LeftRead, c: char) -> LeftRead {
    if '0' <= c && c <= '9' {
        (st.0, st.1.push(c), st.2)
    } else if unit_seconds(c) > 0 {
        match parse_u64(st.1) {
            Some(v) => (st.0 + v * unit_seconds(c), Seq::empty(), true),
            None => (st.0, Seq::empty(), st.2),
        }
    } else {
        st
    }
}

/// The reading state after the characters of `s`.
pub open spec fn left_fold(s: Seq<char>) -> LeftRead
    decreases s.len(),
{
    if s.len() == 0 {
        (0, Seq::empty(), false)
    } else {
        left_step(left_fold(s.drop_last()), s.last())
    }
}

/// The seconds read from a countdown text: a trailing number without unit counts as minutes
/// when nothing else was read, else as seconds; `None` when no number was read.
pub open spec fn left_total(s: Seq<char>) -> Option<int> {
    let st = left_fold(s);
    if st.1.len() > 0 && parse_u64(st.1).is_some() {
        let v = parse_u64(st.1).unwrap() as int;
        if !st.2 {
            Some(v * 60)
        } else {
            Some(st.0 + v)
        }
    } else if st.2 {
        Some(st.0)
    } else {
        None
    }
}

/// Seconds until the next run, from the configured interval and systemd's "time left":
/// none for a paused timer or an unknown countdown, 0 when the run is imminent, a full cycle
/// while a run is awaited, and otherwise the text read as `4m 12s`, `1h 10m`, `45s left`...
pub open spec fn remaining_seconds(interval: Seq<char>, timer_left: Seq<char>) -> Option<int> {
    let left = trim(timer_left);
    if eq_ignore_ascii_case(interval, "never"@) {
        None
    } else if left.len() == 0 || left == "--"@ || left == "—"@ || eq_ignore_ascii_case(
        left,
        "disabled"@,
    ) {
        None
    } else if eq_ignore_ascii_case(left, "imminent"@) {
        Some(0)
    } else if starts_with(left, "after sync"@) || starts_with(left, "in ~"@) {
        Some(cycle_seconds(interval))
    } else {
        left_total(trim(trim_end_matches(left, "left"@)))
    }
}

/// The counted seconds only grow while the text is read, and once a number is read it stays so.
proof fn lemma_left_fold_grows(s: Seq<char>, i: int)
    requires
        0 <= i <= s.len(),
    ensures
        0 <= left_fold(s.take(i)).0 <= left_fold(s).0,
        left_fold(s.take(i)).2 ==> left_fold(s).2,
    decreases s.len() - i,
{
    if i < s.len() {
        lemma_left_fold_grows(s, i + 1);
        assert(s.take(i + 1).drop_last() =~= s.take(i));
        lemma_left_fold_nonneg(s.take(i));
    } else {
        assert(s.take(i) =~= s);
        lemma_left_fold_nonneg(s);
    }
}

proof fn lemma_left_fold_nonneg(s: Seq<char>)
    ensures
        left_fold(s).0 >= 0,
        !left_fold(s).2 ==> left_fold(s).0 == 0,
    decreases s.len(),
{
    if s.len() > 0 {
        lemma_left_fold_nonneg(s.drop_last());
    }
}

/// Reads the seconds of a countdown text (see `left_total`).
fn left_total_exec(s: &Vec<char>) -> (r: Option<u64>)
    requires
        left_total(s@) matches Some(x) ==> x <= u64::MAX,
    ensures
        match r {
            Some(v) => left_total(s@) == Some(v as int),
            None => left_total(s@).is_none(),
        },
{
    let mut total: u64 = 0;
    let mut buf: Vec<char> = Vec::new();
    let mut parsed = false;
    let mut i: usize = 0;
    proof {
        lemma_left_fold_nonneg(s@);
    }
    while i < s.len()
        invariant
            i <= s.len(),
            left_total(s@) matches Some(x) ==> x <= u64::MAX,
            left_fold(s@).2 ==> (left_total(s@) matches Some(x) && x >= left_fold(s@).0),
            (total as int, buf@, parsed) == left_fold(s@.take(i as int)),
        decreases s.len() - i,
    {
        assert(s@.take(i + 1).drop_last() =~= s@.take(i as int));
        proof {
            lemma_left_fold_grows(s@, i + 1);
        }
        let c = s[i];
        if '0' <= c && c <= '9' {
            buf.push(c);
        } else {
            let unit: u64 = if c == 'h' || c == 'H' {
                3600
            } else if c == 'm' || c == 'M' {
                60
            } else if c == 's' || c == 'S' {
                1
            } else {
                0
            };
            if unit > 0 {
                match parse_unsigned_exec(&buf, u64::MAX) {
                    Some(v) => {
                        assert(left_fold(s@.take(i + 1)).0 == total + v * unit);
                        total = total + v * unit;
                        parsed = true;
                    },
                    None => {},
                }
                buf = Vec::new();
            }
        }
        i = i + 1;
    }
    assert(s@.take(s.len() as int) =~= s@);
    if buf.len() > 0 {
        match parse_unsigned_exec(&buf, u64::MAX) {
            Some(v) => {
                if !parsed {
                    return Some(v * 60);
                } else {
                    return Some(total + v);
                }
            },
            None => {},
        }
    }
    if parsed {
        Some(total)
    } else {
        None
    }
}

/// Seconds until the next run (see `remaining_seconds`).
pub fn timer_remaining_seconds(interval: &str, timer_left: &str) -> (r: Option<u64>)
    requires
        remaining_seconds(interval@, timer_left@) matches Some(x) ==> x <= u64::MAX,
    ensures
        match r {
            Some(v) => remaining_seconds(interval@, timer_left@) == Some(v as int),
            None => remaining_seconds(interval@, timer_left@).is_none(),
        },
{
    let iv = chars_of(interval);
    let never = chars_of("never");
    if eq_ignore_ascii_case_exec(&iv, &never) {
        return None;
    }
    let left = trim_exec(&chars_of(timer_left));
    let dashes = chars_of("--");
    let em = chars_of("—");
    let disabled = chars_of("disabled");
    if left.len() == 0 || seq_eq(&left, &dashes) || seq_eq(&left, &em) || eq_ignore_ascii_case_exec(
        &left,
        &disabled,
    ) {
        return None;
    }
    let imminent = chars_of("imminent");
    if eq_ignore_ascii_case_exec(&left, &imminent) {
        return Some(0);
    }
    let after = chars_of("after sync");
    let approx = chars_of("in ~");
    if starts_with_exec(&left, &after) || starts_with_exec(&left, &approx) {
        return Some(timer_cycle_seconds(interval));
    }
    let word = chars_of("left");
    let clean = trim_exec(&trim_end_matches_exec(&left, &word));
    left_total_exec(&clean)
}

} // verus!

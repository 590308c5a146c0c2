//! Decimal parsing of unsigned integers (`str::parse::<u8/u32/u64>`) and decimal rendering.
use vstd::prelude::*;

verus! {

/// An ASCII decimal digit.
pub open spec fn is_digit(c: char) -> bool {
    '0' <= c && c <= '9'
}

/// Value of an ASCII digit.
pub open spec fn digit_val(c: char) -> nat {
    ((c as u32) - ('0' as u32)) as nat
}

/// Value of a string of ASCII digits (most significant first).
pub open spec fn digits_value(s: Seq<char>) -> nat
    decreases s.len(),
{
    if s.len() == 0 {
        0
    } else {
        digits_value(s.drop_last()) * 10 + digit_val(s.last())
    }
}

/// All characters are ASCII digits.
pub open spec fn all_digits(s: Seq<char>) -> bool {
    forall|i: int| 0 <= i < s.len() ==> #[trigger] is_digit(s[i])
}

/// The digits part of an unsigned number: an optional leading `+` is skipped.
pub open spec fn unsigned_body(s: Seq<char>) -> Seq<char> {
    if s.len() > 0 && s[0] == '+' {
        s.drop_first()
    } else {
        s
    }
}

/// `str::parse` for an unsigned integer type whose largest value is `max`:
/// an optional `+`, then at least one ASCII digit; `None` when the value exceeds `max`.
pub open spec fn parse_unsigned(s: Seq<char>, max: nat) -> Option<nat> {
    let b = unsigned_body(s);
    if b.len() > 0 && all_digits(b) && digits_value(b) <= max {
        Some(digits_value(b))
    } else {
        None
    }
}

/// `s.parse::<u32>().unwrap_or(0)`.
pub open spec fn parse_u32_or_zero(s: Seq<char>) -> u32 {
    match parse_unsigned(s, u32::MAX as nat) {
        Some(v) => v as u32,
        None => 0,
    }
}

/// `s.parse::<u8>().unwrap_or(0)`.
pub open spec fn parse_u8_or_zero(s: Seq<char>) -> u8 {
    match parse_unsigned(s, u8::MAX as nat) {
        Some(v) => v as u8,
        None => 0,
    }
}

proof fn lemma_digits_value_push(s: Seq<char>, c: char)
    ensures
        digits_value(s.push(c)) == digits_value(s) * 10 + digit_val(c),
{
    assert(s.push(c).drop_last() =~= s);
}

/// Parses an unsigned decimal number no larger than `max` (see `parse_unsigned`).
pub fn parse_unsigned_exec(s: &Vec<char>, max: u64) -> (r: Option<u64>)
    ensures
        r matches Some(v) ==> parse_unsigned(s@, max as nat) == Some(v as nat),
        r is None ==> parse_unsigned(s@, max as nat) is None,
{
    let start: usize = if s.len() > 0 && s[0] == '+' {
        1
    } else {
        0
    };
    let ghost b = unsigned_body(s@);
    assert(b =~= s@.subrange(start as int, s.len() as int));
    if start >= s.len() {
        return None;
    }
    let mut acc: u64 = 0;
    let mut i = start;
    while i < s.len()
        invariant
            start <= i <= s.len(),
            b == s@.subrange(start as int, s.len() as int),
            b == unsigned_body(s@),
            all_digits(s@.subrange(start as int, i as int)),
            acc as nat == digits_value(s@.subrange(start as int, i as int)),
            acc <= max,
        decreases s.len() - i,
    {
        let c = s[i];
        if !('0' <= c && c <= '9') {
            assert(b[i - start] == c);
            assert(!is_digit(b[i - start]));
            assert(!all_digits(b));
            return None;
        }
        let d: u64 = (c as u32 - '0' as u32) as u64;
        proof {
            lemma_digits_value_push(s@.subrange(start as int, i as int), c);
            assert(s@.subrange(start as int, i + 1) =~= s@.subrange(start as int, i as int).push(c));
        }
        let next: u128 = acc as u128 * 10 + d as u128;
        if next > max as u128 {
            // every further digit only grows the value
            proof {
                assert(b.subrange(0, (i - start) + 1) =~= s@.subrange(start as int, i + 1));
                lemma_prefix_grows(b, (i - start) as int + 1);
            }
            return None;
        }
        acc = next as u64;
        i = i + 1;
    }
    assert(s@.subrange(start as int, i as int) =~= b);
    Some(acc)
}

/// The value of a digit string is at least the value of any of its prefixes.
proof fn lemma_prefix_grows(b: Seq<char>, k: int)
    requires
        0 <= k <= b.len(),
        all_digits(b.subrange(0, k)),
    ensures
        all_digits(b) ==> digits_value(b) >= digits_value(b.subrange(0, k)),
    decreases b.len() - k,
{
    if k < b.len() && all_digits(b) {
        let p = b.subrange(0, k);
        let q = b.subrange(0, k + 1);
        assert(q =~= p.push(b[k]));
        lemma_digits_value_push(p, b[k]);
        assert(is_digit(b[k]));
        lemma_prefix_grows(b, k + 1);
    } else if k == b.len() {
        assert(b.subrange(0, k) =~= b);
    }
}

/// `s.parse::<u32>().unwrap_or(0)`.
pub fn parse_u32_or_zero_exec(s: &Vec<char>) -> (r: u32)
    ensures
        r == parse_u32_or_zero(s@),
{
    match parse_unsigned_exec(s, 0xffff_ffff) {
        Some(v) => v as u32,
        None => 0,
    }
}

/// `s.parse::<u8>().unwrap_or(0)`.
pub fn parse_u8_or_zero_exec(s: &Vec<char>) -> (r: u8)
    ensures
        r == parse_u8_or_zero(s@),
{
    match parse_unsigned_exec(s, 0xff) {
        Some(v) => v as u8,
        None => 0,
    }
}

// ---------------------------------------------------------------------------
// Decimal rendering
// ---------------------------------------------------------------------------

/// The ASCII digit for `d < 10`.
pub open spec fn digit_char(d: nat) -> char {
    (('0' as u32) + d) as char
}

/// Decimal representation of `n` without leading zeros (`"0"` for zero), as `format!("{}", n)`.
pub open spec fn decimal(n: nat) -> Seq<char>
    decreases n,
{
    if n < 10 {
        seq![digit_char(n)]
    } else {
        decimal(n / 10).push(digit_char(n % 10))
    }
}

/// Renders `n` in decimal.
pub fn decimal_exec(n: u64) -> (r: Vec<char>)
    ensures
        r@ == decimal(n as nat),
    decreases n,
{
    let d: u32 = (n % 10) as u32;
    let c = digit_char_exec(d);
    if n < 10 {
        let mut v: Vec<char> = Vec::new();
        v.push(c);
        v
    } else {
        let mut v = decimal_exec(n / 10);
        v.push(c);
        v
    }
}

fn digit_char_exec(d: u32) -> (r: char)
    requires
        d < 10,
    ensures
        r == digit_char(d as nat),
{
    let b: u8 = (48 + d) as u8;
    b as char
}

} // verus!

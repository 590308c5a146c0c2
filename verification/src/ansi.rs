//! Removal of terminal escape sequences and control characters from log text.
use vstd::prelude::*;
use crate::text::{chars_of, string_of};

verus! {

/// The escape character.
pub open spec fn esc() -> char {
    '\u{1b}'
}

/// A control character in the Unicode sense (`char::is_control`, category Cc).
pub open spec fn is_control(c: char) -> bool {
    (c as u32) < 0x20 || (0x7f <= (c as u32) && (c as u32) <= 0x9f)
}

/// A character copied as it is to the output.
pub open spec fn kept_char(c: char) -> bool {
    c == '\n' || (c != '\r' && !is_control(c))
}

/// Index just past the final byte (`0x40..=0x7E`) of a CSI sequence whose parameters start at `j`.
pub open spec fn csi_end(s: Seq<char>, j: int) -> int
    decreases s.len() - j,
{
    if j < 0 || j >= s.len() {
        s.len() as int
    } else if 0x40 <= (s[j] as u32) && (s[j] as u32) <= 0x7e {
        j + 1
    } else {
        csi_end(s, j + 1)
    }
}

/// Index just past the terminator (BEL, or ESC `\`) of an OSC sequence whose body starts at `j`.
pub open spec fn osc_end(s: Seq<char>, j: int) -> int
    decreases s.len() - j,
{
    if j < 0 || j >= s.len() {
        s.len() as int
    } else if s[j] == '\u{7}' {
        j + 1
    } else if s[j] == esc() && j + 1 < s.len() && s[j + 1] == '\\' {
        j + 2
    } else {
        osc_end(s, j + 1)
    }
}

proof fn lemma_csi_end(s: Seq<char>, j: int)
    requires
        0 <= j,
    ensures
        j <= csi_end(s, j) || j > s.len(),
        csi_end(s, j) <= s.len() || j > s.len(),
        j <= s.len() ==> j <= csi_end(s, j) <= s.len(),
    decreases s.len() - j,
{
    if j < s.len() && !(0x40 <= (s[j] as u32) && (s[j] as u32) <= 0x7e) {
        lemma_csi_end(s, j + 1);
    }
}

proof fn lemma_osc_end(s: Seq<char>, j: int)
    requires
        0 <= j,
    ensures
        j <= s.len() ==> j <= osc_end(s, j) <= s.len(),
    decreases s.len() - j,
{
    if j < s.len() && s[j] != '\u{7}' && !(s[j] == esc() && j + 1 < s.len() && s[j + 1] == '\\') {
        lemma_osc_end(s, j + 1);
    }
}

/// Next reading position after the escape character at `i`: escape sequences are skipped whole.
pub open spec fn after_escape(s: Seq<char>, i: int) -> int {
    if i + 1 >= s.len() {
        s.len() as int
    } else if s[i + 1] == '[' {
        csi_end(s, i + 2)
    } else if s[i + 1] == ']' {
        osc_end(s, i + 2)
    } else if s[i + 1] == '(' || s[i + 1] == ')' {
        if i + 3 <= s.len() {
            i + 3
        } else {
            s.len() as int
        }
    } else {
        i + 1
    }
}

proof fn lemma_after_escape(s: Seq<char>, i: int)
    requires
        0 <= i < s.len(),
    ensures
        i < after_escape(s, i) <= s.len(),
{
    if i + 1 < s.len() {
        if s[i + 1] == '[' {
            lemma_csi_end(s, i + 2);
        } else if s[i + 1] == ']' {
            lemma_osc_end(s, i + 2);
        }
    }
}

/// What the text from position `i` becomes once cleaned: escape sequences removed, tabs
/// expanded to four spaces, other control characters except new lines dropped.
pub open spec fn strip_from(s: Seq<char>, i: int) -> Seq<char>
    decreases s.len() - i,
{
    if i < 0 || i >= s.len() {
        Seq::empty()
    } else if s[i] == esc() {
        let n = after_escape(s, i);
        if i < n <= s.len() {
            strip_from(s, n)
        } else {
            Seq::empty()
        }
    } else if s[i] == '\t' {
        seq![' ', ' ', ' ', ' '] + strip_from(s, i + 1)
    } else if kept_char(s[i]) {
        seq![s[i]] + strip_from(s, i + 1)
    } else {
        strip_from(s, i + 1)
    }
}

/// The cleaned text of `s`.
pub open spec fn strip_ansi_spec(s: Seq<char>) -> Seq<char> {
    strip_from(s, 0)
}

fn csi_end_exec(s: &Vec<char>, j: usize) -> (r: usize)
    requires
        j <= s.len(),
    ensures
        r as int == csi_end(s@, j as int),
{
    let mut k = j;
    while k < s.len() && !(0x40 <= (s[k] as u32) && (s[k] as u32) <= 0x7e)
        invariant
            j <= k <= s.len(),
            csi_end(s@, j as int) == csi_end(s@, k as int),
        decreases s.len() - k,
    {
        k = k + 1;
    }
    if k < s.len() {
        k + 1
    } else {
        k
    }
}

fn osc_end_exec(s: &Vec<char>, j: usize) -> (r: usize)
    requires
        j <= s.len(),
    ensures
        r as int == osc_end(s@, j as int),
{
    let mut k = j;
    while k < s.len() && s[k] != '\u{7}' && !(s[k] == '\u{1b}' && k + 1 < s.len() && s[k + 1]
        == '\\')
        invariant
            j <= k <= s.len(),
            osc_end(s@, j as int) == osc_end(s@, k as int),
        decreases s.len() - k,
    {
        k = k + 1;
    }
    if k >= s.len() {
        k
    } else if s[k] == '\u{7}' {
        k + 1
    } else {
        k + 2
    }
}

fn after_escape_exec(s: &Vec<char>, i: usize) -> (r: usize)
    requires
        i < s.len(),
    ensures
        r as int == after_escape(s@, i as int),
        i < r <= s.len(),
{
    proof {
        lemma_after_escape(s@, i as int);
    }
    if i + 1 >= s.len() {
        s.len()
    } else if s[i + 1] == '[' {
        csi_end_exec(s, i + 2)
    } else if s[i + 1] == ']' {
        osc_end_exec(s, i + 2)
    } else if s[i + 1] == '(' || s[i + 1] == ')' {
        if s.len() - i >= 3 {
            i + 3
        } else {
            s.len()
        }
    } else {
        i + 1
    }
}

/// Cleans a character sequence (see `strip_from`).
pub fn strip_ansi_chars(s: &Vec<char>) -> (r: Vec<char>)
    ensures
        r@ == strip_ansi_spec(s@),
{
    let mut out: Vec<char> = Vec::new();
    let mut i: usize = 0;
    while i < s.len()
        invariant
            i <= s.len(),
            strip_from(s@, 0) == out@ + strip_from(s@, i as int),
        decreases s.len() - i,
    {
        let c = s[i];
        let ghost before = out@;
        if c == '\u{1b}' {
            let n = after_escape_exec(s, i);
            i = n;
        } else if c == '\t' {
            out.push(' ');
            out.push(' ');
            out.push(' ');
            out.push(' ');
            assert(out@ =~= before + seq![' ', ' ', ' ', ' ']);
            assert(strip_from(s@, 0) == out@ + strip_from(s@, i + 1)) by {
                assert(before + (seq![' ', ' ', ' ', ' '] + strip_from(s@, i + 1)) =~= before
                    + seq![' ', ' ', ' ', ' '] + strip_from(s@, i + 1));
            }
            i = i + 1;
        } else if c == '\n' || (c != '\r' && !((c as u32) < 0x20 || (0x7f <= (c as u32) && (c
            as u32) <= 0x9f))) {
            out.push(c);
            assert(strip_from(s@, 0) == out@ + strip_from(s@, i + 1)) by {
                assert(before + (seq![c] + strip_from(s@, i + 1)) =~= before.push(c)
                    + strip_from(s@, i + 1));
            }
            i = i + 1;
        } else {
            i = i + 1;
        }
    }
    assert(out@ + Seq::<char>::empty() =~= out@);
    out
}

/// Removes ANSI escape sequences (CSI, OSC, charset selection) and control characters
/// from `s`; tabs become four spaces, new lines are kept.
pub fn strip_ansi(s: &str) -> (r: String)
    ensures
        r@ == strip_ansi_spec(s@),
{
    let v = chars_of(s);
    let out = strip_ansi_chars(&v);
    string_of(&out)
}

} // verus!

verus! {

/// Every character of `t` is one that cleaning keeps as it is.
pub open spec fn all_kept(t: Seq<char>) -> bool {
    forall|k: int| 0 <= k < t.len() ==> kept_char(#[trigger] t[k])
}

proof fn lemma_strip_output_kept(s: Seq<char>, i: int)
    requires
        0 <= i,
    ensures
        all_kept(strip_from(s, i)),
    decreases s.len() - i,
{
    if i < s.len() {
        if s[i] == esc() {
            lemma_after_escape(s, i);
            lemma_strip_output_kept(s, after_escape(s, i));
        } else if s[i] == '\t' {
            lemma_strip_output_kept(s, i + 1);
            let sp = seq![' ', ' ', ' ', ' '];
            let rest = strip_from(s, i + 1);
            assert forall|k: int| 0 <= k < (sp + rest).len() implies kept_char(#[trigger] (sp + rest)[k]) by {
                if k >= 4 {
                    assert((sp + rest)[k] == rest[k - 4]);
                }
            }
        } else {
            lemma_strip_output_kept(s, i + 1);
            let rest = strip_from(s, i + 1);
            if kept_char(s[i]) {
                assert forall|k: int| 0 <= k < (seq![s[i]] + rest).len() implies kept_char(
                    #[trigger] (seq![s[i]] + rest)[k],
                ) by {
                    if k >= 1 {
                        assert((seq![s[i]] + rest)[k] == rest[k - 1]);
                    }
                }
            }
        }
    }
}

proof fn lemma_strip_clean_identity(t: Seq<char>, i: int)
    requires
        all_kept(t),
        0 <= i <= t.len(),
    ensures
        strip_from(t, i) == t.skip(i),
    decreases t.len() - i,
{
    if i < t.len() {
        assert(kept_char(t[i]));
        lemma_strip_clean_identity(t, i + 1);
        assert(seq![t[i]] + t.skip(i + 1) =~= t.skip(i));
    } else {
        assert(t.skip(i) =~= Seq::<char>::empty());
    }
}

/// Cleaning is idempotent: cleaned text has no escape sequence, tab or control character
/// left, and cleaning it again changes nothing.
pub proof fn law_strip_ansi_idempotent(s: Seq<char>)
    ensures
        strip_ansi_spec(strip_ansi_spec(s)) == strip_ansi_spec(s),
        all_kept(strip_ansi_spec(s)),
{
    lemma_strip_output_kept(s, 0);
    lemma_strip_clean_identity(strip_ansi_spec(s), 0);
    assert(strip_ansi_spec(s).skip(0) =~= strip_ansi_spec(s));
}

} // verus!

//! Character-level text primitives shared by the log parsers.
//!
//! Text is handled as sequences of Unicode scalar values (`Seq<char>`), which is
//! the view that vstd gives to `str` and `String`.
use vstd::prelude::*;

verus! {

// ---------------------------------------------------------------------------
// Substring search
// ---------------------------------------------------------------------------

/// `pat` occurs in `s` starting at position `i`.
pub open spec fn matches_at(s: Seq<char>, pat: Seq<char>, i: int) -> bool {
    0 <= i && i + pat.len() <= s.len() && s.subrange(i, i + pat.len()) == pat
}

/// `pat` occurs somewhere in `s` (the empty pattern occurs everywhere).
pub open spec fn seq_contains(s: Seq<char>, pat: Seq<char>) -> bool {
    exists|i: int| #[trigger] matches_at(s, pat, i)
}

/// Position of the first occurrence of `pat` in `s` at or after `i`.
pub open spec fn find_from_spec(s: Seq<char>, pat: Seq<char>, i: int) -> Option<int>
    decreases s.len() + 1 - i,
{
    if i < 0 || i + pat.len() > s.len() {
        None
    } else if matches_at(s, pat, i) {
        Some(i)
    } else {
        find_from_spec(s, pat, i + 1)
    }
}

/// Position of the first occurrence of `pat` in `s`.
pub open spec fn find_spec(s: Seq<char>, pat: Seq<char>) -> Option<int> {
    find_from_spec(s, pat, 0)
}

/// What `find_from_spec` returns is the first match at or after `i`.
pub proof fn lemma_find_from(s: Seq<char>, pat: Seq<char>, i: int)
    requires
        0 <= i,
    ensures
        find_from_spec(s, pat, i) matches Some(j) ==> i <= j && matches_at(s, pat, j) && forall|
            k: int,
        | i <= k < j ==> !#[trigger] matches_at(s, pat, k),
        find_from_spec(s, pat, i) is None ==> forall|k: int| i <= k ==> !#[trigger] matches_at(s, pat, k),
    decreases s.len() + 1 - i,
{
    if i + pat.len() > s.len() {
    } else if matches_at(s, pat, i) {
    } else {
        lemma_find_from(s, pat, i + 1);
    }
}

/// Containment and the first-match search agree.
pub proof fn lemma_contains_find(s: Seq<char>, pat: Seq<char>)
    ensures
        seq_contains(s, pat) <==> find_spec(s, pat) is Some,
        find_spec(s, pat) matches Some(j) ==> matches_at(s, pat, j),
{
    lemma_find_from(s, pat, 0);
    if find_spec(s, pat) is Some {
        let j = find_spec(s, pat)->0;
        assert(matches_at(s, pat, j));
    }
}

/// Exec test of `matches_at`.
pub fn matches_at_exec(s: &Vec<char>, pat: &Vec<char>, i: usize) -> (r: bool)
    ensures
        r == matches_at(s@, pat@, i as int),
{
    if i > s.len() || pat.len() > s.len() - i {
        return false;
    }
    let mut k: usize = 0;
    while k < pat.len()
        invariant
            i + pat.len() <= s.len(),
            k <= pat.len(),
            forall|j: int| 0 <= j < k ==> s@[i + j] == pat@[j],
        decreases pat.len() - k,
    {
        if s[i + k] != pat[k] {
            assert(s@.subrange(i as int, i + pat.len())[k as int] != pat@[k as int]);
            return false;
        }
        k = k + 1;
    }
    assert(s@.subrange(i as int, i + pat@.len()) =~= pat@);
    true
}

/// First occurrence of `pat` in `s` at or after `start`.
pub fn find_from(s: &Vec<char>, pat: &Vec<char>, start: usize) -> (r: Option<usize>)
    ensures
        r matches Some(i) ==> find_from_spec(s@, pat@, start as int) == Some(i as int),
        r is None ==> find_from_spec(s@, pat@, start as int) is None,
{
    if start > s.len() || pat.len() > s.len() - start {
        return None;
    }
    if pat.len() == 0 {
        assert(s@.subrange(start as int, start as int) =~= pat@);
        return Some(start);
    }
    let mut i: usize = start;
    while i <= s.len() - pat.len()
        invariant
            start <= i,
            1 <= pat.len() <= s.len(),
            i <= s.len() - pat.len() + 1,
            find_from_spec(s@, pat@, start as int) == find_from_spec(s@, pat@, i as int),
        decreases s.len() - i,
    {
        if matches_at_exec(s, pat, i) {
            return Some(i);
        }
        i = i + 1;
    }
    None
}

/// First occurrence of `pat` in `s`.
pub fn find(s: &Vec<char>, pat: &Vec<char>) -> (r: Option<usize>)
    ensures
        r matches Some(i) ==> find_spec(s@, pat@) == Some(i as int),
        r is None ==> find_spec(s@, pat@) is None,
{
    find_from(s, pat, 0)
}

/// Whether `pat` occurs in `s`.
pub fn contains(s: &Vec<char>, pat: &Vec<char>) -> (r: bool)
    ensures
        r == seq_contains(s@, pat@),
{
    proof {
        lemma_contains_find(s@, pat@);
    }
    find(s, pat).is_some()
}

/// Whether the literal `pat` occurs in `s`.
pub fn contains_str(s: &Vec<char>, pat: &str) -> (r: bool)
    ensures
        r == seq_contains(s@, pat@),
{
    let p = chars_of(pat);
    contains(s, &p)
}

/// `s` starts with `pat`.
pub open spec fn starts_with(s: Seq<char>, pat: Seq<char>) -> bool {
    pat.len() <= s.len() && s.subrange(0, pat.len() as int) == pat
}

/// `s` ends with `pat`.
pub open spec fn ends_with(s: Seq<char>, pat: Seq<char>) -> bool {
    pat.len() <= s.len() && s.subrange(s.len() - pat.len(), s.len() as int) == pat
}

/// Exec test of `starts_with`.
pub fn starts_with_exec(s: &Vec<char>, pat: &Vec<char>) -> (r: bool)
    ensures
        r == starts_with(s@, pat@),
{
    matches_at_exec(s, pat, 0)
}

/// Exec test of `ends_with`.
pub fn ends_with_exec(s: &Vec<char>, pat: &Vec<char>) -> (r: bool)
    ensures
        r == ends_with(s@, pat@),
{
    if pat.len() > s.len() {
        return false;
    }
    matches_at_exec(s, pat, s.len() - pat.len())
}

// ---------------------------------------------------------------------------
// Conversions between `str`/`String` and `Vec<char>`
// ---------------------------------------------------------------------------

/// The characters of `s`, in order.
pub fn chars_of(s: &str) -> (r: Vec<char>)
    ensures
        r@ == s@,
{
    let mut r: Vec<char> = Vec::new();
    for c in it: s.chars()
        invariant
            r@ == it.seq().take(it.index() as int),
            it.seq() == s@,
    {
        r.push(c);
    }
    r
}

/// `String::push`: appends one character.
#[verifier::external_body]
pub(crate) fn push_char(s: &mut String, c: char)
    ensures
        final(s)@ == old(s)@.push(c),
{
    s.push(c);
}

/// Appends the characters of `v` to `s`.
pub fn push_chars(s: &mut String, v: &Vec<char>)
    ensures
        final(s)@ == old(s)@ + v@,
{
    let ghost start = s@;
    let mut i: usize = 0;
    while i < v.len()
        invariant
            i <= v.len(),
            s@ == start + v@.subrange(0, i as int),
        decreases v.len() - i,
    {
        push_char(s, v[i]);
        assert(v@.subrange(0, i + 1) =~= v@.subrange(0, i as int).push(v@[i as int]));
        i = i + 1;
    }
    assert(v@.subrange(0, v.len() as int) =~= v@);
}

/// The string made of the characters of `v`.
pub fn string_of(v: &Vec<char>) -> (r: String)
    ensures
        r@ == v@,
{
    let mut s = String::new();
    push_chars(&mut s, v);
    assert(Seq::<char>::empty() + v@ =~= v@);
    s
}

/// An owned copy of `s`.
pub fn string_from(s: &str) -> (r: String)
    ensures
        r@ == s@,
{
    let mut v: Vec<char> = Vec::new();
    append_str(&mut v, s);
    assert(Seq::<char>::empty() + s@ =~= s@);
    string_of(&v)
}

/// The characters `v[from..to]`.
pub fn slice_chars(v: &Vec<char>, from: usize, to: usize) -> (r: Vec<char>)
    requires
        from <= to <= v.len(),
    ensures
        r@ == v@.subrange(from as int, to as int),
{
    let mut r: Vec<char> = Vec::new();
    let mut i = from;
    while i < to
        invariant
            from <= i <= to <= v.len(),
            r@ == v@.subrange(from as int, i as int),
        decreases to - i,
    {
        r.push(v[i]);
        assert(v@.subrange(from as int, i + 1) =~= v@.subrange(from as int, i as int).push(v@[i as int]));
        i = i + 1;
    }
    r
}

/// Concatenation of two character vectors.
pub fn concat_chars(a: &Vec<char>, b: &Vec<char>) -> (r: Vec<char>)
    ensures
        r@ == a@ + b@,
{
    let mut r = slice_chars(a, 0, a.len());
    let mut i: usize = 0;
    assert(a@.subrange(0, a.len() as int) =~= a@);
    while i < b.len()
        invariant
            i <= b.len(),
            r@ == a@ + b@.subrange(0, i as int),
        decreases b.len() - i,
    {
        r.push(b[i]);
        assert(b@.subrange(0, i + 1) =~= b@.subrange(0, i as int).push(b@[i as int]));
        i = i + 1;
    }
    assert(b@.subrange(0, b.len() as int) =~= b@);
    r
}

// ---------------------------------------------------------------------------
// Case mapping
// ---------------------------------------------------------------------------

/// What `str::to_lowercase` returns for a string: Unicode default lower-case mapping.
pub uninterp spec fn lowercase(s: Seq<char>) -> Seq<char>;

/// `str::to_lowercase`, on the characters of `s`.
#[verifier::external_body]
pub(crate) fn to_lower(s: &Vec<char>) -> (r: Vec<char>)
    ensures
        r@ == lowercase(s@),
{
    let text: String = s.iter().collect();
    text.to_lowercase().chars().collect()
}

/// ASCII lower-case mapping of one character (`char::to_ascii_lowercase`).
pub open spec fn ascii_lower_char(c: char) -> char {
    if 'A' <= c && c <= 'Z' {
        ((c as u32) + 32) as char
    } else {
        c
    }
}

/// ASCII lower-case mapping of a string (`str::to_ascii_lowercase`).
pub open spec fn ascii_lower(s: Seq<char>) -> Seq<char> {
    s.map_values(|c: char| ascii_lower_char(c))
}

/// Exec version of `ascii_lower_char`.
pub fn ascii_lower_char_exec(c: char) -> (r: char)
    ensures
        r == ascii_lower_char(c),
{
    if 'A' <= c && c <= 'Z' {
        let code: u32 = c as u32 + 32;
        assert(0x61 <= code <= 0x7a);
        char_from_ascii(code)
    } else {
        c
    }
}

/// The ASCII character with the given code.
fn char_from_ascii(code: u32) -> (r: char)
    requires
        code < 128,
    ensures
        r == code as char,
{
    let b: u8 = code as u8;
    b as char
}

/// Exec version of `ascii_lower`.
pub fn to_ascii_lower(s: &Vec<char>) -> (r: Vec<char>)
    ensures
        r@ == ascii_lower(s@),
        r@.len() == s@.len(),
{
    let mut r: Vec<char> = Vec::new();
    let mut i: usize = 0;
    while i < s.len()
        invariant
            i <= s.len(),
            r@ =~= ascii_lower(s@.subrange(0, i as int)),
        decreases s.len() - i,
    {
        let c = ascii_lower_char_exec(s[i]);
        r.push(c);
        assert(s@.subrange(0, i + 1) =~= s@.subrange(0, i as int).push(s@[i as int]));
        i = i + 1;
    }
    assert(s@.subrange(0, s.len() as int) =~= s@);
    r
}

// ---------------------------------------------------------------------------
// White space (Unicode `White_Space`, as `char::is_whitespace`)
// ---------------------------------------------------------------------------

/// `char::is_whitespace`: the Unicode `White_Space` property.
pub open spec fn is_ws(c: char) -> bool {
    let u = c as u32;
    ||| u == 0x20
    ||| 0x09 <= u <= 0x0d
    ||| u == 0x85
    ||| u == 0xa0
    ||| u == 0x1680
    ||| 0x2000 <= u <= 0x200a
    ||| u == 0x2028
    ||| u == 0x2029
    ||| u == 0x202f
    ||| u == 0x205f
    ||| u == 0x3000
}

/// Exec version of `is_ws`.
pub fn is_ws_exec(c: char) -> (r: bool)
    ensures
        r == is_ws(c),
{
    let u = c as u32;
    u == 0x20 || (0x09 <= u && u <= 0x0d) || u == 0x85 || u == 0xa0 || u == 0x1680 || (0x2000 <= u
        && u <= 0x200a) || u == 0x2028 || u == 0x2029 || u == 0x202f || u == 0x205f || u == 0x3000
}

/// Index of the first non-white-space character at or after `i` (or `s.len()`).
pub open spec fn skip_ws(s: Seq<char>, i: int) -> int
    decreases s.len() - i,
{
    if 0 <= i < s.len() && is_ws(s[i]) {
        skip_ws(s, i + 1)
    } else {
        i
    }
}

/// End of `s[lo..j]` once trailing white space is removed.
pub open spec fn skip_ws_back(s: Seq<char>, lo: int, j: int) -> int
    decreases j - lo,
{
    if lo < j && j <= s.len() && is_ws(s[j - 1]) {
        skip_ws_back(s, lo, j - 1)
    } else {
        j
    }
}

/// `str::trim`: `s` without leading and trailing white space.
pub open spec fn trim(s: Seq<char>) -> Seq<char> {
    let a = skip_ws(s, 0);
    s.subrange(a, skip_ws_back(s, a, s.len() as int))
}

/// `str::trim_start`: `s` without leading white space.
pub open spec fn trim_start(s: Seq<char>) -> Seq<char> {
    s.subrange(skip_ws(s, 0), s.len() as int)
}

proof fn lemma_skip_ws_bounds(s: Seq<char>, i: int)
    requires
        0 <= i <= s.len(),
    ensures
        i <= skip_ws(s, i) <= s.len(),
    decreases s.len() - i,
{
    if i < s.len() && is_ws(s[i]) {
        lemma_skip_ws_bounds(s, i + 1);
    }
}

proof fn lemma_skip_ws_back_bounds(s: Seq<char>, lo: int, j: int)
    requires
        0 <= lo <= j <= s.len(),
    ensures
        lo <= skip_ws_back(s, lo, j) <= j,
    decreases j - lo,
{
    if lo < j && is_ws(s[j - 1]) {
        lemma_skip_ws_back_bounds(s, lo, j - 1);
    }
}

/// Start index of the trimmed part of `s`.
pub fn skip_ws_exec(s: &Vec<char>, start: usize) -> (r: usize)
    requires
        start <= s.len(),
    ensures
        r as int == skip_ws(s@, start as int),
        start <= r <= s.len(),
{
    let mut i = start;
    while i < s.len() && is_ws_exec(s[i])
        invariant
            start <= i <= s.len(),
            skip_ws(s@, start as int) == skip_ws(s@, i as int),
        decreases s.len() - i,
    {
        i = i + 1;
    }
    i
}

/// End index of the trimmed part of `s[lo..end]`.
pub fn skip_ws_back_exec(s: &Vec<char>, lo: usize, end: usize) -> (r: usize)
    requires
        lo <= end <= s.len(),
    ensures
        r as int == skip_ws_back(s@, lo as int, end as int),
        lo <= r <= end,
{
    let mut j = end;
    while j > lo && is_ws_exec(s[j - 1])
        invariant
            lo <= j <= end,
            end <= s.len(),
            skip_ws_back(s@, lo as int, end as int) == skip_ws_back(s@, lo as int, j as int),
        decreases j - lo,
    {
        j = j - 1;
    }
    j
}

/// `str::trim` on a character vector.
pub fn trim_exec(s: &Vec<char>) -> (r: Vec<char>)
    ensures
        r@ == trim(s@),
{
    let a = skip_ws_exec(s, 0);
    let b = skip_ws_back_exec(s, a, s.len());
    slice_chars(s, a, b)
}

/// `str::trim_start` on a character vector.
pub fn trim_start_exec(s: &Vec<char>) -> (r: Vec<char>)
    ensures
        r@ == trim_start(s@),
{
    let a = skip_ws_exec(s, 0);
    slice_chars(s, a, s.len())
}

/// `str::trim` from a `str` to a `String`.
pub fn trim_string(s: &str) -> (r: String)
    ensures
        r@ == trim(s@),
{
    let v = chars_of(s);
    let t = trim_exec(&v);
    string_of(&t)
}

} // verus!

verus! {

// ---------------------------------------------------------------------------
// Lines
// ---------------------------------------------------------------------------

/// Index of the first new line at or after `i`, or the length of `s`.
pub open spec fn line_end(s: Seq<char>, i: int) -> int
    decreases s.len() - i,
{
    if i < 0 || i >= s.len() {
        s.len() as int
    } else if s[i] == '\n' {
        i
    } else {
        line_end(s, i + 1)
    }
}

/// `line_end` lies between `i` and the end.
pub proof fn lemma_line_end(s: Seq<char>, i: int)
    requires
        0 <= i <= s.len(),
    ensures
        i <= line_end(s, i) <= s.len(),
        line_end(s, i) < s.len() ==> s[line_end(s, i)] == '\n',
        forall|k: int| i <= k < line_end(s, i) ==> s[k] != '\n',
    decreases s.len() - i,
{
    if i < s.len() && s[i] != '\n' {
        lemma_line_end(s, i + 1);
    }
}

/// Views of a vector of strings.
pub open spec fn strings_view(v: Seq<String>) -> Seq<Seq<char>> {
    v.map_values(|s: String| s@)
}

/// The non-empty lines of `s[i..]`, each trimmed.
pub open spec fn trimmed_lines_from(s: Seq<char>, i: int) -> Seq<Seq<char>>
    decreases s.len() + 1 - i,
{
    if i < 0 || i >= s.len() {
        Seq::empty()
    } else {
        proof {
            lemma_line_end(s, i);
        }
        let e = line_end(s, i);
        let t = trim(s.subrange(i, e));
        if i <= e {
            (if t.len() > 0 {
                seq![t]
            } else {
                Seq::empty()
            }) + trimmed_lines_from(s, e + 1)
        } else {
            Seq::empty()
        }
    }
}

/// The non-empty lines of `s`, each trimmed (`s.lines().map(trim).filter(non-empty)`).
pub open spec fn trimmed_lines(s: Seq<char>) -> Seq<Seq<char>> {
    trimmed_lines_from(s, 0)
}

/// Exec version of `line_end`.
pub fn line_end_exec(s: &Vec<char>, i: usize) -> (r: usize)
    requires
        i <= s.len(),
    ensures
        r as int == line_end(s@, i as int),
        i <= r <= s.len(),
{
    proof {
        lemma_line_end(s@, i as int);
    }
    let mut k = i;
    while k < s.len() && s[k] != '\n'
        invariant
            i <= k <= s.len(),
            line_end(s@, i as int) == line_end(s@, k as int),
        decreases s.len() - k,
    {
        k = k + 1;
    }
    k
}

/// The non-empty trimmed lines of `s`.
pub fn trimmed_lines_exec(s: &Vec<char>) -> (r: Vec<String>)
    ensures
        strings_view(r@) == trimmed_lines(s@),
{
    let mut out: Vec<String> = Vec::new();
    let mut i: usize = 0;
    while i < s.len()
        invariant
            i <= s.len(),
            trimmed_lines(s@) == strings_view(out@) + trimmed_lines_from(s@, i as int),
        decreases s.len() - i,
    {
        let e = line_end_exec(s, i);
        let piece = slice_chars(s, i, e);
        let t = trim_exec(&piece);
        let ghost before = strings_view(out@);
        if t.len() > 0 {
            out.push(string_of(&t));
            assert(strings_view(out@) =~= before.push(t@));
            assert(trimmed_lines(s@) == strings_view(out@) + trimmed_lines_from(s@, e + 1)) by {
                assert(before + (seq![t@] + trimmed_lines_from(s@, e + 1)) =~= before.push(t@)
                    + trimmed_lines_from(s@, e + 1));
            }
        } else {
            assert(trimmed_lines(s@) == strings_view(out@) + trimmed_lines_from(s@, e + 1)) by {
                assert(Seq::<Seq<char>>::empty() + trimmed_lines_from(s@, e + 1)
                    =~= trimmed_lines_from(s@, e + 1));
            }
        }
        if e >= s.len() {
            i = s.len();
        } else {
            i = e + 1;
        }
    }
    assert(strings_view(out@) + Seq::<Seq<char>>::empty() =~= strings_view(out@));
    out
}

/// The lines of `s[i..]` as `str::lines` gives them: split at new lines, a trailing
/// carriage return removed from each, no final empty line after a last new line.
pub open spec fn lines_from(s: Seq<char>, i: int) -> Seq<Seq<char>>
    decreases s.len() + 1 - i,
{
    if i < 0 || i >= s.len() {
        Seq::empty()
    } else {
        proof {
            lemma_line_end(s, i);
        }
        let e = line_end(s, i);
        let l = s.subrange(i, e);
        let l2 = if l.len() > 0 && l.last() == '\r' {
            l.drop_last()
        } else {
            l
        };
        if i <= e {
            seq![l2] + lines_from(s, e + 1)
        } else {
            Seq::empty()
        }
    }
}

/// `str::lines`.
pub open spec fn lines(s: Seq<char>) -> Seq<Seq<char>> {
    lines_from(s, 0)
}

/// Exec version of `lines`, as character vectors.
pub fn lines_exec(s: &Vec<char>) -> (r: Vec<Vec<char>>)
    ensures
        r@.map_values(|l: Vec<char>| l@) == lines(s@),
{
    let mut out: Vec<Vec<char>> = Vec::new();
    let mut i: usize = 0;
    while i < s.len()
        invariant
            i <= s.len(),
            lines(s@) == out@.map_values(|l: Vec<char>| l@) + lines_from(s@, i as int),
        decreases s.len() - i,
    {
        let e = line_end_exec(s, i);
        let mut l = slice_chars(s, i, e);
        if l.len() > 0 && l[l.len() - 1] == '\r' {
            let ghost lv = l@;
            l.pop();
            assert(l@ =~= lv.drop_last());
        }
        let ghost before = out@.map_values(|l: Vec<char>| l@);
        let ghost lv = l@;
        out.push(l);
        assert(out@.map_values(|l: Vec<char>| l@) =~= before.push(lv));
        assert(lines(s@) == out@.map_values(|l: Vec<char>| l@) + lines_from(s@, e + 1)) by {
            assert(before + (seq![lv] + lines_from(s@, e + 1)) =~= before.push(lv) + lines_from(
                s@,
                e + 1,
            ));
        }
        if e >= s.len() {
            i = s.len();
        } else {
            i = e + 1;
        }
    }
    assert(out@.map_values(|l: Vec<char>| l@) + Seq::<Seq<char>>::empty() =~= out@.map_values(
        |l: Vec<char>| l@,
    ));
    out
}

} // verus!

verus! {

/// Equality of two character vectors.
pub fn seq_eq(a: &Vec<char>, b: &Vec<char>) -> (r: bool)
    ensures
        r == (a@ == b@),
{
    if a.len() != b.len() {
        return false;
    }
    let mut i: usize = 0;
    while i < a.len()
        invariant
            a.len() == b.len(),
            i <= a.len(),
            forall|j: int| 0 <= j < i ==> a@[j] == b@[j],
        decreases a.len() - i,
    {
        if a[i] != b[i] {
            return false;
        }
        i = i + 1;
    }
    assert(a@ =~= b@);
    true
}

} // verus!

verus! {

/// Appends the characters of `s` to `v`.
pub fn append_str(v: &mut Vec<char>, s: &str)
    ensures
        final(v)@ == old(v)@ + s@,
{
    let c = chars_of(s);
    append_chars(v, &c);
}

/// Appends the characters of `c` to `v`.
pub fn append_chars(v: &mut Vec<char>, c: &Vec<char>)
    ensures
        final(v)@ == old(v)@ + c@,
{
    let ghost start = v@;
    let mut i: usize = 0;
    while i < c.len()
        invariant
            i <= c.len(),
            v@ == start + c@.subrange(0, i as int),
        decreases c.len() - i,
    {
        v.push(c[i]);
        assert(c@.subrange(0, i + 1) =~= c@.subrange(0, i as int).push(c@[i as int]));
        i = i + 1;
    }
    assert(c@.subrange(0, c.len() as int) =~= c@);
}

/// Lines joined with `'\n'` between them (`[..].join("\n")`).
pub open spec fn join_lines(ls: Seq<Seq<char>>) -> Seq<char>
    decreases ls.len(),
{
    if ls.len() == 0 {
        Seq::empty()
    } else if ls.len() == 1 {
        ls[0]
    } else {
        join_lines(ls.drop_last()) + seq!['\n'] + ls.last()
    }
}

/// Joins lines with `'\n'` between them.
pub fn join_lines_exec(ls: &Vec<Vec<char>>) -> (r: Vec<char>)
    ensures
        r@ == join_lines(ls@.map_values(|l: Vec<char>| l@)),
{
    let ghost lv = ls@.map_values(|l: Vec<char>| l@);
    let mut out: Vec<char> = Vec::new();
    let mut i: usize = 0;
    while i < ls.len()
        invariant
            i <= ls.len(),
            lv == ls@.map_values(|l: Vec<char>| l@),
            out@ == join_lines(lv.take(i as int)),
        decreases ls.len() - i,
    {
        assert(lv.take(i + 1).drop_last() =~= lv.take(i as int));
        if i > 0 {
            out.push('\n');
        }
        append_chars(&mut out, &ls[i]);
        assert(lv.take(i + 1).last() == ls@[i as int]@);
        if i == 0 {
            assert(out@ =~= join_lines(lv.take(1)));
        }
        i = i + 1;
    }
    assert(lv.take(ls.len() as int) =~= lv);
    out
}

} // verus!

verus! {

/// Number of bytes of `c` in UTF-8.
pub open spec fn utf8_width(c: char) -> nat {
    if (c as u32) < 0x80 {
        1
    } else if (c as u32) < 0x800 {
        2
    } else if (c as u32) < 0x10000 {
        3
    } else {
        4
    }
}

/// Number of bytes of `s` in UTF-8 (what `str::len` gives).
pub open spec fn utf8_len(s: Seq<char>) -> nat
    decreases s.len(),
{
    if s.len() == 0 {
        0
    } else {
        utf8_len(s.drop_last()) + utf8_width(s.last())
    }
}

/// A prefix takes no more bytes than the whole.
pub proof fn lemma_utf8_len_prefix(s: Seq<char>, i: int)
    requires
        0 <= i <= s.len(),
    ensures
        utf8_len(s.take(i)) <= utf8_len(s),
    decreases s.len() - i,
{
    if i < s.len() {
        lemma_utf8_len_prefix(s, i + 1);
        assert(s.take(i + 1).drop_last() =~= s.take(i));
    } else {
        assert(s.take(i) =~= s);
    }
}

/// Byte length of `s` in UTF-8 (`str::len`).
pub fn utf8_len_exec(s: &str) -> (r: usize)
    requires
        utf8_len(s@) <= usize::MAX,
    ensures
        r == utf8_len(s@),
{
    let c = chars_of(s);
    let mut n: usize = 0;
    let mut i: usize = 0;
    while i < c.len()
        invariant
            i <= c.len(),
            c@ == s@,
            utf8_len(s@) <= usize::MAX,
            n == utf8_len(c@.take(i as int)),
        decreases c.len() - i,
    {
        proof {
            lemma_utf8_len_prefix(c@, i + 1);
            assert(c@.take(i + 1).drop_last() =~= c@.take(i as int));
        }
        let code = c[i] as u32;
        let w: usize = if code < 0x80 {
            1
        } else if code < 0x800 {
            2
        } else if code < 0x10000 {
            3
        } else {
            4
        };
        n = n + w;
        i = i + 1;
    }
    assert(c@.take(c.len() as int) =~= c@);
    n
}

} // verus!

verus! {

/// End of the run of non-white-space characters that starts at `i`.
pub open spec fn word_end(s: Seq<char>, i: int) -> int
    decreases s.len() - i,
{
    if 0 <= i < s.len() && !is_ws(s[i]) {
        word_end(s, i + 1)
    } else {
        i
    }
}

proof fn lemma_word_end(s: Seq<char>, i: int)
    requires
        0 <= i <= s.len(),
    ensures
        i <= word_end(s, i) <= s.len(),
    decreases s.len() - i,
{
    if i < s.len() && !is_ws(s[i]) {
        lemma_word_end(s, i + 1);
    }
}

/// `skip_ws` stops on a character that is not white space, or at the end.
pub proof fn lemma_skip_ws_stop(s: Seq<char>, i: int)
    requires
        0 <= i <= s.len(),
    ensures
        i <= skip_ws(s, i) <= s.len(),
        skip_ws(s, i) < s.len() ==> !is_ws(s[skip_ws(s, i)]),
    decreases s.len() - i,
{
    if i < s.len() && is_ws(s[i]) {
        lemma_skip_ws_stop(s, i + 1);
    }
}

/// The white-space separated words of `s[i..]` (`split_whitespace`).
pub open spec fn words_from(s: Seq<char>, i: int) -> Seq<Seq<char>>
    decreases s.len() - i,
{
    let a = skip_ws(s, i);
    if i < 0 || i >= s.len() || a >= s.len() || a < i {
        Seq::empty()
    } else {
        let e = word_end(s, a);
        if e <= a || e > s.len() {
            Seq::empty()
        } else {
            seq![s.subrange(a, e)] + words_from(s, e)
        }
    }
}

/// The white-space separated words of `s` (`str::split_whitespace`).
pub open spec fn words(s: Seq<char>) -> Seq<Seq<char>> {
    words_from(s, 0)
}

/// The words of `s`, in order.
pub fn words_exec(s: &Vec<char>) -> (r: Vec<Vec<char>>)
    ensures
        r@.map_values(|w: Vec<char>| w@) == words(s@),
{
    let mut out: Vec<Vec<char>> = Vec::new();
    let mut i: usize = 0;
    while i < s.len()
        invariant
            i <= s.len(),
            words(s@) == out@.map_values(|w: Vec<char>| w@) + words_from(s@, i as int),
        decreases s.len() - i,
    {
        let a = skip_ws_exec(s, i);
        if a >= s.len() {
            assert(words_from(s@, i as int) =~= Seq::<Seq<char>>::empty());
            i = s.len();
            assert(words_from(s@, i as int) =~= Seq::<Seq<char>>::empty());
        } else {
            let mut e: usize = a;
            while e < s.len() && !is_ws_exec(s[e])
                invariant
                    a <= e <= s.len(),
                    word_end(s@, a as int) == word_end(s@, e as int),
                decreases s.len() - e,
            {
                e = e + 1;
            }
            proof {
                lemma_skip_ws_stop(s@, i as int);
                lemma_word_end(s@, a as int);
            }
            assert(e > a);
            let w = slice_chars(s, a, e);
            let ghost before = out@.map_values(|w: Vec<char>| w@);
            let ghost wv = w@;
            out.push(w);
            assert(out@.map_values(|w: Vec<char>| w@) =~= before.push(wv));
            assert(before + (seq![wv] + words_from(s@, e as int)) =~= before.push(wv) + words_from(
                s@,
                e as int,
            ));
            i = e;
        }
    }
    assert(words_from(s@, i as int) =~= Seq::<Seq<char>>::empty());
    assert(out@.map_values(|w: Vec<char>| w@) + Seq::<Seq<char>>::empty() =~= out@.map_values(
        |w: Vec<char>| w@,
    ));
    out
}

} // verus!

verus! {

proof fn lemma_utf8_len_monotone(s: Seq<char>, i: int, j: int)
    requires
        0 <= i <= j <= s.len(),
    ensures
        utf8_len(s.take(i)) <= utf8_len(s.take(j)),
    decreases j - i,
{
    if i < j {
        lemma_utf8_len_monotone(s, i, j - 1);
        assert(s.take(j).drop_last() =~= s.take(j - 1));
    }
}

/// Whether `v` takes at least `n` bytes in UTF-8 (`str::len() >= n`).
pub fn utf8_len_at_least(v: &Vec<char>, n: usize) -> (r: bool)
    requires
        n <= usize::MAX - 4,
    ensures
        r == (utf8_len(v@) >= n),
{
    let mut acc: usize = 0;
    let mut i: usize = 0;
    while i < v.len() && acc < n
        invariant
            i <= v.len(),
            n <= usize::MAX - 4,
            acc == utf8_len(v@.take(i as int)),
            acc <= n + 3,
        decreases v.len() - i,
    {
        assert(v@.take(i + 1).drop_last() =~= v@.take(i as int));
        let code = v[i] as u32;
        let w: usize = if code < 0x80 {
            1
        } else if code < 0x800 {
            2
        } else if code < 0x10000 {
            3
        } else {
            4
        };
        acc = acc + w;
        i = i + 1;
    }
    proof {
        lemma_utf8_len_monotone(v@, i as int, v@.len() as int);
        assert(v@.take(v@.len() as int) =~= v@);
    }
    acc >= n
}

} // verus!

verus! {

/// A text equal to its trimmed form has no white space at its ends.
pub proof fn lemma_trim_ends(s: Seq<char>)
    requires
        s.len() > 0,
        trim(s) == s,
    ensures
        !is_ws(s[0]),
        !is_ws(s.last()),
{
    lemma_skip_ws_stop(s, 0);
    let a = skip_ws(s, 0);
    lemma_skip_ws_back_bounds(s, a, s.len() as int);
    if is_ws(s[0]) {
        lemma_skip_ws_stop(s, 1);
        assert(a >= 1);
        assert(trim(s).len() < s.len());
    }
    if is_ws(s.last()) {
        if a < s.len() {
            lemma_skip_ws_back_bounds(s, a, s.len() - 1);
            assert(skip_ws_back(s, a, s.len() as int) <= s.len() - 1);
        }
        assert(trim(s).len() < s.len());
    }
}

/// A text without white space at its ends is its own trimmed form.
pub proof fn lemma_trim_id(s: Seq<char>)
    requires
        s.len() > 0,
        !is_ws(s[0]),
        !is_ws(s.last()),
    ensures
        trim(s) == s,
{
    assert(skip_ws(s, 0) == 0);
    assert(skip_ws_back(s, 0, s.len() as int) == s.len());
    assert(s.subrange(0, s.len() as int) =~= s);
}

/// Trimming a space put in front of a trimmed, non-empty text gives the text back.
pub proof fn lemma_trim_space_then(p: Seq<char>)
    requires
        p.len() > 0,
        trim(p) == p,
    ensures
        trim(seq![' '] + p) == p,
{
    lemma_trim_ends(p);
    let q = seq![' '] + p;
    assert(is_ws(q[0]));
    assert(q[1] == p[0]);
    assert(skip_ws(q, 1) == 1);
    assert(skip_ws(q, 0) == 1);
    assert(q.last() == p.last());
    assert(skip_ws_back(q, 1, q.len() as int) == q.len());
    assert(q.subrange(1, q.len() as int) =~= p);
}

} // verus!

verus! {

/// `skip_ws_back` stops after a character that is not white space, or at `lo`.
pub proof fn lemma_skip_ws_back_stop(s: Seq<char>, lo: int, j: int)
    requires
        0 <= lo <= j <= s.len(),
    ensures
        lo <= skip_ws_back(s, lo, j) <= j,
        skip_ws_back(s, lo, j) > lo ==> !is_ws(s[skip_ws_back(s, lo, j) - 1]),
    decreases j - lo,
{
    if lo < j && is_ws(s[j - 1]) {
        lemma_skip_ws_back_stop(s, lo, j - 1);
    }
}

/// A non-empty trimmed text starts and ends with characters that are not white space.
pub proof fn lemma_trim_result_ends(s: Seq<char>)
    requires
        trim(s).len() > 0,
    ensures
        !is_ws(trim(s)[0]),
        !is_ws(trim(s).last()),
        trim(trim(s)) == trim(s),
{
    lemma_skip_ws_stop(s, 0);
    let a = skip_ws(s, 0);
    lemma_skip_ws_back_stop(s, a, s.len() as int);
    lemma_trim_id(trim(s));
}

/// Lines each followed by a new line.
pub open spec fn terminated(ls: Seq<Seq<char>>) -> Seq<char>
    decreases ls.len(),
{
    if ls.len() == 0 {
        Seq::empty()
    } else {
        ls[0] + seq!['\n'] + terminated(ls.drop_first())
    }
}

/// A text that can stand as one line: no new line in it, and no carriage return at its end.
pub open spec fn one_line(r: Seq<char>) -> bool {
    &&& forall|k: int| 0 <= k < r.len() ==> r[k] != '\n'
    &&& !(r.len() > 0 && r.last() == '\r')
}

proof fn lemma_terminated_push(xs: Seq<Seq<char>>, y: Seq<char>)
    ensures
        terminated(xs.push(y)) == terminated(xs) + y + seq!['\n'],
    decreases xs.len(),
{
    if xs.len() == 0 {
        assert(xs.push(y).drop_first() =~= Seq::<Seq<char>>::empty());
        assert(terminated(xs.push(y).drop_first()) == Seq::<char>::empty());
        assert(xs.push(y)[0] == y);
        assert(terminated(xs) == Seq::<char>::empty());
        assert(terminated(xs.push(y)) =~= terminated(xs) + y + seq!['\n']);
    } else {
        lemma_terminated_push(xs.drop_first(), y);
        assert(xs.push(y).drop_first() =~= xs.drop_first().push(y));
        assert(terminated(xs.push(y)) =~= terminated(xs) + y + seq!['\n']);
    }
}

/// Joined lines followed by a new line are the lines each followed by a new line.
pub proof fn lemma_join_terminated(ls: Seq<Seq<char>>)
    requires
        ls.len() > 0,
    ensures
        join_lines(ls) + seq!['\n'] == terminated(ls),
    decreases ls.len(),
{
    if ls.len() == 1 {
        assert(ls.drop_first() =~= Seq::<Seq<char>>::empty());
        assert(terminated(ls.drop_first()) == Seq::<char>::empty());
        assert(join_lines(ls) == ls[0]);
        assert(join_lines(ls) + seq!['\n'] =~= terminated(ls));
    } else {
        lemma_join_terminated(ls.drop_last());
        lemma_terminated_push(ls.drop_last(), ls.last());
        assert(ls.drop_last().push(ls.last()) =~= ls);
        assert(join_lines(ls) + seq!['\n'] =~= terminated(ls.drop_last()) + ls.last() + seq!['\n']);
    }
}

proof fn lemma_line_end_suffix(a: Seq<char>, b: Seq<char>, j: int)
    requires
        0 <= j,
    ensures
        line_end(a + b, a.len() + j) == a.len() + line_end(b, j) || j > b.len(),
        j <= b.len() ==> line_end(a + b, a.len() + j) == a.len() + line_end(b, j),
    decreases b.len() - j,
{
    if j < b.len() && b[j] != '\n' {
        lemma_line_end_suffix(a, b, j + 1);
        assert((a + b)[a.len() + j] == b[j]);
    } else if j < b.len() {
        assert((a + b)[a.len() + j] == b[j]);
    }
}

/// The lines of a text after a prefix are the lines of what follows the prefix.
proof fn lemma_lines_suffix(a: Seq<char>, b: Seq<char>, j: int)
    requires
        0 <= j <= b.len(),
    ensures
        lines_from(a + b, a.len() + j) == lines_from(b, j),
    decreases b.len() - j,
{
    if j < b.len() {
        lemma_line_end_suffix(a, b, j);
        lemma_line_end(b, j);
        let e = line_end(b, j);
        assert((a + b).subrange(a.len() + j, a.len() + e) =~= b.subrange(j, e));
        if e + 1 <= b.len() {
            lemma_lines_suffix(a, b, e + 1);
        } else {
            assert(lines_from(a + b, a.len() + e + 1) =~= Seq::<Seq<char>>::empty());
            assert(lines_from(b, e + 1) =~= Seq::<Seq<char>>::empty());
        }
    }
}

/// Lines each followed by a new line read back as the same lines (`str::lines`).
pub proof fn lemma_lines_terminated(ls: Seq<Seq<char>>)
    requires
        forall|k: int| 0 <= k < ls.len() ==> one_line(#[trigger] ls[k]),
    ensures
        lines(terminated(ls)) == ls,
    decreases ls.len(),
{
    if ls.len() == 0 {
        assert(lines(terminated(ls)) =~= ls);
    } else {
        let r = ls[0];
        assert(one_line(r));
        let head = r + seq!['\n'];
        let t = terminated(ls.drop_first());
        assert(terminated(ls) == head + t);
        let s = head + t;
        lemma_line_end(s, 0);
        assert forall|k: int| 0 <= k < r.len() implies s[k] != '\n' by {
            assert(s[k] == r[k]);
        }
        assert(s[r.len() as int] == '\n');
        assert(line_end(s, 0) == r.len()) by {
            if line_end(s, 0) < r.len() {
                assert(s[line_end(s, 0)] == '\n');
            }
        }
        assert(s.subrange(0, r.len() as int) =~= r);
        lemma_lines_suffix(head, t, 0);
        assert(ls.drop_first().len() < ls.len());
        lemma_lines_terminated(ls.drop_first());
        assert(lines(s) =~= seq![r] + ls.drop_first());
        assert(seq![r] + ls.drop_first() =~= ls);
    }
}

} // verus!

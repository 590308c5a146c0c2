//! Key presses and the one-line text fields of the dialogs (credentials, setting values).
use vstd::prelude::*;
use crate::text::{chars_of, string_of, trim, trim_exec};

verus! {

/// A key press, as the dashboard reads it from the terminal.
#[derive(Debug, Clone, Copy, PartialEq, Eq, Structural)]
pub enum Key {
    Enter,
    Esc,
    Tab,
    BackTab,
    Left,
    Right,
    Up,
    Down,
    Home,
    End,
    PageUp,
    PageDown,
    Backspace,
    Delete,
    Char(char),
    /// Any other key.
    Other,
}

/// `ins` inserted into `s` before position `i`.
pub open spec fn insert_at(s: Seq<char>, i: int, ins: Seq<char>) -> Seq<char> {
    s.take(i) + ins + s.skip(i)
}

/// `s` without the character at position `i`.
pub open spec fn remove_at(s: Seq<char>, i: int) -> Seq<char> {
    s.take(i) + s.skip(i + 1)
}

/// The cursor clamped to the end of a text of `n` characters.
pub open spec fn clamp_cursor(cursor: int, n: int) -> int {
    if cursor < n {
        cursor
    } else {
        n
    }
}

/// A text field after an editing key: the text and the cursor, counted in characters.
/// Arrows move the cursor within the text, Home and End go to its ends, Backspace erases the
/// character before the cursor, Delete the one under it, a character is typed at the cursor
/// (a cursor beyond the end counts as the end); any other key changes nothing.
pub open spec fn edited(text: Seq<char>, cursor: int, key: Key) -> (Seq<char>, int) {
    let n = text.len() as int;
    match key {
        Key::Left => (text, if cursor > 0 { cursor - 1 } else { cursor }),
        Key::Right => (text, if cursor < n { cursor + 1 } else { cursor }),
        Key::Home => (text, 0),
        Key::End => (text, n),
        Key::Backspace => if 0 < cursor <= n {
            (remove_at(text, cursor - 1), cursor - 1)
        } else {
            (text, cursor)
        },
        Key::Delete => if 0 <= cursor < n {
            (remove_at(text, cursor), cursor)
        } else {
            (text, cursor)
        },
        Key::Char(c) => {
            let cur = clamp_cursor(cursor, n);
            (insert_at(text, cur, seq![c]), cur + 1)
        },
        _ => (text, cursor),
    }
}

/// A text field after pasting `clip` at the cursor (a cursor beyond the end counts as the end);
/// the cursor lands after the pasted text.
pub open spec fn pasted(text: Seq<char>, cursor: int, clip: Seq<char>) -> (Seq<char>, int) {
    let cur = clamp_cursor(cursor, text.len() as int);
    (insert_at(text, cur, clip), cur + clip.len())
}

/// `s` without its line breaks (`\n` and `\r`).
pub open spec fn without_line_breaks(s: Seq<char>) -> Seq<char>
    decreases s.len(),
{
    if s.len() == 0 {
        s
    } else {
        let rest = without_line_breaks(s.drop_last());
        if s.last() == '\n' || s.last() == '\r' {
            rest
        } else {
            rest.push(s.last())
        }
    }
}

/// Clipboard text as a one-line field takes it: trimmed, without line breaks.
pub open spec fn clean_clip(s: Seq<char>) -> Seq<char> {
    without_line_breaks(trim(s))
}

fn insert_chars_at(v: &Vec<char>, at: usize, ins: &Vec<char>) -> (r: Vec<char>)
    requires
        at <= v.len(),
    ensures
        r@ == insert_at(v@, at as int, ins@),
{
    let mut out: Vec<char> = Vec::new();
    let mut k: usize = 0;
    while k < at
        invariant
            k <= at <= v.len(),
            out@ == v@.take(k as int),
        decreases at - k,
    {
        out.push(v[k]);
        assert(v@.take(k + 1) =~= v@.take(k as int).push(v@[k as int]));
        k = k + 1;
    }
    let mut j: usize = 0;
    while j < ins.len()
        invariant
            j <= ins.len(),
            out@ == v@.take(at as int) + ins@.take(j as int),
        decreases ins.len() - j,
    {
        out.push(ins[j]);
        assert(ins@.take(j + 1) =~= ins@.take(j as int).push(ins@[j as int]));
        j = j + 1;
    }
    assert(ins@.take(ins.len() as int) =~= ins@);
    let mut m: usize = at;
    while m < v.len()
        invariant
            at <= m <= v.len(),
            out@ == v@.take(at as int) + ins@ + v@.subrange(at as int, m as int),
        decreases v.len() - m,
    {
        out.push(v[m]);
        assert(v@.subrange(at as int, m + 1) =~= v@.subrange(at as int, m as int).push(v@[m as int]));
        m = m + 1;
    }
    assert(v@.subrange(at as int, v.len() as int) =~= v@.skip(at as int));
    out
}

fn remove_char_at(v: &Vec<char>, at: usize) -> (r: Vec<char>)
    requires
        at < v.len(),
    ensures
        r@ == remove_at(v@, at as int),
{
    let mut out: Vec<char> = Vec::new();
    let mut k: usize = 0;
    while k < v.len()
        invariant
            at < v.len(),
            k <= v.len(),
            k <= at ==> out@ == v@.take(k as int),
            k > at ==> out@ == v@.take(at as int) + v@.subrange(at + 1, k as int),
        decreases v.len() - k,
    {
        if k < at {
            out.push(v[k]);
            assert(v@.take(k + 1) =~= v@.take(k as int).push(v@[k as int]));
        } else if k > at {
            out.push(v[k]);
            assert(v@.subrange(at + 1, k + 1) =~= v@.subrange(at + 1, k as int).push(v@[k as int]));
        } else {
            assert(v@.subrange(at + 1, at + 1) =~= Seq::<char>::empty());
            assert(v@.take(at as int) + Seq::<char>::empty() =~= v@.take(at as int));
        }
        k = k + 1;
    }
    assert(v@.subrange(at + 1, v.len() as int) =~= v@.skip(at + 1));
    out
}

/// Applies an editing key to a text field (see `edited`).
pub fn edit_line(text: &mut String, cursor: &mut usize, key: Key)
    ensures
        (final(text)@, *final(cursor) as int) == edited(old(text)@, *old(cursor) as int, key),
{
    let chars = chars_of(text.as_str());
    let n = chars.len();
    match key {
        Key::Left => {
            if *cursor > 0 {
                *cursor = *cursor - 1;
            }
        },
        Key::Right => {
            if *cursor < n {
                *cursor = *cursor + 1;
            }
        },
        Key::Home => {
            *cursor = 0;
        },
        Key::End => {
            *cursor = n;
        },
        Key::Backspace => {
            if *cursor > 0 && *cursor <= n {
                let v = remove_char_at(&chars, *cursor - 1);
                *text = string_of(&v);
                *cursor = *cursor - 1;
            }
        },
        Key::Delete => {
            if *cursor < n {
                let v = remove_char_at(&chars, *cursor);
                *text = string_of(&v);
            }
        },
        Key::Char(c) => {
            let cur = if *cursor < n {
                *cursor
            } else {
                n
            };
            let one: Vec<char> = vec![c];
            assert(one@ =~= seq![c]);
            let v = insert_chars_at(&chars, cur, &one);
            let m = v.len();
            assert(m == n + 1);
            *text = string_of(&v);
            *cursor = cur + 1;
        },
        _ => {},
    }
}

/// Pastes `clip` into a text field at the cursor (see `pasted`).
pub fn paste_line(text: &mut String, cursor: &mut usize, clip: &str)
    ensures
        (final(text)@, *final(cursor) as int) == pasted(old(text)@, *old(cursor) as int, clip@),
{
    let chars = chars_of(text.as_str());
    let ins = chars_of(clip);
    let n = chars.len();
    let cur = if *cursor < n {
        *cursor
    } else {
        n
    };
    let v = insert_chars_at(&chars, cur, &ins);
    let m = v.len();
    assert(m == n + ins.len());
    *text = string_of(&v);
    *cursor = cur + ins.len();
}

/// Clipboard text made fit for a one-line field (see `clean_clip`).
pub fn clean_clipboard_text(clip: &str) -> (r: String)
    ensures
        r@ == clean_clip(clip@),
{
    let t = trim_exec(&chars_of(clip));
    let mut out: Vec<char> = Vec::new();
    let mut k: usize = 0;
    while k < t.len()
        invariant
            k <= t.len(),
            out@ == without_line_breaks(t@.take(k as int)),
        decreases t.len() - k,
    {
        assert(t@.take(k + 1).drop_last() =~= t@.take(k as int));
        let c = t[k];
        if c != '\n' && c != '\r' {
            out.push(c);
        }
        k = k + 1;
    }
    assert(t@.take(t.len() as int) =~= t@);
    string_of(&out)
}

// ---------------------------------------------------------------------------
// Laws of the text fields
// ---------------------------------------------------------------------------

/// An editing key keeps a cursor that lies within the text within the text.
pub proof fn law_edit_keeps_cursor_in_text(text: Seq<char>, cursor: int, key: Key)
    requires
        0 <= cursor <= text.len(),
    ensures
        0 <= edited(text, cursor, key).1 <= edited(text, cursor, key).0.len(),
{
}

/// A paste keeps a cursor that lies within the text within the text.
pub proof fn law_paste_keeps_cursor_in_text(text: Seq<char>, cursor: int, clip: Seq<char>)
    requires
        0 <= cursor <= text.len(),
    ensures
        0 <= pasted(text, cursor, clip).1 <= pasted(text, cursor, clip).0.len(),
{
}

/// Typing a character and then Backspace gives the field back as it was (cursor within the text).
pub proof fn law_type_then_backspace(text: Seq<char>, cursor: int, c: char)
    requires
        0 <= cursor <= text.len(),
    ensures
        ({
            let t = edited(text, cursor, Key::Char(c));
            edited(t.0, t.1, Key::Backspace)
        }) == (text, cursor),
{
    let t = edited(text, cursor, Key::Char(c));
    assert(t.0.take(cursor) =~= text.take(cursor));
    assert(t.0.skip(cursor + 1) =~= text.skip(cursor));
    assert(remove_at(t.0, cursor) =~= text);
}

/// Typing a character, moving left and pressing Delete gives the field back as it was,
/// with the cursor where it stood.
pub proof fn law_type_left_delete(text: Seq<char>, cursor: int, c: char)
    requires
        0 <= cursor <= text.len(),
    ensures
        ({
            let t = edited(text, cursor, Key::Char(c));
            let l = edited(t.0, t.1, Key::Left);
            edited(l.0, l.1, Key::Delete)
        }) == (text, cursor),
{
    let t = edited(text, cursor, Key::Char(c));
    assert(t.0.take(cursor) =~= text.take(cursor));
    assert(t.0.skip(cursor + 1) =~= text.skip(cursor));
    assert(remove_at(t.0, cursor) =~= text);
}

/// Pasting inserts the clip whole: what precedes and follows the cursor is kept around it.
pub proof fn law_paste_inserts_clip(text: Seq<char>, cursor: int, clip: Seq<char>)
    requires
        0 <= cursor <= text.len(),
    ensures
        pasted(text, cursor, clip).0.subrange(cursor, cursor + clip.len()) == clip,
        pasted(text, cursor, clip).0.take(cursor) == text.take(cursor),
        pasted(text, cursor, clip).0.skip(cursor + clip.len()) == text.skip(cursor),
{
    let p = pasted(text, cursor, clip).0;
    assert(p.subrange(cursor, cursor + clip.len()) =~= clip);
    assert(p.take(cursor) =~= text.take(cursor));
    assert(p.skip(cursor + clip.len()) =~= text.skip(cursor));
}

proof fn lemma_no_line_breaks(s: Seq<char>)
    ensures
        forall|i: int|
            0 <= i < without_line_breaks(s).len() ==> #[trigger] without_line_breaks(s)[i] != '\n'
                && without_line_breaks(s)[i] != '\r',
    decreases s.len(),
{
    if s.len() > 0 {
        let rest = without_line_breaks(s.drop_last());
        lemma_no_line_breaks(s.drop_last());
        assert forall|i: int| 0 <= i < without_line_breaks(s).len() implies #[trigger]
            without_line_breaks(s)[i] != '\n' && without_line_breaks(s)[i] != '\r' by {
            if i < rest.len() {
                assert(without_line_breaks(s)[i] == rest[i]);
            }
        }
    }
}

/// Cleaned clipboard text holds no line break.
pub proof fn law_clean_clip_one_line(s: Seq<char>)
    ensures
        forall|i: int|
            0 <= i < clean_clip(s).len() ==> #[trigger] clean_clip(s)[i] != '\n' && clean_clip(s)[i]
                != '\r',
{
    lemma_no_line_breaks(trim(s));
}

} // verus!

//! Editing of the rclone filter rules (`+ pattern` includes, `- pattern` excludes,
//! `# ...` comments) from the filters dialog.
use vstd::prelude::*;
use crate::dashboard::EditState;
use crate::scroll::{ensure_filter_visible, offset_showing};
use crate::text::{append_chars, append_str, chars_of, string_from, string_of, strings_view, trim, trim_exec};

verus! {

/// `s` without the leading repetitions of `c` (`trim_start_matches(c)`).
pub open spec fn strip_leading(s: Seq<char>, c: char) -> Seq<char>
    decreases s.len(),
{
    if s.len() > 0 && s[0] == c {
        strip_leading(s.drop_first(), c)
    } else {
        s
    }
}

/// The rule with its type cycled: include → exclude → comment → bare pattern → include.
pub open spec fn cycled_rule(rule: Seq<char>) -> Seq<char> {
    let t = trim(rule);
    if t.len() > 0 && t[0] == '+' {
        seq!['-', ' '] + trim(strip_leading(t, '+'))
    } else if t.len() > 0 && t[0] == '-' {
        seq!['#', ' '] + trim(strip_leading(t, '-'))
    } else if t.len() > 0 && t[0] == '#' {
        trim(strip_leading(t, '#'))
    } else {
        seq!['+', ' '] + t
    }
}

fn strip_leading_exec(s: &Vec<char>, c: char) -> (r: Vec<char>)
    ensures
        r@ == strip_leading(s@, c),
{
    let mut a: usize = 0;
    assert(s@.skip(0) =~= s@);
    while a < s.len() && s[a] == c
        invariant
            a <= s.len(),
            strip_leading(s@, c) == strip_leading(s@.skip(a as int), c),
        decreases s.len() - a,
    {
        assert(s@.skip(a as int).drop_first() =~= s@.skip(a + 1));
        a = a + 1;
    }
    let mut out: Vec<char> = Vec::new();
    let mut k: usize = a;
    while k < s.len()
        invariant
            a <= k <= s.len(),
            out@ == s@.subrange(a as int, k as int),
        decreases s.len() - k,
    {
        out.push(s[k]);
        assert(s@.subrange(a as int, k + 1) =~= s@.subrange(a as int, k as int).push(s@[k as int]));
        k = k + 1;
    }
    assert(s@.subrange(a as int, s.len() as int) =~= s@.skip(a as int));
    out
}

/// The rule with its type cycled (see `cycled_rule`).
pub fn cycle_rule_type(rule: &str) -> (r: String)
    ensures
        r@ == cycled_rule(rule@),
{
    let t = trim_exec(&chars_of(rule));
    let mut v: Vec<char> = Vec::new();
    if t.len() > 0 && t[0] == '+' {
        v.push('-');
        v.push(' ');
        append_chars(&mut v, &trim_exec(&strip_leading_exec(&t, '+')));
    } else if t.len() > 0 && t[0] == '-' {
        v.push('#');
        v.push(' ');
        append_chars(&mut v, &trim_exec(&strip_leading_exec(&t, '-')));
    } else if t.len() > 0 && t[0] == '#' {
        append_chars(&mut v, &trim_exec(&strip_leading_exec(&t, '#')));
    } else {
        v.push('+');
        v.push(' ');
        append_chars(&mut v, &t);
    }
    string_of(&v)
}

/// A pattern that cycles cleanly: already trimmed, not empty, not starting with a rule mark.
pub open spec fn plain_pattern(p: Seq<char>) -> bool {
    &&& p.len() > 0
    &&& trim(p) == p
    &&& p[0] != '+'
    &&& p[0] != '-'
    &&& p[0] != '#'
}

/// Cycling the type of a rule four times gives the rule back: include, exclude, comment,
/// bare pattern, include.
pub proof fn law_rule_cycle(p: Seq<char>)
    requires
        plain_pattern(p),
    ensures
        cycled_rule(seq!['+', ' '] + p) == seq!['-', ' '] + p,
        cycled_rule(seq!['-', ' '] + p) == seq!['#', ' '] + p,
        cycled_rule(seq!['#', ' '] + p) == p,
        cycled_rule(p) == seq!['+', ' '] + p,
{
    crate::text::lemma_trim_ends(p);
    crate::text::lemma_trim_space_then(p);
    let sp = seq![' '] + p;
    lemma_marked(p, '+');
    lemma_marked(p, '-');
    lemma_marked(p, '#');
}

/// A rule made of a mark, a space and a plain pattern: already trimmed, and stripping the
/// mark leaves the space and the pattern.
proof fn lemma_marked(p: Seq<char>, m: char)
    requires
        plain_pattern(p),
        m == '+' || m == '-' || m == '#',
    ensures
        trim(seq![m, ' '] + p) == seq![m, ' '] + p,
        strip_leading(seq![m, ' '] + p, m) == seq![' '] + p,
{
    crate::text::lemma_trim_ends(p);
    let r = seq![m, ' '] + p;
    assert(r.last() == p.last());
    assert(!crate::text::is_ws(r[0]));
    crate::text::lemma_trim_id(r);
    assert(r.drop_first() =~= seq![' '] + p);
    assert(strip_leading(seq![' '] + p, m) == seq![' '] + p);
}

// ---------------------------------------------------------------------------
// The list of rules and its selection
// ---------------------------------------------------------------------------

/// After a change of the list, a selection past the end moves to the last rule.
pub open spec fn reselect(sel: int, len: int) -> int {
    if sel >= len && len > 0 {
        len - 1
    } else {
        sel
    }
}

/// Deletes the selected rule, if there is one, and keeps the selection on a rule.
pub fn delete_selected_filter(filters: &mut Vec<String>, selected: &mut usize)
    ensures
        *old(selected) < old(filters)@.len() ==> strings_view(final(filters)@) == strings_view(
            old(filters)@,
        ).remove(*old(selected) as int) && *final(selected) as int == reselect(
            *old(selected) as int,
            old(filters)@.len() - 1,
        ),
        *old(selected) >= old(filters)@.len() ==> final(filters)@ == old(filters)@
            && *final(selected) == *old(selected),
{
    if filters.len() == 0 {
        return;
    }
    if *selected < filters.len() {
        let ghost before = filters@;
        filters.remove(*selected);
        assert(strings_view(filters@) =~= strings_view(before).remove(*old(selected) as int));
        if *selected >= filters.len() && filters.len() > 0 {
            *selected = filters.len() - 1;
        }
    }
}

/// Ends an edit without saving: a selection past the end moves to the last rule.
pub fn cancel_filter_edit(filters: &Vec<String>, selected: &mut usize)
    ensures
        *final(selected) as int == reselect(*old(selected) as int, filters@.len() as int),
{
    if *selected >= filters.len() && filters.len() > 0 {
        *selected = filters.len() - 1;
    }
}

/// What committing an edit does to the rules and the selection. An empty (blank) buffer
/// cancels; a new rule is appended and selected; an edited rule replaces the selected one.
/// The buffer is stored trimmed. The flag says whether the rules changed.
pub open spec fn committed(rules: Seq<Seq<char>>, sel: int, buffer: Seq<char>, adding: bool) -> (
    Seq<Seq<char>>,
    int,
    bool,
) {
    let t = trim(buffer);
    if t.len() == 0 {
        (rules, reselect(sel, rules.len() as int), false)
    } else if adding {
        (rules.push(t), rules.len() as int, true)
    } else if 0 <= sel < rules.len() {
        (rules.update(sel, t), sel, true)
    } else {
        (rules, sel, false)
    }
}

/// Commits the edit buffer to the rules (see `committed`); returns whether the rules changed
/// (and must be saved).
pub fn commit_filter_edit(
    filters: &mut Vec<String>,
    selected: &mut usize,
    buffer: &str,
    adding: bool,
) -> (changed: bool)
    requires
        adding ==> old(filters)@.len() < usize::MAX,
    ensures
        (strings_view(final(filters)@), *final(selected) as int, changed) == committed(
            strings_view(old(filters)@),
            *old(selected) as int,
            buffer@,
            adding,
        ),
{
    let t = trim_exec(&chars_of(buffer));
    if t.len() == 0 {
        cancel_filter_edit(filters, selected);
        return false;
    }
    let ghost before = filters@;
    if adding {
        filters.push(string_of(&t));
        assert(strings_view(filters@) =~= strings_view(before).push(t@));
        *selected = filters.len() - 1;
        true
    } else if *selected < filters.len() {
        filters.set(*selected, string_of(&t));
        assert(strings_view(filters@) =~= strings_view(before).update(*selected as int, t@));
        true
    } else {
        false
    }
}

/// Starts typing a new rule: the buffer holds `- ` (an exclusion), the selection moves to the
/// row after the last rule and the view follows it.
pub fn start_adding_filter(count: usize, selected: &mut usize, scroll: &mut usize, viewport: usize) -> (r: EditState)
    ensures
        r matches EditState::AddingFilter { buffer } && buffer@ == "- "@,
        *final(selected) == count,
        *final(scroll) == offset_showing(count as int, *old(scroll) as int, viewport as int),
{
    *selected = count;
    ensure_filter_visible(count, scroll, viewport);
    EditState::AddingFilter { buffer: string_from("- ") }
}

/// Starts editing the selected rule, its text in the buffer; with no rule at all, starts a new
/// one instead (see `start_adding_filter`); `None` when the selection designates no rule.
pub fn start_editing_filter(filters: &Vec<String>, selected: &mut usize, scroll: &mut usize, viewport: usize) -> (r: Option<EditState>)
    ensures
        filters@.len() == 0 ==> (r matches Some(EditState::AddingFilter { buffer }) && buffer@
            == "- "@) && *final(selected) == 0 && *final(scroll) == offset_showing(
            0,
            *old(scroll) as int,
            viewport as int,
        ),
        0 < filters@.len() && *old(selected) < filters@.len() ==> (r matches Some(
            EditState::Filter { index, buffer },
        ) && index == *old(selected) && buffer@ == filters@[*old(selected) as int]@)
            && *final(selected) == *old(selected) && *final(scroll) == *old(scroll),
        0 < filters@.len() && *old(selected) >= filters@.len() ==> r is None && *final(selected)
            == *old(selected) && *final(scroll) == *old(scroll),
{
    if filters.len() == 0 {
        return Some(start_adding_filter(0, selected, scroll, viewport));
    }
    if *selected < filters.len() {
        Some(EditState::Filter { index: *selected, buffer: filters[*selected].clone() })
    } else {
        None
    }
}

/// A deletion keeps the selection on a rule of the list (or the list is empty).
pub proof fn law_delete_keeps_selection(len: int, sel: int)
    requires
        0 <= sel < len,
    ensures
        len - 1 == 0 || 0 <= reselect(sel, len - 1) < len - 1,
{
}

} // verus!

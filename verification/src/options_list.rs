//! Text of a setting's choice list, with the active value marked: one column for short
//! lists, an aligned grid of two or three columns for long ones.
use vstd::prelude::*;
use crate::text::{
    append_chars, append_str, ascii_lower, chars_of, join_lines, join_lines_exec, seq_eq,
    string_of, strings_view, to_ascii_lower, trim, trim_exec,
};

verus! {

/// `s` without its ASCII spaces (`str::replace(' ', "")`).
pub open spec fn drop_spaces(s: Seq<char>) -> Seq<char>
    decreases s.len(),
{
    if s.len() == 0 {
        s
    } else if s.last() == ' ' {
        drop_spaces(s.drop_last())
    } else {
        drop_spaces(s.drop_last()).push(s.last())
    }
}

/// The form in which choices are compared: trimmed, without spaces.
pub open spec fn normalized(s: Seq<char>) -> Seq<char> {
    drop_spaces(trim(s))
}

/// `str::eq_ignore_ascii_case`.
pub open spec fn eq_ignore_ascii_case(a: Seq<char>, b: Seq<char>) -> bool {
    ascii_lower(a) == ascii_lower(b)
}

/// Whether choice `c` is the current value: equal up to spaces and ASCII case, or the
/// `Disabled` choice while the current value is empty or `Disabled`.
pub open spec fn is_active(c: Seq<char>, current: Seq<char>) -> bool {
    ||| eq_ignore_ascii_case(normalized(c), normalized(current))
    ||| (c == "Disabled"@ && (current.len() == 0 || eq_ignore_ascii_case(current, "Disabled"@)))
}

/// One entry of the list: `▶ choice (active)` or `• choice`, indented by two spaces in the
/// first column.
pub open spec fn entry_text(s: Seq<char>, active: bool, first_col: bool) -> Seq<char> {
    let lead = if first_col {
        "  "@
    } else {
        Seq::<char>::empty()
    };
    if active {
        lead + "▶ "@ + s + " (active)"@
    } else {
        lead + "• "@ + s
    }
}

/// Number of grid columns for `n` choices (more than eight): three above fourteen, else two.
pub open spec fn grid_cols(n: int) -> int {
    if n > 14 {
        3
    } else {
        2
    }
}

/// Number of grid rows for `n` choices in `cols` columns (rounded up).
pub open spec fn grid_rows(n: int, cols: int) -> int {
    (n + cols - 1) / cols
}

/// The entry of choice `idx` placed in column `col`.
pub open spec fn entry_at(cs: Seq<Seq<char>>, current: Seq<char>, idx: int, col: int) -> Seq<char> {
    entry_text(cs[idx], is_active(cs[idx], current), col == 0)
}

/// Widest entry among the first `r` rows of column `col` (rows past the end count 0).
pub open spec fn widest(cs: Seq<Seq<char>>, current: Seq<char>, col: int, rows: int, r: int) -> int
    decreases r,
{
    if r <= 0 {
        0
    } else {
        let prev = widest(cs, current, col, rows, r - 1);
        let idx = (r - 1) + col * rows;
        if idx < cs.len() {
            let l = entry_at(cs, current, idx, col).len() as int;
            if l > prev {
                l
            } else {
                prev
            }
        } else {
            prev
        }
    }
}

/// Width of column `col`: its widest entry plus a two-space gutter.
pub open spec fn col_width(cs: Seq<Seq<char>>, current: Seq<char>, col: int, rows: int) -> int {
    widest(cs, current, col, rows, rows) + 2
}

/// `n` spaces.
pub open spec fn spaces(n: int) -> Seq<char> {
    Seq::new(if n > 0 {
        n as nat
    } else {
        0
    }, |i: int| ' ')
}

/// The cell of row `r`, column `col`: the entry, padded to the column width when a cell
/// follows it on the same row.
pub open spec fn grid_cell(cs: Seq<Seq<char>>, current: Seq<char>, cols: int, rows: int, r: int, col: int) -> Seq<char> {
    let idx = r + col * rows;
    if idx < cs.len() {
        let e = entry_at(cs, current, idx, col);
        if col + 1 < cols && r + (col + 1) * rows < cs.len() {
            e + spaces(col_width(cs, current, col, rows) - e.len())
        } else {
            e
        }
    } else {
        Seq::empty()
    }
}

/// The first `c` cells of row `r`.
pub open spec fn grid_line(cs: Seq<Seq<char>>, current: Seq<char>, cols: int, rows: int, r: int, c: int) -> Seq<char>
    decreases c,
{
    if c <= 0 {
        Seq::empty()
    } else {
        grid_line(cs, current, cols, rows, r, c - 1) + grid_cell(cs, current, cols, rows, r, c - 1)
    }
}

/// The text of the choice list, with the active choice marked. Up to eight choices stand
/// one per line; more are laid out in columns, filled top to bottom, aligned.
pub open spec fn options_list(cs: Seq<Seq<char>>, current: Seq<char>) -> Seq<char> {
    let n = cs.len() as int;
    if n == 0 {
        Seq::empty()
    } else if n <= 8 {
        join_lines(Seq::new(n as nat, |i: int| entry_at(cs, current, i, 0)))
    } else {
        let cols = grid_cols(n);
        let rows = grid_rows(n, cols);
        join_lines(Seq::new(rows as nat, |r: int| grid_line(cs, current, cols, rows, r, cols)))
    }
}

/// `s` without ASCII spaces.
fn drop_spaces_exec(s: &Vec<char>) -> (r: Vec<char>)
    ensures
        r@ == drop_spaces(s@),
{
    let mut out: Vec<char> = Vec::new();
    let mut i: usize = 0;
    while i < s.len()
        invariant
            i <= s.len(),
            out@ == drop_spaces(s@.take(i as int)),
        decreases s.len() - i,
    {
        assert(s@.take(i + 1).drop_last() =~= s@.take(i as int));
        if s[i] != ' ' {
            out.push(s[i]);
        }
        i = i + 1;
    }
    assert(s@.take(s.len() as int) =~= s@);
    out
}

pub fn eq_ignore_ascii_case_exec(a: &Vec<char>, b: &Vec<char>) -> (r: bool)
    ensures
        r == eq_ignore_ascii_case(a@, b@),
{
    let la = to_ascii_lower(a);
    let lb = to_ascii_lower(b);
    seq_eq(&la, &lb)
}

fn is_active_exec(c: &Vec<char>, current: &Vec<char>) -> (r: bool)
    ensures
        r == is_active(c@, current@),
{
    let nc = drop_spaces_exec(&trim_exec(c));
    let ncur = drop_spaces_exec(&trim_exec(current));
    if eq_ignore_ascii_case_exec(&nc, &ncur) {
        return true;
    }
    let disabled = chars_of("Disabled");
    seq_eq(c, &disabled) && (current.len() == 0 || eq_ignore_ascii_case_exec(current, &disabled))
}

fn entry_exec(s: &Vec<char>, active: bool, first_col: bool) -> (r: Vec<char>)
    ensures
        r@ == entry_text(s@, active, first_col),
{
    let mut v: Vec<char> = Vec::new();
    if first_col {
        append_str(&mut v, "  ");
    }
    if active {
        append_str(&mut v, "▶ ");
        append_chars(&mut v, s);
        append_str(&mut v, " (active)");
    } else {
        append_str(&mut v, "• ");
        append_chars(&mut v, s);
    }
    assert(v@ =~= entry_text(s@, active, first_col));
    v
}

/// Unified display of a setting's choices with the current value marked `(active)`.
/// Up to eight choices are listed one per line; longer lists are laid out in an aligned grid
/// of two columns (three above fourteen choices), filled column by column.
pub fn format_setting_options_list(choices: &[String], current: &str) -> (r: String)
    requires
        choices@.len() + 2 <= usize::MAX,
        forall|i: int| 0 <= i < choices@.len() ==> choices@[i]@.len() + 16 <= usize::MAX,
    ensures
        r@ == options_list(strings_view(choices@), current@),
{
    let ghost cs = strings_view(choices@);
    let n = choices.len();
    if n == 0 {
        return String::new();
    }
    let cur = chars_of(current);
    let mut texts: Vec<Vec<char>> = Vec::new();
    let mut acts: Vec<bool> = Vec::new();
    let mut i: usize = 0;
    while i < n
        invariant
            i <= n,
            n == choices@.len(),
            cs == strings_view(choices@),
            cur@ == current@,
            texts@.len() == i,
            acts@.len() == i,
            forall|j: int| 0 <= j < i ==> #[trigger] texts@[j]@ == cs[j],
            forall|j: int| 0 <= j < i ==> #[trigger] acts@[j] == is_active(cs[j], cur@),
        decreases n - i,
    {
        let c = chars_of(choices[i].as_str());
        let a = is_active_exec(&c, &cur);
        texts.push(c);
        acts.push(a);
        i = i + 1;
    }
    if n <= 8 {
        let mut lines: Vec<Vec<char>> = Vec::new();
        let mut k: usize = 0;
        while k < n
            invariant
                k <= n,
                n == choices@.len(),
                n <= 8,
                cs == strings_view(choices@),
                cur@ == current@,
                texts@.len() == n,
                acts@.len() == n,
                forall|j: int| 0 <= j < n ==> #[trigger] texts@[j]@ == cs[j],
                forall|j: int| 0 <= j < n ==> #[trigger] acts@[j] == is_active(cs[j], cur@),
                lines@.len() == k,
                forall|j: int| 0 <= j < k ==> #[trigger] lines@[j]@ == entry_at(cs, cur@, j, 0),
            decreases n - k,
        {
            let e = entry_exec(&texts[k], acts[k], true);
            lines.push(e);
            k = k + 1;
        }
        let joined = join_lines_exec(&lines);
        assert(lines@.map_values(|l: Vec<char>| l@) =~= Seq::new(
            n as nat,
            |j: int| entry_at(cs, current@, j, 0),
        ));
        return string_of(&joined);
    }
    let num_cols: usize = if n > 14 {
        3
    } else {
        2
    };
    let num_rows: usize = (n - 1 + num_cols) / num_cols;
    assert(num_rows == grid_rows(n as int, num_cols as int));
    assert(num_rows <= n);
    assert(num_cols * num_rows <= n + num_cols - 1) by (nonlinear_arith)
        requires
            num_rows == (n + num_cols - 1) / (num_cols as int),
            num_cols >= 2,
    ;
    // column widths
    let mut widths: Vec<usize> = Vec::new();
    let mut col: usize = 0;
    let mut base: usize = 0;
    while col < num_cols
        invariant
            col <= num_cols,
            num_cols == grid_cols(n as int),
            num_rows == grid_rows(n as int, num_cols as int),
            num_cols * num_rows <= n + num_cols - 1,
            2 <= num_cols <= 3,
            n == choices@.len(),
            n + 2 <= usize::MAX,
            forall|j: int| 0 <= j < choices@.len() ==> choices@[j]@.len() + 16 <= usize::MAX,
            cs == strings_view(choices@),
            cur@ == current@,
            texts@.len() == n,
            acts@.len() == n,
            forall|j: int| 0 <= j < n ==> #[trigger] texts@[j]@ == cs[j],
            forall|j: int| 0 <= j < n ==> #[trigger] acts@[j] == is_active(cs[j], cur@),
            base == col * num_rows,
            widths@.len() == col,
            forall|c: int| 0 <= c < col ==> #[trigger] widths@[c] == col_width(cs, cur@, c, num_rows as int),
        decreases num_cols - col,
    {
        let mut w: usize = 0;
        let mut r: usize = 0;
        while r < num_rows
            invariant
                r <= num_rows,
                col < num_cols,
                num_cols * num_rows <= n + num_cols - 1,
                2 <= num_cols <= 3,
                n == choices@.len(),
                n + 2 <= usize::MAX,
                forall|j: int| 0 <= j < choices@.len() ==> choices@[j]@.len() + 16 <= usize::MAX,
                cs == strings_view(choices@),
                cur@ == current@,
                texts@.len() == n,
                acts@.len() == n,
                forall|j: int| 0 <= j < n ==> #[trigger] texts@[j]@ == cs[j],
                forall|j: int| 0 <= j < n ==> #[trigger] acts@[j] == is_active(cs[j], cur@),
                base == col * num_rows,
                w == widest(cs, cur@, col as int, num_rows as int, r as int),
                w + 2 <= usize::MAX,
            decreases num_rows - r,
        {
            assert(base + r < n + 2) by (nonlinear_arith)
                requires
                    base == col * num_rows,
                    col < num_cols,
                    r < num_rows,
                    num_cols * num_rows <= n + num_cols - 1,
                    num_cols <= 3,
            ;
            let idx = r + base;
            if idx < n {
                let e = entry_exec(&texts[idx], acts[idx], col == 0);
                assert(e@.len() <= cs[idx as int].len() + 13) by {
                    reveal_strlit("  ");
                    reveal_strlit("▶ ");
                    reveal_strlit(" (active)");
                    reveal_strlit("• ");
                }
                assert(cs[idx as int] == choices@[idx as int]@);
                if e.len() > w {
                    w = e.len();
                }
            }
            r = r + 1;
        }
        widths.push(w + 2);
        assert(base + num_rows <= n + 2) by (nonlinear_arith)
            requires
                base == col * num_rows,
                col < num_cols,
                num_cols * num_rows <= n + num_cols - 1,
                num_cols <= 3,
        ;
        base = base + num_rows;
        assert(base == (col + 1) * num_rows) by (nonlinear_arith)
            requires
                base == col * num_rows + num_rows,
        ;
        col = col + 1;
    }
    // rows
    let mut lines: Vec<Vec<char>> = Vec::new();
    let mut r: usize = 0;
    while r < num_rows
        invariant
            r <= num_rows,
            num_cols == grid_cols(n as int),
            num_rows == grid_rows(n as int, num_cols as int),
            num_cols * num_rows <= n + num_cols - 1,
            2 <= num_cols <= 3,
            n == choices@.len(),
            n + 2 <= usize::MAX,
            cs == strings_view(choices@),
            cur@ == current@,
            texts@.len() == n,
            acts@.len() == n,
            forall|j: int| 0 <= j < n ==> #[trigger] texts@[j]@ == cs[j],
            forall|j: int| 0 <= j < n ==> #[trigger] acts@[j] == is_active(cs[j], cur@),
            widths@.len() == num_cols,
            forall|c: int| 0 <= c < num_cols ==> #[trigger] widths@[c] == col_width(cs, cur@, c, num_rows as int),
            lines@.len() == r,
            forall|j: int| 0 <= j < r ==> #[trigger] lines@[j]@ == grid_line(
                cs,
                cur@,
                num_cols as int,
                num_rows as int,
                j,
                num_cols as int,
            ),
        decreases num_rows - r,
    {
        let line = grid_line_exec(&texts, &acts, &widths, n, num_cols, num_rows, r, Ghost(cs), Ghost(cur@));
        lines.push(line);
        r = r + 1;
    }
    let joined = join_lines_exec(&lines);
    assert(lines@.map_values(|l: Vec<char>| l@) =~= Seq::new(
        num_rows as nat,
        |j: int| grid_line(cs, current@, num_cols as int, num_rows as int, j, num_cols as int),
    ));
    string_of(&joined)
}

/// The line of row `r` of the grid.
fn grid_line_exec(
    texts: &Vec<Vec<char>>,
    acts: &Vec<bool>,
    widths: &Vec<usize>,
    n: usize,
    num_cols: usize,
    num_rows: usize,
    r: usize,
    Ghost(cs): Ghost<Seq<Seq<char>>>,
    Ghost(cur): Ghost<Seq<char>>,
) -> (line: Vec<char>)
    requires
        r < num_rows,
        2 <= num_cols <= 3,
        num_cols * num_rows <= n + num_cols - 1,
        n + 2 <= usize::MAX,
        n == cs.len(),
        texts@.len() == n,
        acts@.len() == n,
        forall|j: int| 0 <= j < n ==> #[trigger] texts@[j]@ == cs[j],
        forall|j: int| 0 <= j < n ==> #[trigger] acts@[j] == is_active(cs[j], cur),
        widths@.len() == num_cols,
        forall|c: int| 0 <= c < num_cols ==> #[trigger] widths@[c] == col_width(cs, cur, c, num_rows as int),
    ensures
        line@ == grid_line(cs, cur, num_cols as int, num_rows as int, r as int, num_cols as int),
{
    let mut line: Vec<char> = Vec::new();
    let mut col: usize = 0;
    let mut base: usize = 0;
    while col < num_cols
        invariant
            col <= num_cols,
            r < num_rows,
            2 <= num_cols <= 3,
            num_cols * num_rows <= n + num_cols - 1,
            n + 2 <= usize::MAX,
            n == cs.len(),
            texts@.len() == n,
            acts@.len() == n,
            forall|j: int| 0 <= j < n ==> #[trigger] texts@[j]@ == cs[j],
            forall|j: int| 0 <= j < n ==> #[trigger] acts@[j] == is_active(cs[j], cur),
            widths@.len() == num_cols,
            forall|c: int| 0 <= c < num_cols ==> #[trigger] widths@[c] == col_width(cs, cur, c, num_rows as int),
            base == col * num_rows,
            line@ == grid_line(cs, cur, num_cols as int, num_rows as int, r as int, col as int),
        decreases num_cols - col,
    {
        assert(base + r < n + 2) by (nonlinear_arith)
            requires
                base == col * num_rows,
                col < num_cols,
                r < num_rows,
                num_cols * num_rows <= n + num_cols - 1,
                num_cols <= 3,
        ;
        let idx = r + base;
        let ghost cell = grid_cell(cs, cur, num_cols as int, num_rows as int, r as int, col as int);
        if idx < n {
            let e = entry_exec(&texts[idx], acts[idx], col == 0);
            assert(e@ == entry_at(cs, cur, idx as int, col as int));
            let has_next = if col + 1 < num_cols {
                assert(base + num_rows + r < n + 2) by (nonlinear_arith)
                    requires
                        base == col * num_rows,
                        col + 1 < num_cols,
                        r < num_rows,
                        num_cols * num_rows <= n + num_cols - 1,
                        num_cols <= 3,
                ;
                r + base + num_rows < n
            } else {
                false
            };
            assert(base + num_rows == (col + 1) * num_rows) by (nonlinear_arith)
                requires
                    base == col * num_rows,
            ;
            if has_next {
                proof {
                    lemma_widest_bound(cs, cur, col as int, num_rows as int, num_rows as int, r as int);
                }
                let pad = widths[col] - e.len();
                append_chars(&mut line, &e);
                let mut p: usize = 0;
                let ghost before = line@;
                while p < pad
                    invariant
                        p <= pad,
                        line@ == before + spaces(p as int),
                    decreases pad - p,
                {
                    line.push(' ');
                    assert(spaces(p + 1) =~= spaces(p as int).push(' '));
                    p = p + 1;
                }
                assert(line@ == grid_line(cs, cur, num_cols as int, num_rows as int, r as int, col as int) + cell);
            } else {
                append_chars(&mut line, &e);
                assert(line@ == grid_line(cs, cur, num_cols as int, num_rows as int, r as int, col as int) + cell);
            }
        } else {
            assert(cell =~= Seq::<char>::empty());
            assert(line@ =~= grid_line(cs, cur, num_cols as int, num_rows as int, r as int, col as int) + cell);
        }
        assert(base + num_rows <= n + 2) by (nonlinear_arith)
            requires
                base == col * num_rows,
                col < num_cols,
                num_cols * num_rows <= n + num_cols - 1,
                num_cols <= 3,
        ;
        base = base + num_rows;
        assert(base == (col + 1) * num_rows) by (nonlinear_arith)
            requires
                base == col * num_rows + num_rows,
        ;
        col = col + 1;
    }
    line
}

/// Every entry of a column fits in the column's widest entry.
proof fn lemma_widest_bound(cs: Seq<Seq<char>>, cur: Seq<char>, col: int, rows: int, r: int, row: int)
    requires
        0 <= row < r,
        row + col * rows < cs.len(),
    ensures
        entry_at(cs, cur, row + col * rows, col).len() <= widest(cs, cur, col, rows, r),
    decreases r,
{
    if row < r - 1 {
        lemma_widest_bound(cs, cur, col, rows, r - 1, row);
    }
}

} // verus!

//! Keyboard handling of the dialogs (menu, confirmations, help, dry run, run details, file
//! browser, filter rules) and of the logs panel.
use vstd::prelude::*;
use crate::line_edit::Key;
use crate::scroll::{list_step, scroll_list_step, vp_of};
use crate::dashboard::{LogFilter, filter_matches};
use crate::text::{chars_of, join_lines, join_lines_exec, push_char, string_of, strings_view};

verus! {

/// `a - b`, or 0 below zero (`saturating_sub`).
pub open spec fn sat_minus(a: int, b: int) -> int {
    if a > b {
        a - b
    } else {
        0
    }
}

/// `a + b`, or `usize::MAX` beyond it (`saturating_add`).
pub open spec fn sat_plus(a: int, b: int) -> int {
    if a + b > usize::MAX {
        usize::MAX as int
    } else {
        a + b
    }
}

pub open spec fn min_int(a: int, b: int) -> int {
    if a < b {
        a
    } else {
        b
    }
}

pub open spec fn max_int(a: int, b: int) -> int {
    if a > b {
        a
    } else {
        b
    }
}

fn min_of(a: usize, b: usize) -> (r: usize)
    ensures
        r == min_int(a as int, b as int),
{
    if a < b {
        a
    } else {
        b
    }
}

/// `min(a + b, cap)` computed without overflow.
fn add_capped(a: usize, b: usize, cap: usize) -> (r: usize)
    ensures
        r == min_int(a + b, cap as int),
{
    if a >= cap || cap - a <= b {
        cap
    } else {
        a + b
    }
}

// ---------------------------------------------------------------------------
// Main menu
// ---------------------------------------------------------------------------

/// What the main menu asks after a key press.
#[derive(Debug, Clone, Copy, PartialEq, Eq, Structural)]
pub enum MenuOutcome {
    /// The menu stays open.
    Stay,
    Close,
    OpenSettings,
    OpenHelp,
    Quit,
}

/// Number of entries of the main menu (settings, help, quit).
pub open spec fn menu_len() -> int {
    3
}

/// The menu after a key: Up/`k` and Down/`j`/Tab move the selection within the three entries,
/// Enter or Space activate the selected one, `o`, `?`/`h` and `q` are shortcuts for them, Esc
/// closes the menu.
pub open spec fn menu_after(sel: int, key: Key) -> (int, MenuOutcome) {
    match key {
        Key::Esc => (sel, MenuOutcome::Close),
        Key::Up | Key::Char('k') => (if sel > 0 {
            sel - 1
        } else {
            sel
        }, MenuOutcome::Stay),
        Key::Down | Key::Char('j') | Key::Tab => (if sel < menu_len() - 1 {
            sel + 1
        } else {
            sel
        }, MenuOutcome::Stay),
        Key::Enter | Key::Char(' ') => (sel, if sel == 0 {
            MenuOutcome::OpenSettings
        } else if sel == 1 {
            MenuOutcome::OpenHelp
        } else if sel == 2 {
            MenuOutcome::Quit
        } else {
            MenuOutcome::Stay
        }),
        Key::Char('o') => (sel, MenuOutcome::OpenSettings),
        Key::Char('?') | Key::Char('h') => (sel, MenuOutcome::OpenHelp),
        Key::Char('q') => (sel, MenuOutcome::Quit),
        _ => (sel, MenuOutcome::Stay),
    }
}

/// Handles a key in the main menu (see `menu_after`).
pub fn menu_key(selected: usize, key: Key) -> (r: (usize, MenuOutcome))
    ensures
        (r.0 as int, r.1) == menu_after(selected as int, key),
{
    match key {
        Key::Esc => (selected, MenuOutcome::Close),
        Key::Up | Key::Char('k') => (if selected > 0 {
            selected - 1
        } else {
            selected
        }, MenuOutcome::Stay),
        Key::Down | Key::Char('j') | Key::Tab => (if selected < 2 {
            selected + 1
        } else {
            selected
        }, MenuOutcome::Stay),
        Key::Enter | Key::Char(' ') => (selected, if selected == 0 {
            MenuOutcome::OpenSettings
        } else if selected == 1 {
            MenuOutcome::OpenHelp
        } else if selected == 2 {
            MenuOutcome::Quit
        } else {
            MenuOutcome::Stay
        }),
        Key::Char('o') => (selected, MenuOutcome::OpenSettings),
        Key::Char('?') | Key::Char('h') => (selected, MenuOutcome::OpenHelp),
        Key::Char('q') => (selected, MenuOutcome::Quit),
        _ => (selected, MenuOutcome::Stay),
    }
}

/// What a click on entry `idx` of the main menu asks.
pub fn menu_option(idx: usize) -> (r: MenuOutcome)
    ensures
        r == menu_after(idx as int, Key::Enter).1,
{
    match idx {
        0 => MenuOutcome::OpenSettings,
        1 => MenuOutcome::OpenHelp,
        2 => MenuOutcome::Quit,
        _ => MenuOutcome::Stay,
    }
}

// ---------------------------------------------------------------------------
// Confirmations and help
// ---------------------------------------------------------------------------

/// The answer a key gives to a yes/no confirmation: yes for `y`, `o` (oui) and Enter, no for
/// `n`, Esc and `q`, none (the question stays) otherwise.
pub open spec fn confirm_of(key: Key) -> Option<bool> {
    match key {
        Key::Char('y') | Key::Char('o') | Key::Enter => Some(true),
        Key::Char('n') | Key::Esc | Key::Char('q') => Some(false),
        _ => None,
    }
}

/// Reads a key as an answer to a confirmation (see `confirm_of`).
pub fn confirm_answer(key: Key) -> (r: Option<bool>)
    ensures
        r == confirm_of(key),
{
    match key {
        Key::Char('y') | Key::Char('o') | Key::Enter => Some(true),
        Key::Char('n') | Key::Esc | Key::Char('q') => Some(false),
        _ => None,
    }
}

/// Whether a key closes the help: Esc, `q`, `?` or Enter.
pub fn help_closes(key: Key) -> (r: bool)
    ensures
        r == (key == Key::Esc || key == Key::Char('q') || key == Key::Char('?') || key
            == Key::Enter),
{
    match key {
        Key::Esc | Key::Char('q') | Key::Char('?') | Key::Enter => true,
        _ => false,
    }
}

// ---------------------------------------------------------------------------
// Dry-run report
// ---------------------------------------------------------------------------

/// What the dry-run report asks after a key press.
#[derive(Debug, Clone, Copy, PartialEq, Eq, Structural)]
pub enum DryRunOutcome {
    Stay,
    Close,
    /// Run the simulation again.
    Rerun,
}

/// The report after a key: Esc/`q` close it, `r` runs it again, the arrows scroll by one line,
/// the page keys by ten, Home goes back to the top.
pub open spec fn dry_run_after(scroll: int, key: Key) -> (int, DryRunOutcome) {
    match key {
        Key::Esc | Key::Char('q') => (scroll, DryRunOutcome::Close),
        Key::Char('r') => (scroll, DryRunOutcome::Rerun),
        Key::Up | Key::Char('k') => (sat_minus(scroll, 1), DryRunOutcome::Stay),
        Key::Down | Key::Char('j') => (sat_plus(scroll, 1), DryRunOutcome::Stay),
        Key::PageUp => (sat_minus(scroll, 10), DryRunOutcome::Stay),
        Key::PageDown => (sat_plus(scroll, 10), DryRunOutcome::Stay),
        Key::Home => (0, DryRunOutcome::Stay),
        _ => (scroll, DryRunOutcome::Stay),
    }
}

/// Handles a key in the dry-run report (see `dry_run_after`).
pub fn dry_run_key(scroll: usize, key: Key) -> (r: (usize, DryRunOutcome))
    ensures
        (r.0 as int, r.1) == dry_run_after(scroll as int, key),
{
    match key {
        Key::Esc | Key::Char('q') => (scroll, DryRunOutcome::Close),
        Key::Char('r') => (scroll, DryRunOutcome::Rerun),
        Key::Up | Key::Char('k') => (scroll.saturating_sub(1), DryRunOutcome::Stay),
        Key::Down | Key::Char('j') => (scroll.saturating_add(1), DryRunOutcome::Stay),
        Key::PageUp => (scroll.saturating_sub(10), DryRunOutcome::Stay),
        Key::PageDown => (scroll.saturating_add(10), DryRunOutcome::Stay),
        Key::Home => (0, DryRunOutcome::Stay),
        _ => (scroll, DryRunOutcome::Stay),
    }
}

// ---------------------------------------------------------------------------
// Details of a past run
// ---------------------------------------------------------------------------

/// What the details of a past run ask after a key press.
#[derive(Debug, Clone, Copy, PartialEq, Eq, Structural)]
pub enum DetailsOutcome {
    Stay,
    Close,
    /// Open the file at this index of the run's affected files.
    OpenFile(usize),
    /// Open the folder of the file at this index.
    OpenFolder(usize),
    /// Switch between showing file paths and folder paths.
    ToggleFolderMode,
    OpenSettings,
    /// Copy the run's errors and files to the clipboard.
    CopyErrors,
}

/// Rows of the details' file list that one page shows.
pub open spec fn details_page() -> int {
    15
}

/// The selected file, the scroll and the request after a key in the details of a run that
/// affected `files` files (`has_errors`: the run reported errors). With files, the arrows move
/// the selection (the scroll follows it), the page keys move both by ten, Home and End go to
/// the ends, Enter opens the file (its folder with Ctrl or in folder mode), `d` its folder;
/// without files the arrows and page keys scroll the text.
pub open spec fn details_after(
    sel: int,
    scroll: int,
    files: int,
    has_errors: bool,
    key: Key,
    ctrl: bool,
    folder_mode: bool,
) -> (int, int, DetailsOutcome) {
    match key {
        Key::Esc | Key::Char('q') => (sel, scroll, DetailsOutcome::Close),
        Key::Up | Key::Char('k') => if files > 0 {
            let s = if sel > 0 {
                sel - 1
            } else {
                sel
            };
            (s, if s < scroll {
                s
            } else {
                scroll
            }, DetailsOutcome::Stay)
        } else {
            (sel, sat_minus(scroll, 1), DetailsOutcome::Stay)
        },
        Key::Down | Key::Char('j') => if files > 0 {
            let s = if sel < files - 1 {
                sel + 1
            } else {
                sel
            };
            (s, if s >= scroll + details_page() {
                sat_minus(s, details_page() - 1)
            } else {
                scroll
            }, DetailsOutcome::Stay)
        } else {
            (sel, sat_plus(scroll, 1), DetailsOutcome::Stay)
        },
        Key::PageUp => (if files > 0 {
            sat_minus(sel, 10)
        } else {
            sel
        }, sat_minus(scroll, 10), DetailsOutcome::Stay),
        Key::PageDown => (if files > 0 {
            min_int(sel + 10, files - 1)
        } else {
            sel
        }, sat_plus(scroll, 10), DetailsOutcome::Stay),
        Key::Home => (0, 0, DetailsOutcome::Stay),
        Key::End => (if files > 0 {
            files - 1
        } else {
            sel
        }, scroll, DetailsOutcome::Stay),
        Key::Enter => (sel, scroll, if files > 0 {
            if folder_mode || ctrl {
                DetailsOutcome::OpenFolder(sel as usize)
            } else {
                DetailsOutcome::OpenFile(sel as usize)
            }
        } else {
            DetailsOutcome::Stay
        }),
        Key::Char('d') => (sel, scroll, if files > 0 {
            DetailsOutcome::OpenFolder(sel as usize)
        } else {
            DetailsOutcome::Stay
        }),
        Key::Char('x') => (sel, scroll, if ctrl && files > 0 {
            DetailsOutcome::ToggleFolderMode
        } else {
            DetailsOutcome::Stay
        }),
        Key::Char('o') => (sel, scroll, DetailsOutcome::OpenSettings),
        Key::Char('y') | Key::Char('c') => (sel, scroll, if has_errors || files > 0 {
            DetailsOutcome::CopyErrors
        } else {
            DetailsOutcome::Stay
        }),
        _ => (sel, scroll, DetailsOutcome::Stay),
    }
}

/// Handles a key in the details of a past run (see `details_after`).
pub fn details_key(
    sel: usize,
    scroll: usize,
    files: usize,
    has_errors: bool,
    key: Key,
    ctrl: bool,
    folder_mode: bool,
) -> (r: (usize, usize, DetailsOutcome))
    ensures
        (r.0 as int, r.1 as int, r.2) == details_after(
            sel as int,
            scroll as int,
            files as int,
            has_errors,
            key,
            ctrl,
            folder_mode,
        ),
{
    match key {
        Key::Esc | Key::Char('q') => (sel, scroll, DetailsOutcome::Close),
        Key::Up | Key::Char('k') => {
            if files > 0 {
                let s = if sel > 0 {
                    sel - 1
                } else {
                    sel
                };
                (s, if s < scroll {
                    s
                } else {
                    scroll
                }, DetailsOutcome::Stay)
            } else {
                (sel, scroll.saturating_sub(1), DetailsOutcome::Stay)
            }
        },
        Key::Down | Key::Char('j') => {
            if files > 0 {
                let s = if sel < files - 1 {
                    sel + 1
                } else {
                    sel
                };
                let below = s >= 15 && s - 15 >= scroll;
                (s, if below {
                    s.saturating_sub(14)
                } else {
                    scroll
                }, DetailsOutcome::Stay)
            } else {
                (sel, scroll.saturating_add(1), DetailsOutcome::Stay)
            }
        },
        Key::PageUp => (if files > 0 {
            sel.saturating_sub(10)
        } else {
            sel
        }, scroll.saturating_sub(10), DetailsOutcome::Stay),
        Key::PageDown => (if files > 0 {
            add_capped(sel, 10, files - 1)
        } else {
            sel
        }, scroll.saturating_add(10), DetailsOutcome::Stay),
        Key::Home => (0, 0, DetailsOutcome::Stay),
        Key::End => (if files > 0 {
            files - 1
        } else {
            sel
        }, scroll, DetailsOutcome::Stay),
        Key::Enter => (sel, scroll, if files > 0 {
            if folder_mode || ctrl {
                DetailsOutcome::OpenFolder(sel)
            } else {
                DetailsOutcome::OpenFile(sel)
            }
        } else {
            DetailsOutcome::Stay
        }),
        Key::Char('d') => (sel, scroll, if files > 0 {
            DetailsOutcome::OpenFolder(sel)
        } else {
            DetailsOutcome::Stay
        }),
        Key::Char('x') => (sel, scroll, if ctrl && files > 0 {
            DetailsOutcome::ToggleFolderMode
        } else {
            DetailsOutcome::Stay
        }),
        Key::Char('o') => (sel, scroll, DetailsOutcome::OpenSettings),
        Key::Char('y') | Key::Char('c') => (sel, scroll, if has_errors || files > 0 {
            DetailsOutcome::CopyErrors
        } else {
            DetailsOutcome::Stay
        }),
        _ => (sel, scroll, DetailsOutcome::Stay),
    }
}

// ---------------------------------------------------------------------------
// Logs panel
// ---------------------------------------------------------------------------

/// Number of lines the logs panel scrolls through: the wrapped lines once the panel has
/// measured them, else the lines that pass the filter.
pub fn total_log_lines(wrapped: usize, filtered: usize) -> (r: usize)
    ensures
        r == if wrapped > 0 {
            wrapped
        } else {
            filtered
        },
{
    if wrapped > 0 {
        wrapped
    } else {
        filtered
    }
}

/// The log lines that pass `f`, in order.
pub open spec fn kept_lines(lines: Seq<Seq<char>>, f: LogFilter) -> Seq<Seq<char>>
    decreases lines.len(),
{
    if lines.len() == 0 {
        Seq::empty()
    } else {
        let r = kept_lines(lines.drop_last(), f);
        if filter_matches(f, lines.last()) {
            r.push(lines.last())
        } else {
            r
        }
    }
}

/// The log lines that pass the filter `f` (see `kept_lines`).
pub fn filtered_log_lines(lines: &Vec<String>, f: LogFilter) -> (r: Vec<String>)
    ensures
        strings_view(r@) == kept_lines(strings_view(lines@), f),
{
    let ghost lv = strings_view(lines@);
    let mut out: Vec<String> = Vec::new();
    let mut i: usize = 0;
    while i < lines.len()
        invariant
            i <= lines.len(),
            lv == strings_view(lines@),
            strings_view(out@) == kept_lines(lv.take(i as int), f),
        decreases lines.len() - i,
    {
        assert(lv.take(i + 1).drop_last() =~= lv.take(i as int));
        assert(lv.take(i + 1).last() == lines@[i as int]@);
        if f.matches(lines[i].as_str()) {
            let ghost before = out@;
            out.push(lines[i].clone());
            assert(strings_view(out@) =~= strings_view(before).push(lines@[i as int]@));
        }
        i = i + 1;
    }
    assert(lv.take(lines.len() as int) =~= lv);
    out
}

/// The text the logs panel copies: the lines that pass `f`, one per line; none when no line
/// passes.
pub fn logs_clipboard_text(lines: &Vec<String>, f: LogFilter) -> (r: Option<String>)
    ensures
        match r {
            Some(t) => kept_lines(strings_view(lines@), f).len() > 0 && t@ == join_lines(
                kept_lines(strings_view(lines@), f),
            ),
            None => kept_lines(strings_view(lines@), f).len() == 0,
        },
{
    let kept = filtered_log_lines(lines, f);
    if kept.len() == 0 {
        return None;
    }
    let mut vs: Vec<Vec<char>> = Vec::new();
    let mut i: usize = 0;
    while i < kept.len()
        invariant
            i <= kept.len(),
            vs@.map_values(|l: Vec<char>| l@) == strings_view(kept@).take(i as int),
        decreases kept.len() - i,
    {
        let ghost before = vs@;
        vs.push(chars_of(kept[i].as_str()));
        assert(vs@.map_values(|l: Vec<char>| l@) =~= before.map_values(|l: Vec<char>| l@).push(
            kept@[i as int]@,
        ));
        assert(strings_view(kept@).take(i + 1) =~= strings_view(kept@).take(i as int).push(
            kept@[i as int]@,
        ));
        i = i + 1;
    }
    assert(strings_view(kept@).take(kept.len() as int) =~= strings_view(kept@));
    Some(string_of(&join_lines_exec(&vs)))
}

/// Largest scroll of the logs (counted back from the newest line): the oldest line at the top
/// of a view of at least three lines.
pub open spec fn logs_max_scroll(total_lines: int, viewport: int) -> int {
    sat_minus(total_lines, max_int(viewport, 3))
}

/// The logs' scroll (lines back from the newest) and follow mode after a key with the logs
/// panel focused: Up and PageUp go back in time by one or ten lines up to the oldest and stop
/// following; Down and PageDown come forward, following again at the newest line; Home shows the
/// oldest lines, End the newest (following); Space toggles following, which jumps to the newest.
pub open spec fn logs_after(scroll: int, follow: bool, total_lines: int, viewport: int, key: Key) -> (int, bool) {
    let max = logs_max_scroll(total_lines, viewport);
    match key {
        Key::Up | Key::Char('k') => (min_int(scroll + 1, max), false),
        Key::PageUp => (min_int(scroll + 10, max), false),
        Key::Down | Key::Char('j') => {
            let s = sat_minus(scroll, 1);
            (s, if s == 0 {
                true
            } else {
                follow
            })
        },
        Key::PageDown => {
            let s = sat_minus(scroll, 10);
            (s, if s == 0 {
                true
            } else {
                follow
            })
        },
        Key::Home => (max, false),
        Key::End => (0, true),
        Key::Char(' ') => (if !follow {
            0
        } else {
            scroll
        }, !follow),
        _ => (scroll, follow),
    }
}

/// Handles a key for the logs panel (see `logs_after`).
pub fn logs_key(scroll: usize, follow: bool, total_lines: usize, viewport: usize, key: Key) -> (r: (
    usize,
    bool,
))
    ensures
        (r.0 as int, r.1) == logs_after(
            scroll as int,
            follow,
            total_lines as int,
            viewport as int,
            key,
        ),
{
    let vp: usize = if viewport > 3 {
        viewport
    } else {
        3
    };
    let max = total_lines.saturating_sub(vp);
    match key {
        Key::Up | Key::Char('k') => (add_capped(scroll, 1, max), false),
        Key::PageUp => (add_capped(scroll, 10, max), false),
        Key::Down | Key::Char('j') => {
            let s = scroll.saturating_sub(1);
            (s, if s == 0 {
                true
            } else {
                follow
            })
        },
        Key::PageDown => {
            let s = scroll.saturating_sub(10);
            (s, if s == 0 {
                true
            } else {
                follow
            })
        },
        Key::Home => (max, false),
        Key::End => (0, true),
        Key::Char(' ') => (if !follow {
            0
        } else {
            scroll
        }, !follow),
        _ => (scroll, follow),
    }
}

/// The logs after a wheel notch over the logs panel: down comes forward one line (following
/// again at the newest), up goes back one line while older lines remain (and stops following).
pub open spec fn logs_wheel_after(scroll: int, follow: bool, total_lines: int, viewport: int, down: bool) -> (int, bool) {
    if down {
        if scroll > 0 {
            (scroll - 1, if scroll - 1 == 0 {
                true
            } else {
                follow
            })
        } else {
            (scroll, follow)
        }
    } else if scroll < logs_max_scroll(total_lines, viewport) {
        (scroll + 1, false)
    } else {
        (scroll, follow)
    }
}

/// Applies a wheel notch over the logs panel (see `logs_wheel_after`).
pub fn logs_wheel(scroll: usize, follow: bool, total_lines: usize, viewport: usize, down: bool) -> (r: (usize, bool))
    ensures
        (r.0 as int, r.1) == logs_wheel_after(
            scroll as int,
            follow,
            total_lines as int,
            viewport as int,
            down,
        ),
{
    let vp: usize = if viewport > 3 {
        viewport
    } else {
        3
    };
    let max = total_lines.saturating_sub(vp);
    if down {
        if scroll > 0 {
            let s = scroll - 1;
            (s, if s == 0 {
                true
            } else {
                follow
            })
        } else {
            (scroll, follow)
        }
    } else if scroll < max {
        (scroll + 1, false)
    } else {
        (scroll, follow)
    }
}

/// The scroll of a dialog's text of `total` lines after a wheel notch: down while more than
/// five lines remain below, up while not at the top.
pub open spec fn text_wheel_after(scroll: int, total: int, down: bool) -> int {
    if down {
        if scroll < sat_minus(total, 5) {
            scroll + 1
        } else {
            scroll
        }
    } else {
        sat_minus(scroll, 1)
    }
}

/// Applies a wheel notch to a dialog's text (run details, dry-run report).
pub fn text_wheel(scroll: usize, total: usize, down: bool) -> (r: usize)
    ensures
        r == text_wheel_after(scroll as int, total as int, down),
{
    if down {
        if scroll < total.saturating_sub(5) {
            scroll + 1
        } else {
            scroll
        }
    } else {
        scroll.saturating_sub(1)
    }
}

// ---------------------------------------------------------------------------
// File browser
// ---------------------------------------------------------------------------

/// The browser's selection and scroll after a moving key, for `len` entries and a viewport
/// of `vph` rows: the arrows step the selection (see `list_step`); the page keys jump by a
/// viewport, the view following the selection; Home and End go to the first and last entry.
pub open spec fn files_after(sel: int, off: int, vph: usize, len: int, key: Key) -> (int, int) {
    let vp = vph as int;
    match key {
        Key::Up | Key::Char('k') => list_step(sel, off, len, vph, true),
        Key::Down | Key::Char('j') => list_step(sel, off, len, vph, false),
        Key::PageUp => {
            let s = sat_minus(sel, vp);
            (s, if s < off {
                s
            } else {
                off
            })
        },
        Key::PageDown => {
            let last = if len == 0 {
                0
            } else {
                len - 1
            };
            let s = min_int(sel + vp, last);
            (s, if s >= off + vp {
                s - vp + 1
            } else {
                off
            })
        },
        Key::Home => (0, 0),
        Key::End => if len > 0 {
            let s = len - 1;
            (s, if s >= vp {
                s - vp + 1
            } else {
                off
            })
        } else {
            (sel, off)
        },
        _ => (sel, off),
    }
}

/// Whether a key steps the selection one row (the arrows and `k`/`j`).
pub open spec fn steps_row(key: Key) -> bool {
    key == Key::Up || key == Key::Char('k') || key == Key::Down || key == Key::Char('j')
}

/// Moves within the file browser (see `files_after`); other keys change nothing.
pub fn files_nav_key(sel: &mut usize, off: &mut usize, viewport: usize, len: usize, key: Key)
    requires
        steps_row(key) ==> *old(off) + vp_of(viewport) <= usize::MAX,
    ensures
        (*final(sel) as int, *final(off) as int) == files_after(
            *old(sel) as int,
            *old(off) as int,
            viewport,
            len as int,
            key,
        ),
{
    match key {
        Key::Up | Key::Char('k') => {
            scroll_list_step(sel, off, len, viewport, true);
        },
        Key::Down | Key::Char('j') => {
            scroll_list_step(sel, off, len, viewport, false);
        },
        Key::PageUp => {
            *sel = sel.saturating_sub(viewport);
            if *sel < *off {
                *off = *sel;
            }
        },
        Key::PageDown => {
            let last = if len == 0 {
                0
            } else {
                len - 1
            };
            *sel = add_capped(*sel, viewport, last);
            if *sel >= *off && *sel - *off >= viewport {
                *off = *sel - viewport + 1;
            }
        },
        Key::Home => {
            *sel = 0;
            *off = 0;
        },
        Key::End => {
            if len > 0 {
                *sel = len - 1;
                if *sel >= viewport {
                    *off = *sel - viewport + 1;
                }
            }
        },
        _ => {},
    }
}

// ---------------------------------------------------------------------------
// Filter rules
// ---------------------------------------------------------------------------

/// What the list of filter rules asks after a key press.
#[derive(Debug, Clone, Copy, PartialEq, Eq, Structural)]
pub enum FiltersOutcome {
    Stay,
    Close,
    /// Edit the selected rule.
    EditSelected,
    /// Start a new rule.
    AddRule,
    DeleteSelected,
    /// Switch the selected rule between include and exclude.
    CycleSelected,
    /// Open the rules file in the external editor.
    OpenEditor,
}

/// The request of a key in the list of filter rules (`count` rules, `sel` selected).
pub open spec fn filters_request(sel: int, count: int, key: Key) -> FiltersOutcome {
    match key {
        Key::Esc | Key::Char('q') => FiltersOutcome::Close,
        Key::Enter | Key::Char('e') => FiltersOutcome::EditSelected,
        Key::Char('a') | Key::Char('+') => FiltersOutcome::AddRule,
        Key::Char('d') | Key::Delete => FiltersOutcome::DeleteSelected,
        Key::Char('t') | Key::Char(' ') => if count > 0 && sel < count {
            FiltersOutcome::CycleSelected
        } else {
            FiltersOutcome::Stay
        },
        Key::Char('E') => FiltersOutcome::OpenEditor,
        _ => FiltersOutcome::Stay,
    }
}

/// The scroll that keeps `sel` visible in a viewport of `vp` rows (`vp` = 0: unchanged).
pub open spec fn keep_visible(sel: int, off: int, vp: int) -> int {
    if vp == 0 {
        off
    } else if sel < off {
        sel
    } else if sel >= off + vp {
        sel - vp + 1
    } else {
        off
    }
}

/// Rows the page keys move in the list of rules: a viewport, at least five.
pub open spec fn filters_page(vp: int) -> int {
    max_int(vp, 5)
}

/// The selection and scroll of the list of rules after a key (`count` rules, `rows` rows
/// with the one being added, viewport `vph`): the arrows step, the page keys jump by a page,
/// Home and End go to the ends, the view following the selection.
pub open spec fn filters_after(sel: int, off: int, count: int, rows: int, vph: usize, key: Key) -> (int, int) {
    let vp = vph as int;
    match key {
        Key::Up | Key::Char('k') => list_step(sel, off, rows, vph, true),
        Key::Down | Key::Char('j') => list_step(sel, off, rows, vph, false),
        Key::PageUp => {
            let s = sat_minus(sel, filters_page(vp));
            (s, keep_visible(s, off, vp))
        },
        Key::PageDown => if count > 0 {
            let s = min_int(sel + filters_page(vp), count - 1);
            (s, keep_visible(s, off, vp))
        } else {
            (sel, off)
        },
        Key::Home => (0, 0),
        Key::End => if count > 0 {
            (count - 1, keep_visible(count - 1, off, vp))
        } else {
            (sel, off)
        },
        _ => (sel, off),
    }
}

fn keep_visible_exec(sel: usize, off: usize, vp: usize) -> (r: usize)
    ensures
        r == keep_visible(sel as int, off as int, vp as int),
{
    if vp == 0 {
        off
    } else if sel < off {
        sel
    } else if sel - off >= vp {
        sel - vp + 1
    } else {
        off
    }
}

/// Handles a key in the list of filter rules: moves the selection (see `filters_after`) and
/// returns the request (see `filters_request`). `adding`: a new rule is being entered, which
/// adds a row to the list.
pub fn filters_key(sel: &mut usize, off: &mut usize, count: usize, adding: bool, viewport: usize, key: Key) -> (r: FiltersOutcome)
    requires
        steps_row(key) ==> *old(off) + vp_of(viewport) <= usize::MAX,
        adding ==> count < usize::MAX,
    ensures
        r == filters_request(*old(sel) as int, count as int, key),
        (*final(sel) as int, *final(off) as int) == filters_after(
            *old(sel) as int,
            *old(off) as int,
            count as int,
            if adding {
                count + 1
            } else {
                count as int
            },
            viewport,
            key,
        ),
{
    let rows: usize = if adding {
        count + 1
    } else {
        count
    };
    let page: usize = if viewport > 5 {
        viewport
    } else {
        5
    };
    let request = match key {
        Key::Esc | Key::Char('q') => FiltersOutcome::Close,
        Key::Enter | Key::Char('e') => FiltersOutcome::EditSelected,
        Key::Char('a') | Key::Char('+') => FiltersOutcome::AddRule,
        Key::Char('d') | Key::Delete => FiltersOutcome::DeleteSelected,
        Key::Char('t') | Key::Char(' ') => if count > 0 && *sel < count {
            FiltersOutcome::CycleSelected
        } else {
            FiltersOutcome::Stay
        },
        Key::Char('E') => FiltersOutcome::OpenEditor,
        _ => FiltersOutcome::Stay,
    };
    match key {
        Key::Up | Key::Char('k') => {
            scroll_list_step(sel, off, rows, viewport, true);
        },
        Key::Down | Key::Char('j') => {
            scroll_list_step(sel, off, rows, viewport, false);
        },
        Key::PageUp => {
            *sel = sel.saturating_sub(page);
            *off = keep_visible_exec(*sel, *off, viewport);
        },
        Key::PageDown => {
            if count > 0 {
                *sel = add_capped(*sel, page, count - 1);
                *off = keep_visible_exec(*sel, *off, viewport);
            }
        },
        Key::Home => {
            *sel = 0;
            *off = 0;
        },
        Key::End => {
            if count > 0 {
                *sel = count - 1;
                *off = keep_visible_exec(*sel, *off, viewport);
            }
        },
        _ => {},
    }
    request
}

/// What editing a filter rule asks after a key press.
#[derive(Debug, Clone, Copy, PartialEq, Eq, Structural)]
pub enum RuleEditOutcome {
    /// Editing goes on.
    Editing,
    /// Keep the edited rule.
    Commit,
    /// Drop the edit.
    Cancel,
}

/// The rule being typed after a key: Backspace erases the last character, a character is
/// appended, other keys leave it.
pub open spec fn rule_buffer_after(buf: Seq<char>, key: Key) -> Seq<char> {
    match key {
        Key::Backspace => if buf.len() > 0 {
            buf.drop_last()
        } else {
            buf
        },
        Key::Char(c) => buf.push(c),
        _ => buf,
    }
}

/// Handles a key while a filter rule is typed: Enter keeps it, Esc drops it, Backspace and
/// characters edit it at its end.
pub fn rule_edit_key(buffer: &mut String, key: Key) -> (r: RuleEditOutcome)
    ensures
        r == (match key {
            Key::Enter => RuleEditOutcome::Commit,
            Key::Esc => RuleEditOutcome::Cancel,
            _ => RuleEditOutcome::Editing,
        }),
        final(buffer)@ == rule_buffer_after(old(buffer)@, key),
{
    match key {
        Key::Enter => RuleEditOutcome::Commit,
        Key::Esc => RuleEditOutcome::Cancel,
        Key::Backspace => {
            let chars = chars_of(buffer.as_str());
            if chars.len() > 0 {
                let mut v = chars;
                let _ = v.pop();
                *buffer = string_of(&v);
            }
            RuleEditOutcome::Editing
        },
        Key::Char(c) => {
            push_char(buffer, c);
            RuleEditOutcome::Editing
        },
        _ => RuleEditOutcome::Editing,
    }
}

// ---------------------------------------------------------------------------
// Laws
// ---------------------------------------------------------------------------

/// The menu selection stays on one of its three entries.
pub proof fn law_menu_selection_in_range(sel: int, key: Key)
    requires
        0 <= sel < menu_len(),
    ensures
        0 <= menu_after(sel, key).0 < menu_len(),
{
}

/// While the logs follow new lines, the newest line is shown (scroll 0): every key keeps this.
pub proof fn law_logs_follow_shows_newest(scroll: int, follow: bool, total_lines: int, viewport: int, key: Key)
    requires
        0 <= scroll,
        follow ==> scroll == 0,
    ensures
        logs_after(scroll, follow, total_lines, viewport, key).1 ==> logs_after(
            scroll,
            follow,
            total_lines,
            viewport,
            key,
        ).0 == 0,
{
}

/// Going back in the logs never scrolls past the oldest line.
pub proof fn law_logs_scroll_bounded(scroll: int, follow: bool, total_lines: int, viewport: int, key: Key)
    requires
        0 <= scroll <= logs_max_scroll(total_lines, viewport),
    ensures
        0 <= logs_after(scroll, follow, total_lines, viewport, key).0 <= logs_max_scroll(
            total_lines,
            viewport,
        ),
{
}

/// In the details of a run with files, the selection stays on one of its files.
pub proof fn law_details_selection_in_files(
    sel: int,
    scroll: int,
    files: int,
    has_errors: bool,
    key: Key,
    ctrl: bool,
    folder_mode: bool,
)
    requires
        0 <= sel < files,
        0 <= scroll,
    ensures
        0 <= details_after(sel, scroll, files, has_errors, key, ctrl, folder_mode).0 < files,
        0 <= details_after(sel, scroll, files, has_errors, key, ctrl, folder_mode).1,
{
}

/// The page keys, Home and End keep the browser's selection on one of its entries.
pub proof fn law_files_jumps_stay_in_list(sel: int, off: int, vph: usize, len: int, key: Key)
    requires
        0 <= sel < len,
        0 <= off,
        key == Key::PageUp || key == Key::PageDown || key == Key::Home || key == Key::End,
    ensures
        0 <= files_after(sel, off, vph, len, key).0 < len,
        0 <= files_after(sel, off, vph, len, key).1,
{
}

/// After a page key, Home or End, the selected rule is visible.
pub proof fn law_filters_jumps_show_selection(sel: int, off: int, count: int, vph: usize, key: Key)
    requires
        0 <= sel < count,
        0 <= off,
        vph > 0,
        key == Key::PageUp || key == Key::PageDown || key == Key::Home || key == Key::End,
    ensures
        ({
            let (s, o) = filters_after(sel, off, count, count, vph, key);
            0 <= s < count && o <= s < o + vph
        }),
{
}

/// Typing a character into a rule and erasing it gives the rule back.
pub proof fn law_rule_type_then_erase(buf: Seq<char>, c: char)
    ensures
        rule_buffer_after(rule_buffer_after(buf, Key::Char(c)), Key::Backspace) == buf,
{
    assert(buf.push(c).drop_last() =~= buf);
}

} // verus!

//! Keyboard and scrollbar movement in the dashboard's lists: a selected row and the
//! offset of the first visible row, kept consistent with a viewport of `vp` rows.
use vstd::prelude::*;

verus! {

/// The viewport height actually used: at least one row.
pub open spec fn vp_of(viewport_height: usize) -> int {
    if viewport_height == 0 {
        1
    } else {
        viewport_height as int
    }
}

/// Largest useful scroll offset: the last page starts there.
pub open spec fn max_offset(total: int, vp: int) -> int {
    if total > vp {
        total - vp
    } else {
        0
    }
}

/// A list position is consistent: the selection is a row of the list and visible, and the
/// offset does not scroll past the last page.
pub open spec fn list_wf(sel: int, off: int, total: int, vp: int) -> bool {
    &&& 0 <= sel < total
    &&& 0 <= off <= max_offset(total, vp)
    &&& off <= sel < off + vp
}

/// The selection brought back into the viewport when it has left it.
pub open spec fn clamp_into_view(sel: int, off: int, vp: int) -> int {
    if sel < off {
        off
    } else if sel >= off + vp {
        off + vp - 1
    } else {
        sel
    }
}

/// One step of the selection (up or down) with the view following it.
pub open spec fn list_step(sel: int, off: int, total: int, vph: usize, up: bool) -> (int, int) {
    if total == 0 {
        (sel, off)
    } else {
        let vp = vp_of(vph);
        let s = clamp_into_view(sel, off, vp);
        if up {
            if s > 0 {
                let s2 = s - 1;
                (s2, if s2 < off {
                    s2
                } else {
                    off
                })
            } else {
                (s, off)
            }
        } else if s < total - 1 {
            let s2 = s + 1;
            (s2, if s2 >= off + vp {
                let o = s2 + 1 - vp;
                if o < max_offset(total, vp) {
                    o
                } else {
                    max_offset(total, vp)
                }
            } else {
                off
            })
        } else {
            (s, off)
        }
    }
}

/// Moves the selection one row up or down; the view scrolls to keep it visible.
pub fn scroll_list_step(
    selected_idx: &mut usize,
    scroll_offset: &mut usize,
    total: usize,
    viewport_height: usize,
    up: bool,
)
    requires
        *old(scroll_offset) + vp_of(viewport_height) <= usize::MAX,
    ensures
        (*final(selected_idx) as int, *final(scroll_offset) as int) == list_step(
            *old(selected_idx) as int,
            *old(scroll_offset) as int,
            total as int,
            viewport_height,
            up,
        ),
{
    if total == 0 {
        return;
    }
    let vp: usize = if viewport_height == 0 {
        1
    } else {
        viewport_height
    };
    let max_off: usize = if total > vp {
        total - vp
    } else {
        0
    };
    if *selected_idx < *scroll_offset {
        *selected_idx = *scroll_offset;
    } else if *selected_idx >= *scroll_offset + vp {
        *selected_idx = *scroll_offset + vp - 1;
    }
    if up {
        if *selected_idx > 0 {
            *selected_idx = *selected_idx - 1;
            if *selected_idx < *scroll_offset {
                *scroll_offset = *selected_idx;
            }
        }
    } else if *selected_idx < total - 1 {
        *selected_idx = *selected_idx + 1;
        if *selected_idx >= *scroll_offset + vp {
            let o = *selected_idx + 1 - vp;
            *scroll_offset = if o < max_off {
                o
            } else {
                max_off
            };
        }
    }
}

/// One step of an optional selection: moving down from no selection selects the first
/// visible row, moving up from the very top clears the selection.
pub open spec fn opt_list_step(sel: Option<int>, off: int, total: int, vph: usize, up: bool) -> (Option<int>, int) {
    if total == 0 {
        (sel, off)
    } else {
        match sel {
            None => if up {
                (None, off)
            } else {
                (Some(if off < total - 1 {
                    off
                } else {
                    total - 1
                }), off)
            },
            Some(i) => if up && i == 0 && off == 0 {
                (None, off)
            } else {
                let (s, o) = list_step(i, off, total, vph, up);
                (Some(s), o)
            },
        }
    }
}

/// The view of an optional index.
pub open spec fn opt_int(o: Option<usize>) -> Option<int> {
    match o {
        Some(i) => Some(i as int),
        None => None,
    }
}

/// Moves an optional selection one row up or down (see `opt_list_step`).
pub fn scroll_opt_list_step(
    selected_idx: &mut Option<usize>,
    scroll_offset: &mut usize,
    total: usize,
    viewport_height: usize,
    up: bool,
)
    requires
        *old(scroll_offset) + vp_of(viewport_height) <= usize::MAX,
    ensures
        (opt_int(*final(selected_idx)), *final(scroll_offset) as int) == opt_list_step(
            opt_int(*old(selected_idx)),
            *old(scroll_offset) as int,
            total as int,
            viewport_height,
            up,
        ),
{
    if total == 0 {
        return;
    }
    match *selected_idx {
        None => {
            if !up {
                let s = if *scroll_offset < total - 1 {
                    *scroll_offset
                } else {
                    total - 1
                };
                *selected_idx = Some(s);
            }
        },
        Some(i) => {
            if up && i == 0 && *scroll_offset == 0 {
                *selected_idx = None;
                return;
            }
            let mut idx = i;
            scroll_list_step(&mut idx, scroll_offset, total, viewport_height, up);
            *selected_idx = Some(idx);
        },
    }
}

/// One step of the view (the scrollbar arrows): the view scrolls by one row while it can,
/// else the selection moves; the selection stays in view.
pub open spec fn list_view_step(sel: int, off: int, total: int, vph: usize, up: bool) -> (int, int) {
    if total == 0 {
        (sel, off)
    } else {
        let vp = vp_of(vph);
        if up {
            let (s, o) = if off > 0 {
                (if sel > 0 {
                    sel - 1
                } else {
                    0
                }, off - 1)
            } else if sel > 0 {
                (sel - 1, off)
            } else {
                (sel, off)
            };
            (if s >= o + vp {
                let c = o + vp - 1;
                if c < total - 1 {
                    c
                } else {
                    total - 1
                }
            } else {
                s
            }, o)
        } else {
            let (s, o) = if off < max_offset(total, vp) {
                (if sel + 1 < total - 1 {
                    sel + 1
                } else {
                    total - 1
                }, off + 1)
            } else if sel < total - 1 {
                (sel + 1, off)
            } else {
                (sel, off)
            };
            (if s < o {
                o
            } else {
                s
            }, o)
        }
    }
}

/// Scrolls the view of a list by one row (see `list_view_step`).
pub fn scroll_list_view_step(
    selected_idx: &mut usize,
    scroll_offset: &mut usize,
    total: usize,
    viewport_height: usize,
    up: bool,
)
    requires
        *old(scroll_offset) + vp_of(viewport_height) <= usize::MAX,
        *old(selected_idx) < usize::MAX,
    ensures
        (*final(selected_idx) as int, *final(scroll_offset) as int) == list_view_step(
            *old(selected_idx) as int,
            *old(scroll_offset) as int,
            total as int,
            viewport_height,
            up,
        ),
{
    if total == 0 {
        return;
    }
    let vp: usize = if viewport_height == 0 {
        1
    } else {
        viewport_height
    };
    let max_off: usize = if total > vp {
        total - vp
    } else {
        0
    };
    if up {
        if *scroll_offset > 0 {
            *scroll_offset = *scroll_offset - 1;
            *selected_idx = if *selected_idx > 0 {
                *selected_idx - 1
            } else {
                0
            };
        } else if *selected_idx > 0 {
            *selected_idx = *selected_idx - 1;
        }
        if *selected_idx >= *scroll_offset + vp {
            let c = *scroll_offset + vp - 1;
            *selected_idx = if c < total - 1 {
                c
            } else {
                total - 1
            };
        }
    } else {
        if *scroll_offset < max_off {
            *scroll_offset = *scroll_offset + 1;
            *selected_idx = if *selected_idx + 1 < total - 1 {
                *selected_idx + 1
            } else {
                total - 1
            };
        } else if *selected_idx < total - 1 {
            *selected_idx = *selected_idx + 1;
        }
        if *selected_idx < *scroll_offset {
            *selected_idx = *scroll_offset;
        }
    }
}

/// One step of the view with an optional selection: as `list_view_step`, except that moving
/// up from the top row with the view at the top clears the selection, and without a
/// selection only the view moves.
pub open spec fn opt_list_view_step(sel: Option<int>, off: int, total: int, vph: usize, up: bool) -> (Option<int>, int) {
    if total == 0 {
        (sel, off)
    } else {
        let vp = vp_of(vph);
        if up {
            if off > 0 {
                let s = match sel {
                    Some(i) => Some(if i > 0 {
                        i - 1
                    } else {
                        0
                    }),
                    None => None,
                };
                (clamp_below(s, off - 1, vp, total), off - 1)
            } else {
                match sel {
                    None => (None, off),
                    Some(i) => if i > 0 {
                        (clamp_below(Some(i - 1), off, vp, total), off)
                    } else {
                        (None, off)
                    },
                }
            }
        } else {
            let (s, o) = if off < max_offset(total, vp) {
                (match sel {
                    Some(i) => Some(if i + 1 < total - 1 {
                        i + 1
                    } else {
                        total - 1
                    }),
                    None => None,
                }, off + 1)
            } else {
                (match sel {
                    Some(i) => Some(if i < total - 1 {
                        i + 1
                    } else {
                        i
                    }),
                    None => None,
                }, off)
            };
            (match s {
                Some(i) => Some(if i < o {
                    o
                } else {
                    i
                }),
                None => None,
            }, o)
        }
    }
}

/// A selection that has fallen below the view is brought back to its last row.
pub open spec fn clamp_below(sel: Option<int>, off: int, vp: int, total: int) -> Option<int> {
    match sel {
        Some(i) => Some(if i >= off + vp {
            let c = off + vp - 1;
            if c < total - 1 {
                c
            } else {
                total - 1
            }
        } else {
            i
        }),
        None => None,
    }
}

/// Scrolls the view of a list with an optional selection by one row (see
/// `opt_list_view_step`).
pub fn scroll_opt_list_view_step(
    selected_idx: &mut Option<usize>,
    scroll_offset: &mut usize,
    total: usize,
    viewport_height: usize,
    up: bool,
)
    requires
        *old(scroll_offset) + vp_of(viewport_height) <= usize::MAX,
        old(selected_idx).is_some() ==> old(selected_idx).unwrap() < usize::MAX,
    ensures
        (opt_int(*final(selected_idx)), *final(scroll_offset) as int) == opt_list_view_step(
            opt_int(*old(selected_idx)),
            *old(scroll_offset) as int,
            total as int,
            viewport_height,
            up,
        ),
{
    if total == 0 {
        return;
    }
    let vp: usize = if viewport_height == 0 {
        1
    } else {
        viewport_height
    };
    let max_off: usize = if total > vp {
        total - vp
    } else {
        0
    };
    if up {
        if *scroll_offset > 0 {
            *scroll_offset = *scroll_offset - 1;
            if let Some(i) = *selected_idx {
                *selected_idx = Some(
                    if i > 0 {
                        i - 1
                    } else {
                        0
                    },
                );
            }
        } else if let Some(i) = *selected_idx {
            if i > 0 {
                *selected_idx = Some(i - 1);
            } else {
                *selected_idx = None;
                return;
            }
        }
        if let Some(i) = *selected_idx {
            if i >= *scroll_offset + vp {
                let c = *scroll_offset + vp - 1;
                *selected_idx = Some(
                    if c < total - 1 {
                        c
                    } else {
                        total - 1
                    },
                );
            }
        }
    } else {
        if *scroll_offset < max_off {
            *scroll_offset = *scroll_offset + 1;
            if let Some(i) = *selected_idx {
                *selected_idx = Some(
                    if i + 1 < total - 1 {
                        i + 1
                    } else {
                        total - 1
                    },
                );
            }
        } else if let Some(i) = *selected_idx {
            if i < total - 1 {
                *selected_idx = Some(i + 1);
            }
        }
        if let Some(i) = *selected_idx {
            if i < *scroll_offset {
                *selected_idx = Some(*scroll_offset);
            }
        }
    }
}

/// Where a scrollbar drag sends the view: the top, the bottom, or a given offset.
#[derive(Debug, Clone, Copy, PartialEq, Eq, Structural)]
pub enum ScrollJump {
    Start,
    End,
    To(usize),
}

/// The offset a jump sends the view to (a given offset is kept within the last page).
pub open spec fn jump_offset(j: ScrollJump, total: int, vp: int) -> int {
    match j {
        ScrollJump::Start => 0,
        ScrollJump::End => max_offset(total, vp),
        ScrollJump::To(k) => if k < max_offset(total, vp) {
            k as int
        } else {
            max_offset(total, vp)
        },
    }
}

/// The row selected after a jump: the last visible row at the bottom, the first at the top,
/// and otherwise the previous selection brought into view.
pub open spec fn jump_selection(sel: int, j: ScrollJump, total: int, vp: int) -> int {
    let o = jump_offset(j, total, vp);
    let last = if o + vp - 1 < total - 1 {
        o + vp - 1
    } else {
        total - 1
    };
    match j {
        ScrollJump::End => last,
        ScrollJump::Start => if o < total - 1 {
            o
        } else {
            total - 1
        },
        ScrollJump::To(_) => if sel < o {
            o
        } else if sel >= o + vp {
            last
        } else {
            sel
        },
    }
}

/// Moves the view of a list as a scrollbar drag asks, keeping the selection in view.
pub fn scroll_list_jump(
    selected_idx: &mut usize,
    scroll_offset: &mut usize,
    total: usize,
    viewport_height: usize,
    jump: ScrollJump,
)
    ensures
        total == 0 ==> *final(selected_idx) == *old(selected_idx) && *final(scroll_offset)
            == *old(scroll_offset),
        total > 0 ==> *final(scroll_offset) as int == jump_offset(
            jump,
            total as int,
            vp_of(viewport_height),
        ),
        total > 0 ==> *final(selected_idx) as int == jump_selection(
            *old(selected_idx) as int,
            jump,
            total as int,
            vp_of(viewport_height),
        ),
{
    if total == 0 {
        return;
    }
    let vp: usize = if viewport_height == 0 {
        1
    } else {
        viewport_height
    };
    let max_off: usize = if total > vp {
        total - vp
    } else {
        0
    };
    let o: usize = match jump {
        ScrollJump::Start => 0,
        ScrollJump::End => max_off,
        ScrollJump::To(k) => if k < max_off {
            k
        } else {
            max_off
        },
    };
    *scroll_offset = o;
    let last: usize = if o + (vp - 1) < total - 1 {
        o + (vp - 1)
    } else {
        total - 1
    };
    match jump {
        ScrollJump::End => {
            *selected_idx = last;
        },
        ScrollJump::Start => {
            *selected_idx = if o < total - 1 {
                o
            } else {
                total - 1
            };
        },
        ScrollJump::To(_) => {
            if *selected_idx < o {
                *selected_idx = o;
            } else if *selected_idx >= o + vp {
                *selected_idx = last;
            }
        },
    }
}

/// The optional selection after a jump: as `jump_selection`, except that without a
/// selection only a jump to an end selects a row.
pub open spec fn opt_jump_selection(sel: Option<int>, j: ScrollJump, total: int, vp: int) -> Option<int> {
    match (j, sel) {
        (ScrollJump::To(_), None) => None,
        (ScrollJump::To(_), Some(i)) => Some(jump_selection(i, j, total, vp)),
        _ => Some(jump_selection(0, j, total, vp)),
    }
}

/// Moves the view of a list with an optional selection as a scrollbar drag asks.
pub fn scroll_opt_list_jump(
    selected_idx: &mut Option<usize>,
    scroll_offset: &mut usize,
    total: usize,
    viewport_height: usize,
    jump: ScrollJump,
)
    ensures
        total == 0 ==> *final(selected_idx) == *old(selected_idx) && *final(scroll_offset)
            == *old(scroll_offset),
        total > 0 ==> *final(scroll_offset) as int == jump_offset(
            jump,
            total as int,
            vp_of(viewport_height),
        ),
        total > 0 ==> opt_int(*final(selected_idx)) == opt_jump_selection(
            opt_int(*old(selected_idx)),
            jump,
            total as int,
            vp_of(viewport_height),
        ),
{
    if total == 0 {
        return;
    }
    let mut sel: usize = match *selected_idx {
        Some(i) => i,
        None => 0,
    };
    let keep_none = match jump {
        ScrollJump::To(_) => selected_idx.is_none(),
        _ => false,
    };
    scroll_list_jump(&mut sel, scroll_offset, total, viewport_height, jump);
    if !keep_none {
        *selected_idx = Some(sel);
    }
}

/// A keyboard step keeps a consistent list position consistent.
pub proof fn law_step_keeps_position(sel: int, off: int, total: int, vph: usize, up: bool)
    requires
        list_wf(sel, off, total, vp_of(vph)),
    ensures
        list_wf(
            list_step(sel, off, total, vph, up).0,
            list_step(sel, off, total, vph, up).1,
            total,
            vp_of(vph),
        ),
{
}

/// A keyboard step down then up, away from the list's ends and with the view not moving,
/// comes back to the same row.
pub proof fn law_step_down_up(sel: int, off: int, total: int, vph: usize)
    requires
        list_wf(sel, off, total, vp_of(vph)),
        sel + 1 < total,
        sel + 1 < off + vp_of(vph),
    ensures
        list_step(
            list_step(sel, off, total, vph, false).0,
            list_step(sel, off, total, vph, false).1,
            total,
            vph,
            true,
        ) == (sel, off),
{
}

/// A scrollbar step keeps a consistent list position consistent.
pub proof fn law_view_step_keeps_position(sel: int, off: int, total: int, vph: usize, up: bool)
    requires
        list_wf(sel, off, total, vp_of(vph)),
    ensures
        list_wf(
            list_view_step(sel, off, total, vph, up).0,
            list_view_step(sel, off, total, vph, up).1,
            total,
            vp_of(vph),
        ),
{
}

/// A scrollbar jump leaves a consistent list position, from any row of the list.
pub proof fn law_jump_consistent(sel: int, j: ScrollJump, total: int, vph: usize)
    requires
        0 <= sel < total,
    ensures
        list_wf(
            jump_selection(sel, j, total, vp_of(vph)),
            jump_offset(j, total, vp_of(vph)),
            total,
            vp_of(vph),
        ),
{
}

// ---------------------------------------------------------------------------
// Keeping a selection in view
// ---------------------------------------------------------------------------

/// The offset that brings row `sel` into a view of `vp` rows starting at `off`: unchanged when
/// the row is visible (or the view has no rows), else the row becomes the first or last one.
pub open spec fn offset_showing(sel: int, off: int, vp: int) -> int {
    if vp <= 0 {
        off
    } else if sel < off {
        sel
    } else if sel >= off + vp {
        sel - vp + 1
    } else {
        off
    }
}

fn offset_showing_exec(sel: usize, off: usize, vp: usize) -> (r: usize)
    ensures
        r == offset_showing(sel as int, off as int, vp as int),
{
    if vp == 0 {
        off
    } else if sel < off {
        sel
    } else if sel - off >= vp {
        sel - vp + 1
    } else {
        off
    }
}

/// Scrolls the history so that its selected run, if any, is visible (`viewport_height` 0:
/// nothing moves).
pub fn ensure_history_visible(selected: Option<usize>, scroll_offset: &mut usize, viewport_height: usize)
    ensures
        *final(scroll_offset) == match selected {
            Some(i) => offset_showing(i as int, *old(scroll_offset) as int, viewport_height as int),
            None => *old(scroll_offset) as int,
        },
{
    if let Some(i) = selected {
        *scroll_offset = offset_showing_exec(i, *scroll_offset, viewport_height);
    }
}

/// Scrolls the recent files so that the selected one, if any, is visible (a viewport of at
/// least one row).
pub fn ensure_recent_visible(selected: Option<usize>, scroll_offset: &mut usize, viewport_height: usize)
    ensures
        *final(scroll_offset) == match selected {
            Some(i) => offset_showing(i as int, *old(scroll_offset) as int, vp_of(viewport_height)),
            None => *old(scroll_offset) as int,
        },
{
    let vp: usize = if viewport_height == 0 {
        1
    } else {
        viewport_height
    };
    if let Some(i) = selected {
        *scroll_offset = offset_showing_exec(i, *scroll_offset, vp);
    }
}

/// Scrolls the filter rules so that the selected one is visible (`viewport_height` 0:
/// nothing moves).
pub fn ensure_filter_visible(selected: usize, scroll_offset: &mut usize, viewport_height: usize)
    ensures
        *final(scroll_offset) == offset_showing(
            selected as int,
            *old(scroll_offset) as int,
            viewport_height as int,
        ),
{
    *scroll_offset = offset_showing_exec(selected, *scroll_offset, viewport_height);
}

/// After bringing a row into view, the row is visible.
pub proof fn law_offset_shows_row(sel: int, off: int, vp: int)
    requires
        0 <= sel,
        0 <= off,
        vp > 0,
    ensures
        0 <= offset_showing(sel, off, vp) <= sel < offset_showing(sel, off, vp) + vp,
{
}

/// A visible row keeps the view where it is.
pub proof fn law_offset_kept_when_visible(sel: int, off: int, vp: int)
    requires
        off <= sel < off + vp,
    ensures
        offset_showing(sel, off, vp) == off,
{
}

} // verus!

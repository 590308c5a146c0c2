//! Scroll state of every list of the dashboard, and what the scrollbars do to it: an arrow
//! click moves one step, a drag on the track jumps.
use vstd::prelude::*;
use crate::dashboard::{FocusedPanel, ScrollbarTarget};
use crate::scroll::{
    ScrollJump, jump_offset, jump_selection, list_view_step, max_offset, opt_int, opt_jump_selection,
    opt_list_view_step, scroll_list_jump, scroll_list_view_step, scroll_opt_list_jump,
    scroll_opt_list_view_step, vp_of,
};

verus! {

/// Scroll positions and selections of the dashboard's lists.
#[derive(Debug, Clone, Copy, PartialEq, Eq, Structural)]
pub struct ListViews {
    pub focused_panel: FocusedPanel,
    /// Lines scrolled back from the end of the log.
    pub logs_scroll: usize,
    /// Whether the log follows its end.
    pub auto_scroll: bool,
    pub logs_viewport_height: usize,
    pub selected_run_idx: Option<usize>,
    pub history_scroll_offset: usize,
    pub history_viewport_height: usize,
    pub history_details_scroll: usize,
    pub history_selected_file_idx: usize,
    pub recent_selected_idx: Option<usize>,
    pub recent_scroll_offset: usize,
    pub recent_viewport_height: usize,
    pub file_selected_idx: usize,
    pub file_scroll_offset: usize,
    pub file_viewport_height: usize,
    pub selected_filter_idx: usize,
    pub filter_scroll_offset: usize,
    pub filter_viewport_height: usize,
    pub dry_run_scroll: usize,
}

/// Lengths of the lists (what the dashboard has to show at the moment).
#[derive(Debug, Clone, Copy, PartialEq, Eq, Structural)]
pub struct ListSizes {
    /// Log lines (after wrapping, when known).
    pub log_lines: usize,
    /// History rows (past runs, plus the run under way).
    pub history_rows: usize,
    pub recent_files: usize,
    /// Files of the run whose details are open.
    pub details_files: usize,
    pub file_entries: usize,
    /// Filter rows (plus one while a rule is being added).
    pub filter_rows: usize,
    pub dry_run_lines: usize,
}

/// `a - b`, or 0 when `b` is larger (`saturating_sub`).
pub open spec fn sat_sub(a: int, b: int) -> int {
    if a > b {
        a - b
    } else {
        0
    }
}

/// `max(a, m)`.
pub open spec fn at_least(a: usize, m: usize) -> usize {
    if a > m {
        a
    } else {
        m
    }
}

/// The lists as the dashboard starts: the recent files focused, the log at its end and
/// following it, nothing selected, every list at its top, and the default heights of the
/// viewports until the first drawing measures them (log 10, history 8, recent files 6, file
/// browser 15, filter rules 12).
pub open spec fn initial_views() -> ListViews {
    ListViews {
        focused_panel: FocusedPanel::RecentFiles,
        logs_scroll: 0,
        auto_scroll: true,
        logs_viewport_height: 10,
        selected_run_idx: None,
        history_scroll_offset: 0,
        history_viewport_height: 8,
        history_details_scroll: 0,
        history_selected_file_idx: 0,
        recent_selected_idx: None,
        recent_scroll_offset: 0,
        recent_viewport_height: 6,
        file_selected_idx: 0,
        file_scroll_offset: 0,
        file_viewport_height: 15,
        selected_filter_idx: 0,
        filter_scroll_offset: 0,
        filter_viewport_height: 12,
        dry_run_scroll: 0,
    }
}

impl ListViews {
    /// The lists as the dashboard starts (see `initial_views`).
    pub fn new() -> (r: Self)
        ensures
            r == initial_views(),
            views_bounded(r),
    {
        ListViews {
            focused_panel: FocusedPanel::RecentFiles,
            logs_scroll: 0,
            auto_scroll: true,
            logs_viewport_height: 10,
            selected_run_idx: None,
            history_scroll_offset: 0,
            history_viewport_height: 8,
            history_details_scroll: 0,
            history_selected_file_idx: 0,
            recent_selected_idx: None,
            recent_scroll_offset: 0,
            recent_viewport_height: 6,
            file_selected_idx: 0,
            file_scroll_offset: 0,
            file_viewport_height: 15,
            selected_filter_idx: 0,
            filter_scroll_offset: 0,
            filter_viewport_height: 12,
            dry_run_scroll: 0,
        }
    }
}

/// Offsets and selections are small enough that moving them by a viewport cannot overflow.
pub open spec fn views_bounded(v: ListViews) -> bool {
    &&& v.history_scroll_offset + at_least(v.history_viewport_height, 2) <= usize::MAX
    &&& v.recent_scroll_offset + at_least(v.recent_viewport_height, 1) <= usize::MAX
    &&& v.file_scroll_offset + at_least(v.file_viewport_height, 1) <= usize::MAX
    &&& v.filter_scroll_offset + at_least(v.filter_viewport_height, 1) <= usize::MAX
    &&& v.file_selected_idx < usize::MAX
    &&& v.selected_filter_idx < usize::MAX
    &&& (v.recent_selected_idx matches Some(i) ==> i < usize::MAX)
    &&& (v.selected_run_idx matches Some(i) ==> i < usize::MAX)
}

/// One scrollbar-arrow step of the history list: the view scrolls by one row while it can,
/// the selection following; moving up from the top row at the top clears the selection.
pub open spec fn history_step(sel: Option<int>, off: int, total: int, vp: int, up: bool) -> (Option<int>, int) {
    if total == 0 {
        (sel, off)
    } else if up {
        match sel {
            None => (None, off),
            Some(i) => if i == 0 && off == 0 {
                (None, off)
            } else {
                let s = if i < off {
                    off
                } else if i >= off + vp {
                    off + vp - 1
                } else {
                    i
                };
                if off > 0 {
                    (Some(if s > 0 {
                        s - 1
                    } else {
                        0
                    }), off - 1)
                } else if s > 0 {
                    (Some(s - 1), off)
                } else {
                    (Some(i), off)
                }
            },
        }
    } else {
        match sel {
            None => (Some(if off < total - 1 {
                off
            } else {
                total - 1
            }), off),
            Some(i) => {
                let s = if i < off {
                    off
                } else if i >= off + vp {
                    off + vp - 1
                } else {
                    i
                };
                if off < max_offset(total, vp) {
                    (Some(if s + 1 < total - 1 {
                        s + 1
                    } else {
                        total - 1
                    }), off + 1)
                } else if s < total - 1 {
                    (Some(s + 1), off)
                } else {
                    (Some(i), off)
                }
            },
        }
    }
}

/// What a scrollbar-arrow click on `target` does to the views.
pub open spec fn scrollbar_step(v: ListViews, target: ScrollbarTarget, up: bool, n: ListSizes) -> ListViews {
    match target {
        ScrollbarTarget::Logs => {
            let w = ListViews { focused_panel: FocusedPanel::Logs, ..v };
            if up {
                let max_scroll = sat_sub(n.log_lines as int, at_least(v.logs_viewport_height, 3) as int);
                if max_scroll > 0 && v.logs_scroll < max_scroll {
                    ListViews { auto_scroll: false, logs_scroll: (v.logs_scroll + 1) as usize, ..w }
                } else {
                    w
                }
            } else if v.logs_scroll > 0 {
                ListViews {
                    logs_scroll: (v.logs_scroll - 1) as usize,
                    auto_scroll: if v.logs_scroll == 1 {
                        true
                    } else {
                        v.auto_scroll
                    },
                    ..w
                }
            } else {
                w
            }
        },
        ScrollbarTarget::History => {
            let (s, o) = history_step(
                opt_int(v.selected_run_idx),
                v.history_scroll_offset as int,
                n.history_rows as int,
                at_least(v.history_viewport_height, 2) as int,
                up,
            );
            ListViews {
                focused_panel: FocusedPanel::History,
                selected_run_idx: match s {
                    Some(i) => Some(i as usize),
                    None => None,
                },
                history_scroll_offset: o as usize,
                ..v
            }
        },
        ScrollbarTarget::RecentFiles => {
            let (s, o) = opt_list_view_step(
                opt_int(v.recent_selected_idx),
                v.recent_scroll_offset as int,
                n.recent_files as int,
                at_least(v.recent_viewport_height, 1),
                up,
            );
            ListViews {
                focused_panel: FocusedPanel::RecentFiles,
                recent_selected_idx: match s {
                    Some(i) => Some(i as usize),
                    None => None,
                },
                recent_scroll_offset: o as usize,
                ..v
            }
        },
        ScrollbarTarget::HistoryDetails(_) => {
            if up {
                if v.history_details_scroll > 0 {
                    ListViews { history_details_scroll: (v.history_details_scroll - 1) as usize, ..v }
                } else {
                    v
                }
            } else if v.history_details_scroll < sat_sub(n.details_files as int, 5) {
                ListViews { history_details_scroll: (v.history_details_scroll + 1) as usize, ..v }
            } else {
                v
            }
        },
        ScrollbarTarget::Files => {
            let (s, o) = list_view_step(
                v.file_selected_idx as int,
                v.file_scroll_offset as int,
                n.file_entries as int,
                at_least(v.file_viewport_height, 1),
                up,
            );
            ListViews { file_selected_idx: s as usize, file_scroll_offset: o as usize, ..v }
        },
        ScrollbarTarget::Filters => {
            let (s, o) = list_view_step(
                v.selected_filter_idx as int,
                v.filter_scroll_offset as int,
                n.filter_rows as int,
                at_least(v.filter_viewport_height, 1),
                up,
            );
            ListViews { selected_filter_idx: s as usize, filter_scroll_offset: o as usize, ..v }
        },
        ScrollbarTarget::DryRun => {
            if up {
                ListViews { dry_run_scroll: sat_sub(v.dry_run_scroll as int, 1) as usize, ..v }
            } else if v.dry_run_scroll < sat_sub(n.dry_run_lines as int, 5) {
                ListViews { dry_run_scroll: (v.dry_run_scroll + 1) as usize, ..v }
            } else {
                v
            }
        },
    }
}

/// The position a jump gives on a scale of `0..=max` (a given position is kept within it).
pub open spec fn jump_pos(j: ScrollJump, max: int) -> int {
    match j {
        ScrollJump::Start => 0,
        ScrollJump::End => max,
        ScrollJump::To(k) => if k < max {
            k as int
        } else {
            max
        },
    }
}

/// The scale a drag on `target`'s track is measured on: the largest offset of that list.
pub open spec fn jump_scale_of(v: ListViews, target: ScrollbarTarget, total: int, visible: int) -> int {
    match target {
        ScrollbarTarget::History => max_offset(total, at_least(v.history_viewport_height, 2) as int),
        ScrollbarTarget::RecentFiles => max_offset(total, at_least(v.recent_viewport_height, 1) as int),
        ScrollbarTarget::Files => max_offset(total, at_least(v.file_viewport_height, 1) as int),
        ScrollbarTarget::Filters => max_offset(total, at_least(v.filter_viewport_height, 1) as int),
        _ => sat_sub(total, visible),
    }
}

/// The selected file of the run details after a jump of the details view to `top`.
pub open spec fn details_selection(sel: int, j: ScrollJump, top: int, files: int, vp: int) -> int {
    let last = if top + vp - 1 < files - 1 {
        top + vp - 1
    } else {
        files - 1
    };
    match j {
        ScrollJump::End => last,
        ScrollJump::Start => if top < files - 1 {
            top
        } else {
            files - 1
        },
        ScrollJump::To(_) => if sel < top {
            top
        } else if sel >= top + vp {
            last
        } else {
            sel
        },
    }
}

/// What a drag on `target`'s scrollbar track does to the views, for a list of `total` rows
/// of which `visible` fit. Nothing happens when everything fits.
pub open spec fn scrollbar_jump(
    v: ListViews,
    target: ScrollbarTarget,
    j: ScrollJump,
    total: int,
    visible: int,
    details_files: int,
) -> ListViews {
    if total <= visible {
        v
    } else {
        let max_scroll = total - visible;
        match target {
            ScrollbarTarget::Logs => {
                let pos = jump_pos(j, max_scroll);
                ListViews {
                    focused_panel: FocusedPanel::Logs,
                    logs_scroll: (max_scroll - pos) as usize,
                    auto_scroll: max_scroll - pos == 0,
                    ..v
                }
            },
            ScrollbarTarget::History => {
                let vp = at_least(v.history_viewport_height, 2) as int;
                ListViews {
                    focused_panel: FocusedPanel::History,
                    history_scroll_offset: jump_offset(j, total, vp) as usize,
                    selected_run_idx: match opt_jump_selection(opt_int(v.selected_run_idx), j, total, vp) {
                        Some(i) => Some(i as usize),
                        None => None,
                    },
                    ..v
                }
            },
            ScrollbarTarget::RecentFiles => {
                let vp = at_least(v.recent_viewport_height, 1) as int;
                ListViews {
                    focused_panel: FocusedPanel::RecentFiles,
                    recent_scroll_offset: jump_offset(j, total, vp) as usize,
                    recent_selected_idx: match opt_jump_selection(
                        opt_int(v.recent_selected_idx),
                        j,
                        total,
                        vp,
                    ) {
                        Some(i) => Some(i as usize),
                        None => None,
                    },
                    ..v
                }
            },
            ScrollbarTarget::HistoryDetails(_) => {
                let top = jump_pos(j, max_scroll);
                let vp = if visible > 1 {
                    visible
                } else {
                    1
                };
                ListViews {
                    history_details_scroll: top as usize,
                    history_selected_file_idx: if details_files > 0 {
                        details_selection(v.history_selected_file_idx as int, j, top, details_files, vp) as usize
                    } else {
                        v.history_selected_file_idx
                    },
                    ..v
                }
            },
            ScrollbarTarget::Files => {
                let vp = at_least(v.file_viewport_height, 1) as int;
                ListViews {
                    file_scroll_offset: jump_offset(j, total, vp) as usize,
                    file_selected_idx: jump_selection(v.file_selected_idx as int, j, total, vp) as usize,
                    ..v
                }
            },
            ScrollbarTarget::Filters => {
                let vp = at_least(v.filter_viewport_height, 1) as int;
                ListViews {
                    filter_scroll_offset: jump_offset(j, total, vp) as usize,
                    selected_filter_idx: jump_selection(v.selected_filter_idx as int, j, total, vp) as usize,
                    ..v
                }
            },
            ScrollbarTarget::DryRun => ListViews { dry_run_scroll: jump_pos(j, max_scroll) as usize, ..v },
        }
    }
}

fn at_least_exec(a: usize, m: usize) -> (r: usize)
    ensures
        r == at_least(a, m),
{
    if a > m {
        a
    } else {
        m
    }
}

impl ListViews {
    /// One scrollbar-arrow click on `target`'s scrollbar (see `scrollbar_step`).
    pub fn apply_scrollbar_step(&mut self, target: ScrollbarTarget, up: bool, sizes: &ListSizes)
        requires
            views_bounded(*old(self)),
        ensures
            *final(self) == scrollbar_step(*old(self), target, up, *sizes),
    {
        match target {
            ScrollbarTarget::Logs => {
                self.focused_panel = FocusedPanel::Logs;
                if up {
                    let visible = at_least_exec(self.logs_viewport_height, 3);
                    let max_scroll: usize = if sizes.log_lines > visible {
                        sizes.log_lines - visible
                    } else {
                        0
                    };
                    if max_scroll > 0 && self.logs_scroll < max_scroll {
                        self.auto_scroll = false;
                        self.logs_scroll = self.logs_scroll + 1;
                    }
                } else if self.logs_scroll > 0 {
                    self.logs_scroll = self.logs_scroll - 1;
                    if self.logs_scroll == 0 {
                        self.auto_scroll = true;
                    }
                }
            },
            ScrollbarTarget::History => {
                self.focused_panel = FocusedPanel::History;
                let vp = at_least_exec(self.history_viewport_height, 2);
                self.history_step(sizes.history_rows, vp, up);
            },
            ScrollbarTarget::RecentFiles => {
                self.focused_panel = FocusedPanel::RecentFiles;
                let vp = at_least_exec(self.recent_viewport_height, 1);
                let mut sel = self.recent_selected_idx;
                let mut off = self.recent_scroll_offset;
                scroll_opt_list_view_step(&mut sel, &mut off, sizes.recent_files, vp, up);
                self.recent_selected_idx = sel;
                self.recent_scroll_offset = off;
            },
            ScrollbarTarget::HistoryDetails(_) => {
                if up {
                    if self.history_details_scroll > 0 {
                        self.history_details_scroll = self.history_details_scroll - 1;
                    }
                } else {
                    let max_scroll: usize = if sizes.details_files > 5 {
                        sizes.details_files - 5
                    } else {
                        0
                    };
                    if self.history_details_scroll < max_scroll {
                        self.history_details_scroll = self.history_details_scroll + 1;
                    }
                }
            },
            ScrollbarTarget::Files => {
                let vp = at_least_exec(self.file_viewport_height, 1);
                let mut sel = self.file_selected_idx;
                let mut off = self.file_scroll_offset;
                scroll_list_view_step(&mut sel, &mut off, sizes.file_entries, vp, up);
                self.file_selected_idx = sel;
                self.file_scroll_offset = off;
            },
            ScrollbarTarget::Filters => {
                let vp = at_least_exec(self.filter_viewport_height, 1);
                let mut sel = self.selected_filter_idx;
                let mut off = self.filter_scroll_offset;
                scroll_list_view_step(&mut sel, &mut off, sizes.filter_rows, vp, up);
                self.selected_filter_idx = sel;
                self.filter_scroll_offset = off;
            },
            ScrollbarTarget::DryRun => {
                if up {
                    if self.dry_run_scroll > 0 {
                        self.dry_run_scroll = self.dry_run_scroll - 1;
                    }
                } else {
                    let max_dry: usize = if sizes.dry_run_lines > 5 {
                        sizes.dry_run_lines - 5
                    } else {
                        0
                    };
                    if self.dry_run_scroll < max_dry {
                        self.dry_run_scroll = self.dry_run_scroll + 1;
                    }
                }
            },
        }
    }

    /// One step of the history list (see `history_step`).
    fn history_step(&mut self, total: usize, vp: usize, up: bool)
        requires
            vp >= 1,
            old(self).history_scroll_offset + vp <= usize::MAX,
            old(self).selected_run_idx matches Some(i) ==> i < usize::MAX,
        ensures
            (opt_int(final(self).selected_run_idx), final(self).history_scroll_offset as int)
                == history_step(
                opt_int(old(self).selected_run_idx),
                old(self).history_scroll_offset as int,
                total as int,
                vp as int,
                up,
            ),
            *final(self) == (ListViews {
                selected_run_idx: final(self).selected_run_idx,
                history_scroll_offset: final(self).history_scroll_offset,
                ..*old(self)
            }),
    {
        if total == 0 {
            return;
        }
        let off = self.history_scroll_offset;
        let max_off: usize = if total > vp {
            total - vp
        } else {
            0
        };
        match self.selected_run_idx {
            None => {
                if !up {
                    self.selected_run_idx = Some(
                        if off < total - 1 {
                            off
                        } else {
                            total - 1
                        },
                    );
                }
            },
            Some(i) => {
                if up && i == 0 && off == 0 {
                    self.selected_run_idx = None;
                    return;
                }
                let s = if i < off {
                    off
                } else if i >= off + vp {
                    off + vp - 1
                } else {
                    i
                };
                if up {
                    if off > 0 {
                        self.history_scroll_offset = off - 1;
                        self.selected_run_idx = Some(
                            if s > 0 {
                                s - 1
                            } else {
                                0
                            },
                        );
                    } else if s > 0 {
                        self.selected_run_idx = Some(s - 1);
                    }
                } else {
                    if off < max_off {
                        self.history_scroll_offset = off + 1;
                        self.selected_run_idx = Some(
                            if s + 1 < total - 1 {
                                s + 1
                            } else {
                                total - 1
                            },
                        );
                    } else if s < total - 1 {
                        self.selected_run_idx = Some(s + 1);
                    }
                }
            },
        }
    }

    /// The scale on which a drag on `target`'s track is measured (the largest offset of that
    /// list); a drag at a fraction `f` of the track asks for the position `f` times this.
    pub fn jump_scale(&self, target: ScrollbarTarget, total: usize, visible: usize) -> (r: usize)
        ensures
            r as int == jump_scale_of(*self, target, total as int, visible as int),
    {
        let vp = match target {
            ScrollbarTarget::History => at_least_exec(self.history_viewport_height, 2),
            ScrollbarTarget::RecentFiles => at_least_exec(self.recent_viewport_height, 1),
            ScrollbarTarget::Files => at_least_exec(self.file_viewport_height, 1),
            ScrollbarTarget::Filters => at_least_exec(self.filter_viewport_height, 1),
            _ => visible,
        };
        if total > vp {
            total - vp
        } else {
            0
        }
    }

    /// A drag on `target`'s scrollbar track (see `scrollbar_jump`); `details_files` is the
    /// number of files of the run whose details are open.
    pub fn apply_scrollbar_jump(
        &mut self,
        target: ScrollbarTarget,
        jump: ScrollJump,
        total: usize,
        visible: usize,
        details_files: usize,
    )
        ensures
            *final(self) == scrollbar_jump(
                *old(self),
                target,
                jump,
                total as int,
                visible as int,
                details_files as int,
            ),
    {
        if total <= visible {
            return;
        }
        let max_scroll = total - visible;
        let pos: usize = match jump {
            ScrollJump::Start => 0,
            ScrollJump::End => max_scroll,
            ScrollJump::To(k) => if k < max_scroll {
                k
            } else {
                max_scroll
            },
        };
        match target {
            ScrollbarTarget::Logs => {
                self.focused_panel = FocusedPanel::Logs;
                self.logs_scroll = max_scroll - pos;
                self.auto_scroll = max_scroll - pos == 0;
            },
            ScrollbarTarget::History => {
                self.focused_panel = FocusedPanel::History;
                let vp = at_least_exec(self.history_viewport_height, 2);
                let mut sel = self.selected_run_idx;
                let mut off = self.history_scroll_offset;
                scroll_opt_list_jump(&mut sel, &mut off, total, vp, jump);
                self.selected_run_idx = sel;
                self.history_scroll_offset = off;
            },
            ScrollbarTarget::RecentFiles => {
                self.focused_panel = FocusedPanel::RecentFiles;
                let vp = at_least_exec(self.recent_viewport_height, 1);
                let mut sel = self.recent_selected_idx;
                let mut off = self.recent_scroll_offset;
                scroll_opt_list_jump(&mut sel, &mut off, total, vp, jump);
                self.recent_selected_idx = sel;
                self.recent_scroll_offset = off;
            },
            ScrollbarTarget::HistoryDetails(_) => {
                self.history_details_scroll = pos;
                if details_files > 0 {
                    let vp: usize = if visible > 1 {
                        visible
                    } else {
                        1
                    };
                    let last: usize = if pos as u128 + vp as u128 - 1 < details_files as u128 - 1 {
                        pos + vp - 1
                    } else {
                        details_files - 1
                    };
                    match jump {
                        ScrollJump::End => {
                            self.history_selected_file_idx = last;
                        },
                        ScrollJump::Start => {
                            self.history_selected_file_idx = if pos < details_files - 1 {
                                pos
                            } else {
                                details_files - 1
                            };
                        },
                        ScrollJump::To(_) => {
                            if self.history_selected_file_idx < pos {
                                self.history_selected_file_idx = pos;
                            } else if self.history_selected_file_idx as u128 >= pos as u128 + vp as u128 {
                                self.history_selected_file_idx = last;
                            }
                        },
                    }
                }
            },
            ScrollbarTarget::Files => {
                let vp = at_least_exec(self.file_viewport_height, 1);
                let mut sel = self.file_selected_idx;
                let mut off = self.file_scroll_offset;
                scroll_list_jump(&mut sel, &mut off, total, vp, jump);
                self.file_selected_idx = sel;
                self.file_scroll_offset = off;
            },
            ScrollbarTarget::Filters => {
                let vp = at_least_exec(self.filter_viewport_height, 1);
                let mut sel = self.selected_filter_idx;
                let mut off = self.filter_scroll_offset;
                scroll_list_jump(&mut sel, &mut off, total, vp, jump);
                self.selected_filter_idx = sel;
                self.filter_scroll_offset = off;
            },
            ScrollbarTarget::DryRun => {
                self.dry_run_scroll = pos;
            },
        }
    }

    /// Position of the scrollbar thumb of `target`: how far the view is from the top, within
    /// `0..=total - visible` (the log counts from its end).
    pub fn get_scrollbar_current_pos(&self, target: ScrollbarTarget, total: usize, visible: usize) -> (r: usize)
        ensures
            r as int == ({
                let m = sat_sub(total as int, visible as int);
                let clamp = |x: usize|
                    if x < m {
                        x as int
                    } else {
                        m
                    };
                match target {
                    ScrollbarTarget::Logs => if self.auto_scroll {
                        m
                    } else {
                        sat_sub(m, self.logs_scroll as int)
                    },
                    ScrollbarTarget::History => clamp(self.history_scroll_offset),
                    ScrollbarTarget::RecentFiles => clamp(self.recent_scroll_offset),
                    ScrollbarTarget::HistoryDetails(_) => clamp(self.history_details_scroll),
                    ScrollbarTarget::Files => clamp(self.file_scroll_offset),
                    ScrollbarTarget::Filters => clamp(self.filter_scroll_offset),
                    ScrollbarTarget::DryRun => clamp(self.dry_run_scroll),
                }
            }),
    {
        let m: usize = if total > visible {
            total - visible
        } else {
            0
        };
        let pick = match target {
            ScrollbarTarget::Logs => {
                return if self.auto_scroll {
                    m
                } else if m > self.logs_scroll {
                    m - self.logs_scroll
                } else {
                    0
                };
            },
            ScrollbarTarget::History => self.history_scroll_offset,
            ScrollbarTarget::RecentFiles => self.recent_scroll_offset,
            ScrollbarTarget::HistoryDetails(_) => self.history_details_scroll,
            ScrollbarTarget::Files => self.file_scroll_offset,
            ScrollbarTarget::Filters => self.filter_scroll_offset,
            ScrollbarTarget::DryRun => self.dry_run_scroll,
        };
        if pick < m {
            pick
        } else {
            m
        }
    }

    /// Keeps the log scroll within what the log can scroll back.
    pub fn clamp_logs_scroll(&mut self, total_lines: usize, visible_height: usize)
        ensures
            *final(self) == (ListViews {
                logs_scroll: if old(self).logs_scroll as int > sat_sub(
                    total_lines as int,
                    visible_height as int,
                ) {
                    sat_sub(total_lines as int, visible_height as int) as usize
                } else {
                    old(self).logs_scroll
                },
                ..*old(self)
            }),
    {
        let max_scroll: usize = if total_lines > visible_height {
            total_lines - visible_height
        } else {
            0
        };
        if self.logs_scroll > max_scroll {
            self.logs_scroll = max_scroll;
        }
    }
}

/// A drag on a list's track leaves a consistent position: the selection is a row, visible,
/// and the view does not pass the last page.
pub proof fn law_jump_keeps_files_consistent(v: ListViews, j: ScrollJump, total: int, visible: int)
    requires
        0 <= visible < total <= usize::MAX,
        v.file_selected_idx < total,
    ensures
        crate::scroll::list_wf(
            scrollbar_jump(v, ScrollbarTarget::Files, j, total, visible, 0).file_selected_idx as int,
            scrollbar_jump(v, ScrollbarTarget::Files, j, total, visible, 0).file_scroll_offset as int,
            total,
            at_least(v.file_viewport_height, 1) as int,
        ),
{
    crate::scroll::law_jump_consistent(
        v.file_selected_idx as int,
        j,
        total,
        at_least(v.file_viewport_height, 1),
    );
}

} // verus!

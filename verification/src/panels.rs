//! Which boxes of the dashboard are shown, and how the keyboard focus moves among the
//! panels that are.
use vstd::prelude::*;
use crate::dashboard::{FocusedPanel, panel_at, panel_pos};

verus! {

/// The five boxes of the dashboard, numbered 1 to 5 as their toggle keys: disks and cloud,
/// metrics, history, logs, recent files.
#[derive(Debug, Clone, Copy, PartialEq, Eq, Structural)]
pub struct BoxVisibility {
    pub cadrans: bool,
    pub metrics: bool,
    pub history: bool,
    pub logs: bool,
    pub recent: bool,
}

/// Whether box `n` (1 to 5) is shown; no other number names a box.
pub open spec fn box_shown(b: BoxVisibility, n: int) -> bool {
    if n == 1 {
        b.cadrans
    } else if n == 2 {
        b.metrics
    } else if n == 3 {
        b.history
    } else if n == 4 {
        b.logs
    } else if n == 5 {
        b.recent
    } else {
        false
    }
}

/// Whether the box of a focusable panel is shown.
pub open spec fn panel_shown(b: BoxVisibility, p: FocusedPanel) -> bool {
    match p {
        FocusedPanel::History => b.history,
        FocusedPanel::Logs => b.logs,
        FocusedPanel::RecentFiles => b.recent,
    }
}

/// The first shown panel after `cur` in the focus cycle, `cur` itself when no other is shown.
pub open spec fn next_shown(b: BoxVisibility, cur: FocusedPanel) -> FocusedPanel {
    let p1 = panel_at(panel_pos(cur) + 1);
    let p2 = panel_at(panel_pos(cur) + 2);
    if panel_shown(b, p1) {
        p1
    } else if panel_shown(b, p2) {
        p2
    } else {
        cur
    }
}

/// The first shown panel before `cur` in the focus cycle, `cur` itself when no other is shown.
pub open spec fn prev_shown(b: BoxVisibility, cur: FocusedPanel) -> FocusedPanel {
    let p1 = panel_at(panel_pos(cur) + 2);
    let p2 = panel_at(panel_pos(cur) + 1);
    if panel_shown(b, p1) {
        p1
    } else if panel_shown(b, p2) {
        p2
    } else {
        cur
    }
}

/// The boxes with box `n` switched (shown if hidden, hidden if shown); unchanged when `n`
/// names no box.
pub open spec fn toggled(b: BoxVisibility, n: int) -> BoxVisibility {
    BoxVisibility {
        cadrans: if n == 1 {
            !b.cadrans
        } else {
            b.cadrans
        },
        metrics: if n == 2 {
            !b.metrics
        } else {
            b.metrics
        },
        history: if n == 3 {
            !b.history
        } else {
            b.history
        },
        logs: if n == 4 {
            !b.logs
        } else {
            b.logs
        },
        recent: if n == 5 {
            !b.recent
        } else {
            b.recent
        },
    }
}

impl BoxVisibility {
    /// All boxes shown.
    pub fn all_shown() -> (r: Self)
        ensures
            r.cadrans && r.metrics && r.history && r.logs && r.recent,
    {
        BoxVisibility { cadrans: true, metrics: true, history: true, logs: true, recent: true }
    }

    /// Whether box `box_num` is shown (see `box_shown`).
    pub fn is_box_visible(&self, box_num: usize) -> (r: bool)
        ensures
            r == box_shown(*self, box_num as int),
    {
        match box_num {
            1 => self.cadrans,
            2 => self.metrics,
            3 => self.history,
            4 => self.logs,
            5 => self.recent,
            _ => false,
        }
    }

    /// Whether at least one box is shown.
    pub fn any_box_visible(&self) -> (r: bool)
        ensures
            r == (self.cadrans || self.metrics || self.history || self.logs || self.recent),
    {
        self.cadrans || self.metrics || self.history || self.logs || self.recent
    }

    /// Shows box `box_num` if hidden and hides it if shown (see `toggled`); returns whether
    /// `box_num` names a box (1 to 5).
    pub fn toggle_box(&mut self, box_num: usize) -> (r: bool)
        ensures
            r == (1 <= box_num <= 5),
            *final(self) == toggled(*old(self), box_num as int),
    {
        match box_num {
            1 => {
                self.cadrans = !self.cadrans;
            },
            2 => {
                self.metrics = !self.metrics;
            },
            3 => {
                self.history = !self.history;
            },
            4 => {
                self.logs = !self.logs;
            },
            5 => {
                self.recent = !self.recent;
            },
            _ => {
                return false;
            },
        }
        true
    }

    fn shows(&self, p: FocusedPanel) -> (r: bool)
        ensures
            r == panel_shown(*self, p),
    {
        match p {
            FocusedPanel::History => self.history,
            FocusedPanel::Logs => self.logs,
            FocusedPanel::RecentFiles => self.recent,
        }
    }

    /// The focus moved forward to the next shown panel (see `next_shown`).
    pub fn next_visible_panel(&self, cur: FocusedPanel) -> (r: FocusedPanel)
        ensures
            r == next_shown(*self, cur),
    {
        let p1 = cur.next();
        let p2 = p1.next();
        if self.shows(p1) {
            p1
        } else if self.shows(p2) {
            p2
        } else {
            cur
        }
    }

    /// The focus moved back to the previous shown panel (see `prev_shown`).
    pub fn prev_visible_panel(&self, cur: FocusedPanel) -> (r: FocusedPanel)
        ensures
            r == prev_shown(*self, cur),
    {
        let p1 = cur.prev();
        let p2 = p1.prev();
        if self.shows(p1) {
            p1
        } else if self.shows(p2) {
            p2
        } else {
            cur
        }
    }

    /// The focus after boxes were hidden: kept when its panel is shown, moved forward to the
    /// next shown panel otherwise.
    pub fn adjust_focused_panel(&self, cur: FocusedPanel) -> (r: FocusedPanel)
        ensures
            r == if panel_shown(*self, cur) {
                cur
            } else {
                next_shown(*self, cur)
            },
    {
        if self.shows(cur) {
            cur
        } else {
            self.next_visible_panel(cur)
        }
    }
}

/// Moving the focus forward or back lands on a shown panel whenever one is shown, and on the
/// neighbour in the cycle when all are.
pub proof fn law_focus_lands_on_shown_panel(b: BoxVisibility, cur: FocusedPanel)
    ensures
        (b.history || b.logs || b.recent) ==> panel_shown(b, next_shown(b, cur)) && panel_shown(
            b,
            prev_shown(b, cur),
        ),
        (b.history && b.logs && b.recent) ==> next_shown(b, cur) == panel_at(panel_pos(cur) + 1)
            && prev_shown(b, cur) == panel_at(panel_pos(cur) + 2),
{
}

/// With exactly two panels shown, moving the focus forward and moving it back agree: both
/// switch to the other shown panel.
pub proof fn law_focus_two_panels(b: BoxVisibility, cur: FocusedPanel)
    requires
        panel_shown(b, cur),
        (b.history as int) + (b.logs as int) + (b.recent as int) == 2,
    ensures
        next_shown(b, cur) == prev_shown(b, cur),
        next_shown(b, cur) != cur,
        panel_shown(b, next_shown(b, cur)),
{
}

/// Toggling box `n` (1 to 5) switches that box alone.
pub proof fn law_toggle_switches_one_box(b: BoxVisibility, n: int, m: int)
    requires
        1 <= n <= 5,
    ensures
        box_shown(toggled(b, n), m) == if m == n {
            !box_shown(b, m)
        } else {
            box_shown(b, m)
        },
{
}

/// Toggling the same box twice gives the boxes back.
pub proof fn law_toggle_twice(b: BoxVisibility, n: int)
    ensures
        toggled(toggled(b, n), n) == b,
{
}

} // verus!

//! Clickable areas of the screen and what a mouse event at a cell reaches.
use vstd::prelude::*;
use crate::dashboard::{FocusedPanel, HitAction};

verus! {

/// A rectangle of terminal cells: the top-left cell and the size.
#[derive(Debug, Clone, Copy, PartialEq, Eq, Structural)]
pub struct Rect {
    pub x: u16,
    pub y: u16,
    pub width: u16,
    pub height: u16,
}

/// Whether cell (`col`, `row`) lies in `r`.
pub open spec fn rect_contains(r: Rect, col: int, row: int) -> bool {
    r.x <= col < r.x + r.width && r.y <= row < r.y + r.height
}

impl Rect {
    /// Whether cell (`col`, `row`) lies in the rectangle.
    pub fn contains(&self, col: u16, row: u16) -> (r: bool)
        ensures
            r == rect_contains(*self, col as int, row as int),
    {
        self.x <= col && col - self.x < self.width && self.y <= row && row - self.y < self.height
    }
}

/// A clickable area and what a click on it does.
#[derive(Debug, Clone, Copy, PartialEq, Eq, Structural)]
pub struct Hitbox {
    pub rect: Rect,
    pub action: HitAction,
}

/// The action of the last registered area (the one drawn on top) that holds the cell.
pub open spec fn topmost(layer: Seq<Hitbox>, col: int, row: int) -> Option<HitAction>
    decreases layer.len(),
{
    if layer.len() == 0 {
        None
    } else if rect_contains(layer.last().rect, col, row) {
        Some(layer.last().action)
    } else {
        topmost(layer.drop_last(), col, row)
    }
}

/// The panel that the mouse wheel scrolls over an area: the logs, the history (its rows too)
/// or the recent files (their rows too).
pub open spec fn wheel_panel_of(a: HitAction) -> Option<FocusedPanel> {
    match a {
        HitAction::LogsArea => Some(FocusedPanel::Logs),
        HitAction::HistoryArea | HitAction::HistoryRow(_) => Some(FocusedPanel::History),
        HitAction::RecentFilesArea | HitAction::RecentFile(_) => Some(FocusedPanel::RecentFiles),
        _ => None,
    }
}

/// The panel of the last registered scrollable area that holds the cell.
pub open spec fn wheel_target(layer: Seq<Hitbox>, col: int, row: int) -> Option<FocusedPanel>
    decreases layer.len(),
{
    if layer.len() == 0 {
        None
    } else if rect_contains(layer.last().rect, col, row) && wheel_panel_of(layer.last().action)
        is Some {
        wheel_panel_of(layer.last().action)
    } else {
        wheel_target(layer.drop_last(), col, row)
    }
}

/// The clickable areas of the dashboard and of the open dialog, kept apart: the dialog's
/// layer takes the clicks while a dialog is open; `active_modal_area` is the dialog's frame.
#[derive(Debug, Clone)]
pub struct HitboxManager {
    pub dashboard: Vec<Hitbox>,
    pub modal: Vec<Hitbox>,
    pub active_modal_area: Option<Rect>,
}

/// The layer that takes the clicks: the dialog's when a dialog is open and has areas, the
/// dashboard's otherwise.
pub open spec fn active_layer_of(m: HitboxManager, has_modal: bool) -> Seq<Hitbox> {
    if has_modal && m.modal@.len() > 0 {
        m.modal@
    } else {
        m.dashboard@
    }
}

/// What a left click reaches.
#[derive(Debug, Clone, Copy, PartialEq, Eq, Structural)]
pub enum ClickOutcome {
    /// The click fell outside the open dialog's frame: the dialog closes.
    Dismiss,
    /// The click reached this area.
    Hit(HitAction),
    /// The click fell inside the open dialog but on no area: nothing happens.
    Absorbed,
    /// The click on the dashboard reached no area.
    Missed,
}

/// What a left click at (`col`, `row`) reaches: with a dialog open, a click outside its frame
/// closes it and one inside goes to the topmost area of the active layer (or nowhere); with no
/// dialog, to the topmost area of the dashboard.
pub open spec fn click_of(m: HitboxManager, has_modal: bool, col: int, row: int) -> ClickOutcome {
    if has_modal {
        match m.active_modal_area {
            Some(r) if !rect_contains(r, col, row) => ClickOutcome::Dismiss,
            _ => match topmost(active_layer_of(m, true), col, row) {
                Some(a) => ClickOutcome::Hit(a),
                None => ClickOutcome::Absorbed,
            },
        }
    } else {
        match topmost(m.dashboard@, col, row) {
            Some(a) => ClickOutcome::Hit(a),
            None => ClickOutcome::Missed,
        }
    }
}

/// The action of the last area of `layer` that holds the cell (see `topmost`).
pub fn hit_test(layer: &Vec<Hitbox>, col: u16, row: u16) -> (r: Option<HitAction>)
    ensures
        r == topmost(layer@, col as int, row as int),
{
    let mut i: usize = layer.len();
    assert(layer@.take(i as int) =~= layer@);
    while i > 0
        invariant
            i <= layer.len(),
            topmost(layer@, col as int, row as int) == topmost(
                layer@.take(i as int),
                col as int,
                row as int,
            ),
        decreases i,
    {
        let hb = layer[i - 1];
        assert(layer@.take(i as int).last() == hb);
        assert(layer@.take(i as int).drop_last() =~= layer@.take(i - 1));
        if hb.rect.contains(col, row) {
            return Some(hb.action);
        }
        i = i - 1;
    }
    None
}

fn wheel_panel_exec(a: HitAction) -> (r: Option<FocusedPanel>)
    ensures
        r == wheel_panel_of(a),
{
    match a {
        HitAction::LogsArea => Some(FocusedPanel::Logs),
        HitAction::HistoryArea | HitAction::HistoryRow(_) => Some(FocusedPanel::History),
        HitAction::RecentFilesArea | HitAction::RecentFile(_) => Some(FocusedPanel::RecentFiles),
        _ => None,
    }
}

/// The panel the mouse wheel scrolls at a cell of the dashboard (see `wheel_target`).
pub fn wheel_panel(layer: &Vec<Hitbox>, col: u16, row: u16) -> (r: Option<FocusedPanel>)
    ensures
        r == wheel_target(layer@, col as int, row as int),
{
    let mut i: usize = layer.len();
    assert(layer@.take(i as int) =~= layer@);
    while i > 0
        invariant
            i <= layer.len(),
            wheel_target(layer@, col as int, row as int) == wheel_target(
                layer@.take(i as int),
                col as int,
                row as int,
            ),
        decreases i,
    {
        let hb = layer[i - 1];
        assert(layer@.take(i as int).last() == hb);
        assert(layer@.take(i as int).drop_last() =~= layer@.take(i - 1));
        if hb.rect.contains(col, row) {
            let p = wheel_panel_exec(hb.action);
            if p.is_some() {
                return p;
            }
        }
        i = i - 1;
    }
    None
}

impl HitboxManager {
    /// No area registered, no dialog frame.
    pub fn new() -> (r: Self)
        ensures
            r.dashboard@.len() == 0,
            r.modal@.len() == 0,
            r.active_modal_area is None,
    {
        HitboxManager { dashboard: Vec::new(), modal: Vec::new(), active_modal_area: None }
    }

    /// Forgets the frame of the dialog that was just closed; the areas stay.
    pub fn dismiss_modal_area(&mut self)
        ensures
            final(self).active_modal_area is None,
            final(self).dashboard == old(self).dashboard,
            final(self).modal == old(self).modal,
    {
        self.active_modal_area = None;
    }

    /// Forgets the areas of both layers (before the screen is drawn again).
    pub fn clear_hitboxes(&mut self)
        ensures
            final(self).dashboard@.len() == 0,
            final(self).modal@.len() == 0,
            final(self).active_modal_area == old(self).active_modal_area,
    {
        self.dashboard.clear();
        self.modal.clear();
    }

    /// Registers a clickable area on top of the others of its layer (the dialog's when
    /// `on_modal`).
    pub fn register_hitbox(&mut self, on_modal: bool, rect: Rect, action: HitAction)
        ensures
            on_modal ==> final(self).modal@ == old(self).modal@.push(Hitbox { rect, action })
                && final(self).dashboard@ == old(self).dashboard@,
            !on_modal ==> final(self).dashboard@ == old(self).dashboard@.push(
                Hitbox { rect, action },
            ) && final(self).modal@ == old(self).modal@,
            final(self).active_modal_area == old(self).active_modal_area,
    {
        if on_modal {
            self.modal.push(Hitbox { rect, action });
        } else {
            self.dashboard.push(Hitbox { rect, action });
        }
    }

    /// The layer that takes the clicks (see `active_layer_of`).
    pub fn active_layer(&self, has_modal: bool) -> (r: &Vec<Hitbox>)
        ensures
            r@ == active_layer_of(*self, has_modal),
    {
        if has_modal && self.modal.len() > 0 {
            &self.modal
        } else {
            &self.dashboard
        }
    }

    /// What a left click at (`col`, `row`) reaches (see `click_of`).
    pub fn click(&self, has_modal: bool, col: u16, row: u16) -> (r: ClickOutcome)
        ensures
            r == click_of(*self, has_modal, col as int, row as int),
    {
        if has_modal {
            if let Some(area) = self.active_modal_area {
                if !area.contains(col, row) {
                    return ClickOutcome::Dismiss;
                }
            }
            match hit_test(self.active_layer(true), col, row) {
                Some(a) => ClickOutcome::Hit(a),
                None => ClickOutcome::Absorbed,
            }
        } else {
            match hit_test(&self.dashboard, col, row) {
                Some(a) => ClickOutcome::Hit(a),
                None => ClickOutcome::Missed,
            }
        }
    }
}

/// An area registered last is on top: a click on it reaches it, whatever lies below.
pub proof fn law_last_registered_on_top(layer: Seq<Hitbox>, h: Hitbox, col: int, row: int)
    requires
        rect_contains(h.rect, col, row),
    ensures
        topmost(layer.push(h), col, row) == Some(h.action),
{
    assert(layer.push(h).last() == h);
}

/// An area that does not hold the cell changes nothing for it.
pub proof fn law_area_elsewhere_ignored(layer: Seq<Hitbox>, h: Hitbox, col: int, row: int)
    requires
        !rect_contains(h.rect, col, row),
    ensures
        topmost(layer.push(h), col, row) == topmost(layer, col, row),
{
    assert(layer.push(h).drop_last() =~= layer);
}

/// A click reaches only an area that holds the clicked cell.
pub proof fn law_hit_holds_cell(layer: Seq<Hitbox>, col: int, row: int)
    ensures
        topmost(layer, col, row) matches Some(a) ==> exists|i: int|
            0 <= i < layer.len() && layer[i].action == a && rect_contains(layer[i].rect, col, row),
    decreases layer.len(),
{
    if layer.len() > 0 && !rect_contains(layer.last().rect, col, row) {
        law_hit_holds_cell(layer.drop_last(), col, row);
        if let Some(a) = topmost(layer, col, row) {
            let i = choose|i: int|
                0 <= i < layer.drop_last().len() && layer.drop_last()[i].action == a
                    && rect_contains(layer.drop_last()[i].rect, col, row);
            assert(layer[i] == layer.drop_last()[i]);
        }
    } else if layer.len() > 0 {
        assert(layer[layer.len() - 1] == layer.last());
    }
}

} // verus!

//! Appearance settings: container layout, mid-panel order, border and graph styles.
//! Each setting cycles through its values with `next` / `prev`.
use vstd::prelude::*;

verus! {

// ---------------------------------------------------------------------------
// Container layout
// ---------------------------------------------------------------------------

/// Vertical order of the main dashboard containers.
#[derive(Debug, Clone, Copy, PartialEq, Eq, Structural)]
pub enum ContainerLayout {
    Default,
    RecentFirst,
    LogsTop,
    Inverted,
}

/// The layouts in cycling order.
pub open spec fn layouts() -> Seq<ContainerLayout> {
    seq![
        ContainerLayout::Default,
        ContainerLayout::RecentFirst,
        ContainerLayout::LogsTop,
        ContainerLayout::Inverted,
    ]
}

/// Position of a layout in the cycling order.
pub open spec fn layout_pos(l: ContainerLayout) -> int {
    match l {
        ContainerLayout::Default => 0,
        ContainerLayout::RecentFirst => 1,
        ContainerLayout::LogsTop => 2,
        ContainerLayout::Inverted => 3,
    }
}

/// Display name of a layout.
pub open spec fn layout_name(l: ContainerLayout) -> Seq<char> {
    match l {
        ContainerLayout::Default => "Standard (Storage → Mid → Recent)"@,
        ContainerLayout::RecentFirst => "Recent First (Storage → Recent → Mid)"@,
        ContainerLayout::LogsTop => "Logs / Hist Top (Mid → Storage → Recent)"@,
        ContainerLayout::Inverted => "Inverted (Recent → Mid → Storage)"@,
    }
}

impl ContainerLayout {
    /// Every layout, in cycling order.
    pub fn all() -> (r: Vec<ContainerLayout>)
        ensures
            r@ == layouts(),
    {
        vec![
            ContainerLayout::Default,
            ContainerLayout::RecentFirst,
            ContainerLayout::LogsTop,
            ContainerLayout::Inverted,
        ]
    }

    /// Display name of the layout.
    pub fn name(&self) -> (r: &'static str)
        ensures
            r@ == layout_name(*self),
    {
        match self {
            ContainerLayout::Default => "Standard (Storage → Mid → Recent)",
            ContainerLayout::RecentFirst => "Recent First (Storage → Recent → Mid)",
            ContainerLayout::LogsTop => "Logs / Hist Top (Mid → Storage → Recent)",
            ContainerLayout::Inverted => "Inverted (Recent → Mid → Storage)",
        }
    }

    /// The following layout, wrapping around after the last one.
    pub fn next(&self) -> (r: Self)
        ensures
            r == layouts()[(layout_pos(*self) + 1) % 4],
    {
        match self {
            ContainerLayout::Default => ContainerLayout::RecentFirst,
            ContainerLayout::RecentFirst => ContainerLayout::LogsTop,
            ContainerLayout::LogsTop => ContainerLayout::Inverted,
            ContainerLayout::Inverted => ContainerLayout::Default,
        }
    }

    /// The preceding layout, wrapping around before the first one.
    pub fn prev(&self) -> (r: Self)
        ensures
            r == layouts()[(layout_pos(*self) + 3) % 4],
    {
        match self {
            ContainerLayout::Default => ContainerLayout::Inverted,
            ContainerLayout::RecentFirst => ContainerLayout::Default,
            ContainerLayout::LogsTop => ContainerLayout::RecentFirst,
            ContainerLayout::Inverted => ContainerLayout::LogsTop,
        }
    }
}

impl Default for ContainerLayout {
    fn default() -> (r: Self)
        ensures
            r == ContainerLayout::Default,
    {
        ContainerLayout::Default
    }
}

/// Each layout sits at its position in the list of layouts that `all` returns.
pub proof fn law_layout_positions_match_list(l: ContainerLayout)
    ensures
        0 <= layout_pos(l) < 4,
        layouts()[layout_pos(l)] == l,
{
}

/// Stepping back undoes stepping forward, and the other way round.
pub proof fn law_layout_next_prev(l: ContainerLayout)
    ensures
        layouts()[(layout_pos(layouts()[(layout_pos(l) + 1) % 4]) + 3) % 4] == l,
        layouts()[(layout_pos(layouts()[(layout_pos(l) + 3) % 4]) + 1) % 4] == l,
{
}

/// Four steps forward come back to the start.
pub proof fn law_layout_cycle(l: ContainerLayout)
    ensures
        ({
            let step = |x: ContainerLayout| layouts()[(layout_pos(x) + 1) % 4];
            step(step(step(step(l)))) == l
        }),
{
}

// ---------------------------------------------------------------------------
// Mid-panel order
// ---------------------------------------------------------------------------

/// Horizontal order of the history and log panels.
#[derive(Debug, Clone, Copy, PartialEq, Eq, Structural)]
pub enum MidPanelOrder {
    HistoryLogs,
    LogsHistory,
}

/// Display name of a mid-panel order.
pub open spec fn mid_order_name(m: MidPanelOrder) -> Seq<char> {
    match m {
        MidPanelOrder::HistoryLogs => "History │ Logs"@,
        MidPanelOrder::LogsHistory => "Logs │ History"@,
    }
}

/// The other mid-panel order.
pub open spec fn mid_order_other(m: MidPanelOrder) -> MidPanelOrder {
    match m {
        MidPanelOrder::HistoryLogs => MidPanelOrder::LogsHistory,
        MidPanelOrder::LogsHistory => MidPanelOrder::HistoryLogs,
    }
}

impl MidPanelOrder {
    /// Both orders.
    pub fn all() -> (r: Vec<MidPanelOrder>)
        ensures
            r@ == seq![MidPanelOrder::HistoryLogs, MidPanelOrder::LogsHistory],
    {
        vec![MidPanelOrder::HistoryLogs, MidPanelOrder::LogsHistory]
    }

    /// Display name of the order.
    pub fn name(&self) -> (r: &'static str)
        ensures
            r@ == mid_order_name(*self),
    {
        match self {
            MidPanelOrder::HistoryLogs => "History │ Logs",
            MidPanelOrder::LogsHistory => "Logs │ History",
        }
    }

    /// The other order.
    pub fn next(&self) -> (r: Self)
        ensures
            r == mid_order_other(*self),
    {
        match self {
            MidPanelOrder::HistoryLogs => MidPanelOrder::LogsHistory,
            MidPanelOrder::LogsHistory => MidPanelOrder::HistoryLogs,
        }
    }

    /// The other order (with two values, stepping back is stepping forward).
    pub fn prev(&self) -> (r: Self)
        ensures
            r == mid_order_other(*self),
    {
        self.next()
    }
}

impl Default for MidPanelOrder {
    fn default() -> (r: Self)
        ensures
            r == MidPanelOrder::HistoryLogs,
    {
        MidPanelOrder::HistoryLogs
    }
}

/// Switching the order twice restores it, and switching always changes it.
pub proof fn law_mid_order_involution(m: MidPanelOrder)
    ensures
        mid_order_other(mid_order_other(m)) == m,
        mid_order_other(m) != m,
{
}

// ---------------------------------------------------------------------------
// Border style
// ---------------------------------------------------------------------------

/// Box-drawing style of cards, panels and dialogs.
#[derive(Debug, Clone, Copy, PartialEq, Eq, Structural)]
pub enum BorderStyleChoice {
    Rounded,
    Sharp,
    Double,
    Thick,
}

/// Corner and line glyphs used to draw the decorations of a border style.
#[derive(Debug, Clone, Copy, PartialEq, Eq)]
pub struct BorderGlyphs {
    pub top_left: &'static str,
    pub top_right: &'static str,
    pub bot_left: &'static str,
    pub bot_right: &'static str,
    pub horizontal: &'static str,
}

/// The border styles in cycling order.
pub open spec fn border_styles() -> Seq<BorderStyleChoice> {
    seq![
        BorderStyleChoice::Rounded,
        BorderStyleChoice::Sharp,
        BorderStyleChoice::Double,
        BorderStyleChoice::Thick,
    ]
}

/// Position of a border style in the cycling order.
pub open spec fn border_pos(b: BorderStyleChoice) -> int {
    match b {
        BorderStyleChoice::Rounded => 0,
        BorderStyleChoice::Sharp => 1,
        BorderStyleChoice::Double => 2,
        BorderStyleChoice::Thick => 3,
    }
}

/// Display name of a border style.
pub open spec fn border_name(b: BorderStyleChoice) -> Seq<char> {
    match b {
        BorderStyleChoice::Rounded => "Rounded (Curves)"@,
        BorderStyleChoice::Sharp => "Sharp (Square)"@,
        BorderStyleChoice::Double => "Double (Retro)"@,
        BorderStyleChoice::Thick => "Thick (Bold)"@,
    }
}

/// The glyphs of a border style, as (top left, top right, bottom left, bottom right, horizontal).
pub open spec fn border_glyphs(b: BorderStyleChoice) -> (
    Seq<char>,
    Seq<char>,
    Seq<char>,
    Seq<char>,
    Seq<char>,
) {
    match b {
        BorderStyleChoice::Rounded | BorderStyleChoice::Sharp => (
            "┐"@,
            "┌"@,
            "┘"@,
            "└"@,
            "─"@,
        ),
        BorderStyleChoice::Double => ("╗"@, "╔"@, "╝"@, "╚"@, "═"@),
        BorderStyleChoice::Thick => ("┓"@, "┏"@, "┛"@, "┗"@, "━"@),
    }
}

/// The glyphs of `g` in the order of `border_glyphs`.
pub open spec fn glyphs_view(g: BorderGlyphs) -> (
    Seq<char>,
    Seq<char>,
    Seq<char>,
    Seq<char>,
    Seq<char>,
) {
    (g.top_left@, g.top_right@, g.bot_left@, g.bot_right@, g.horizontal@)
}

impl BorderStyleChoice {
    /// Every border style, in cycling order.
    pub fn all() -> (r: Vec<BorderStyleChoice>)
        ensures
            r@ == border_styles(),
    {
        vec![
            BorderStyleChoice::Rounded,
            BorderStyleChoice::Sharp,
            BorderStyleChoice::Double,
            BorderStyleChoice::Thick,
        ]
    }

    /// Display name of the style.
    pub fn name(&self) -> (r: &'static str)
        ensures
            r@ == border_name(*self),
    {
        match self {
            BorderStyleChoice::Rounded => "Rounded (Curves)",
            BorderStyleChoice::Sharp => "Sharp (Square)",
            BorderStyleChoice::Double => "Double (Retro)",
            BorderStyleChoice::Thick => "Thick (Bold)",
        }
    }

    /// Glyphs of the style's decorations.
    pub fn glyphs(&self) -> (r: BorderGlyphs)
        ensures
            glyphs_view(r) == border_glyphs(*self),
    {
        match self {
            BorderStyleChoice::Rounded | BorderStyleChoice::Sharp => BorderGlyphs {
                top_left: "┐",
                top_right: "┌",
                bot_left: "┘",
                bot_right: "└",
                horizontal: "─",
            },
            BorderStyleChoice::Double => BorderGlyphs {
                top_left: "╗",
                top_right: "╔",
                bot_left: "╝",
                bot_right: "╚",
                horizontal: "═",
            },
            BorderStyleChoice::Thick => BorderGlyphs {
                top_left: "┓",
                top_right: "┏",
                bot_left: "┛",
                bot_right: "┗",
                horizontal: "━",
            },
        }
    }

    /// The following style, wrapping around after the last one.
    pub fn next(&self) -> (r: Self)
        ensures
            r == border_styles()[(border_pos(*self) + 1) % 4],
    {
        match self {
            BorderStyleChoice::Rounded => BorderStyleChoice::Sharp,
            BorderStyleChoice::Sharp => BorderStyleChoice::Double,
            BorderStyleChoice::Double => BorderStyleChoice::Thick,
            BorderStyleChoice::Thick => BorderStyleChoice::Rounded,
        }
    }

    /// The preceding style, wrapping around before the first one.
    pub fn prev(&self) -> (r: Self)
        ensures
            r == border_styles()[(border_pos(*self) + 3) % 4],
    {
        match self {
            BorderStyleChoice::Rounded => BorderStyleChoice::Thick,
            BorderStyleChoice::Sharp => BorderStyleChoice::Rounded,
            BorderStyleChoice::Double => BorderStyleChoice::Sharp,
            BorderStyleChoice::Thick => BorderStyleChoice::Double,
        }
    }
}

impl Default for BorderStyleChoice {
    fn default() -> (r: Self)
        ensures
            r == BorderStyleChoice::Rounded,
    {
        BorderStyleChoice::Rounded
    }
}

/// Stepping back undoes stepping forward, and the other way round.
pub proof fn law_border_next_prev(b: BorderStyleChoice)
    ensures
        border_styles()[(border_pos(border_styles()[(border_pos(b) + 1) % 4]) + 3) % 4] == b,
        border_styles()[(border_pos(border_styles()[(border_pos(b) + 3) % 4]) + 1) % 4] == b,
{
}

// ---------------------------------------------------------------------------
// Graph style
// ---------------------------------------------------------------------------

/// Glyph set of the activity and speed charts.
#[derive(Debug, Clone, Copy, PartialEq, Eq, Structural)]
pub enum GraphStyleChoice {
    Braille,
    Blocks,
}

/// Display name of a graph style.
pub open spec fn graph_name(g: GraphStyleChoice) -> Seq<char> {
    match g {
        GraphStyleChoice::Braille => "Braille (⡀⣀⣄⣤⣦⣶⣷⣿)"@,
        GraphStyleChoice::Blocks => "Blocks ( ▂▃▄▅▆▇█)"@,
    }
}

/// The other graph style.
pub open spec fn graph_other(g: GraphStyleChoice) -> GraphStyleChoice {
    match g {
        GraphStyleChoice::Braille => GraphStyleChoice::Blocks,
        GraphStyleChoice::Blocks => GraphStyleChoice::Braille,
    }
}

impl GraphStyleChoice {
    /// Both graph styles.
    pub fn all() -> (r: Vec<GraphStyleChoice>)
        ensures
            r@ == seq![GraphStyleChoice::Braille, GraphStyleChoice::Blocks],
    {
        vec![GraphStyleChoice::Braille, GraphStyleChoice::Blocks]
    }

    /// Display name of the style.
    pub fn name(&self) -> (r: &'static str)
        ensures
            r@ == graph_name(*self),
    {
        match self {
            GraphStyleChoice::Braille => "Braille (⡀⣀⣄⣤⣦⣶⣷⣿)",
            GraphStyleChoice::Blocks => "Blocks ( ▂▃▄▅▆▇█)",
        }
    }

    /// The other style.
    pub fn next(&self) -> (r: Self)
        ensures
            r == graph_other(*self),
    {
        match self {
            GraphStyleChoice::Braille => GraphStyleChoice::Blocks,
            GraphStyleChoice::Blocks => GraphStyleChoice::Braille,
        }
    }

    /// The other style (with two values, stepping back is stepping forward).
    pub fn prev(&self) -> (r: Self)
        ensures
            r == graph_other(*self),
    {
        self.next()
    }
}

impl Default for GraphStyleChoice {
    fn default() -> (r: Self)
        ensures
            r == GraphStyleChoice::Braille,
    {
        GraphStyleChoice::Braille
    }
}

/// Switching the graph style twice restores it, and switching always changes it.
pub proof fn law_graph_involution(g: GraphStyleChoice)
    ensures
        graph_other(graph_other(g)) == g,
        graph_other(g) != g,
{
}

} // verus!

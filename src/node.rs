//! Display nodes as plain values: what a factory hands to the engine.
use vstd::prelude::*;
use crate::colors::Rgba;

verus! {

/// A length.
#[derive(Clone, Copy, Debug, PartialEq, Eq, Structural)]
pub enum Val {
    /// Decided by layout.
    Auto,
    /// Whole logical pixels.
    Px(i64),
    /// Percent of the parent.
    Percent(i64),
}

/// Lengths on the four sides of a node.
#[derive(Clone, Copy, Debug, PartialEq, Eq, Structural)]
pub struct Edges {
    pub left: Val,
    pub right: Val,
    pub top: Val,
    pub bottom: Val,
}

impl Edges {
    /// The same length on every side.
    pub fn all(v: Val) -> (e: Edges)
        ensures
            e == (Edges { left: v, right: v, top: v, bottom: v }),
    {
        Edges { left: v, right: v, top: v, bottom: v }
    }

    /// The length on the left and right, zero above and below.
    pub fn horizontal(v: Val) -> (e: Edges)
        ensures
            e == (Edges { left: v, right: v, top: Val::Px(0), bottom: Val::Px(0) }),
    {
        Edges { left: v, right: v, top: Val::Px(0), bottom: Val::Px(0) }
    }

    /// The length on the right, zero elsewhere.
    pub fn right(v: Val) -> (e: Edges)
        ensures
            e == (Edges { left: Val::Px(0), right: v, top: Val::Px(0), bottom: Val::Px(0) }),
    {
        Edges { left: Val::Px(0), right: v, top: Val::Px(0), bottom: Val::Px(0) }
    }

    /// Zero on every side.
    pub fn zero() -> (e: Edges)
        ensures
            e == (Edges { left: Val::Px(0), right: Val::Px(0), top: Val::Px(0), bottom: Val::Px(0) }),
    {
        Edges { left: Val::Px(0), right: Val::Px(0), top: Val::Px(0), bottom: Val::Px(0) }
    }
}

/// Direction of a node's main axis.
#[derive(Clone, Copy, Debug, PartialEq, Eq, Structural)]
pub enum FlexDirection {
    Row,
    Column,
}

/// Placement of children along the main axis.
#[derive(Clone, Copy, Debug, PartialEq, Eq, Structural)]
pub enum JustifyContent {
    Default,
    FlexStart,
    Center,
    SpaceBetween,
}

/// Placement of children across the main axis.
#[derive(Clone, Copy, Debug, PartialEq, Eq, Structural)]
pub enum AlignItems {
    Default,
    Center,
}

/// Whether a node takes part in its parent's layout.
#[derive(Clone, Copy, Debug, PartialEq, Eq, Structural)]
pub enum PositionType {
    Relative,
    Absolute,
}

/// Layout properties of a node.
#[derive(Clone, Copy, Debug, PartialEq, Eq, Structural)]
pub struct NodeStyle {
    pub width: Val,
    pub height: Val,
    pub left: Val,
    pub top: Val,
    pub bottom: Val,
    pub margin: Edges,
    pub padding: Edges,
    pub border: Edges,
    pub flex_direction: FlexDirection,
    pub justify_content: JustifyContent,
    pub align_items: AlignItems,
    pub position_type: PositionType,
    pub row_gap: Val,
}

/// The layout of a node that sets nothing: sizes and offsets automatic,
/// no margin, padding, border or gap, a row in the flow of its parent.
pub open spec fn plain_style() -> NodeStyle {
    NodeStyle {
        width: Val::Auto,
        height: Val::Auto,
        left: Val::Auto,
        top: Val::Auto,
        bottom: Val::Auto,
        margin: Edges { left: Val::Px(0), right: Val::Px(0), top: Val::Px(0), bottom: Val::Px(0) },
        padding: Edges { left: Val::Px(0), right: Val::Px(0), top: Val::Px(0), bottom: Val::Px(0) },
        border: Edges { left: Val::Px(0), right: Val::Px(0), top: Val::Px(0), bottom: Val::Px(0) },
        flex_direction: FlexDirection::Row,
        justify_content: JustifyContent::Default,
        align_items: AlignItems::Default,
        position_type: PositionType::Relative,
        row_gap: Val::Px(0),
    }
}

impl NodeStyle {
    /// The layout that sets nothing (see [`plain_style`]).
    pub fn plain() -> (s: NodeStyle)
        ensures
            s == plain_style(),
    {
        NodeStyle {
            width: Val::Auto,
            height: Val::Auto,
            left: Val::Auto,
            top: Val::Auto,
            bottom: Val::Auto,
            margin: Edges::zero(),
            padding: Edges::zero(),
            border: Edges::zero(),
            flex_direction: FlexDirection::Row,
            justify_content: JustifyContent::Default,
            align_items: AlignItems::Default,
            position_type: PositionType::Relative,
            row_gap: Val::Px(0),
        }
    }
}

/// A node: its layout and its colors (`None` leaves the engine's default).
#[derive(Clone, Copy, Debug, PartialEq, Eq, Structural)]
pub struct NodeSpec {
    pub style: NodeStyle,
    pub background: Option<Rgba>,
    pub border_color: Option<Rgba>,
}

/// Typefaces of the widget set.
#[derive(Clone, Copy, Debug, PartialEq, Eq, Structural)]
pub enum Font {
    Bold,
    SemiBold,
    Medium,
    Regular,
}

/// How text is drawn.
#[derive(Clone, Copy, Debug, PartialEq, Eq, Structural)]
pub struct TextStyleSpec {
    pub font: Font,
    pub font_size: u32,
    pub color: Rgba,
}

/// A text node: its text, how it is drawn, and its layout.
#[derive(Clone, Debug)]
pub struct TextSpec {
    pub text: String,
    pub style: TextStyleSpec,
    pub layout: NodeStyle,
}

} // verus!

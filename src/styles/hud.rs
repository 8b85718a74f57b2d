//! Looks of the in-game display.
use vstd::prelude::*;
use crate::colors::Rgba;
use crate::node::{
    plain_style, AlignItems, Edges, FlexDirection, NodeSpec, NodeStyle, PositionType, Val,
};

verus! {

/// The bar along the bottom of the screen, 80 pixels high.
pub fn hud_container() -> (h: NodeSpec)
    ensures
        h == (NodeSpec {
            style: NodeStyle {
                width: Val::Percent(100),
                height: Val::Px(80),
                position_type: PositionType::Absolute,
                bottom: Val::Px(0),
                left: Val::Px(0),
                padding: Edges { left: Val::Px(10), right: Val::Px(10), top: Val::Px(10), bottom: Val::Px(10) },
                ..plain_style()
            },
            background: Some(Rgba::spec_new(100, 100, 100, 700)),
            border_color: None,
        }),
{
    NodeSpec {
        style: NodeStyle {
            width: Val::Percent(100),
            height: Val::Px(80),
            position_type: PositionType::Absolute,
            bottom: Val::Px(0),
            left: Val::Px(0),
            padding: Edges::all(Val::Px(10)),
            ..NodeStyle::plain()
        },
        background: Some(Rgba::new(100, 100, 100, 700)),
        border_color: None,
    }
}

/// One resource: its icon and amount in a row, 20 pixels from the next.
pub fn resource_display() -> (r: NodeSpec)
    ensures
        r == (NodeSpec {
            style: NodeStyle {
                flex_direction: FlexDirection::Row,
                align_items: AlignItems::Center,
                margin: Edges { left: Val::Px(0), right: Val::Px(20), top: Val::Px(0), bottom: Val::Px(0) },
                ..plain_style()
            },
            background: None,
            border_color: None,
        }),
{
    NodeSpec {
        style: NodeStyle {
            flex_direction: FlexDirection::Row,
            align_items: AlignItems::Center,
            margin: Edges::right(Val::Px(20)),
            ..NodeStyle::plain()
        },
        background: None,
        border_color: None,
    }
}

/// A resource icon: 24 pixels square, 5 pixels from its amount.
pub fn resource_icon() -> (i: NodeSpec)
    ensures
        i == (NodeSpec {
            style: NodeStyle {
                width: Val::Px(24),
                height: Val::Px(24),
                margin: Edges { left: Val::Px(0), right: Val::Px(5), top: Val::Px(0), bottom: Val::Px(0) },
                ..plain_style()
            },
            background: None,
            border_color: None,
        }),
{
    NodeSpec {
        style: NodeStyle {
            width: Val::Px(24),
            height: Val::Px(24),
            margin: Edges::right(Val::Px(5)),
            ..NodeStyle::plain()
        },
        background: None,
        border_color: None,
    }
}

} // verus!

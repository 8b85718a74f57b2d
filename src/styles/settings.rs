//! Looks of the settings screen.
use vstd::prelude::*;
use crate::colors::Rgba;
use crate::node::{
    plain_style, AlignItems, Edges, FlexDirection, JustifyContent, NodeSpec, NodeStyle, Val,
};

verus! {

/// The settings panel: 80 percent of its parent, a padded column.
pub fn settings_panel() -> (p: NodeSpec)
    ensures
        p == (NodeSpec {
            style: NodeStyle {
                width: Val::Percent(80),
                height: Val::Percent(80),
                flex_direction: FlexDirection::Column,
                padding: Edges { left: Val::Px(20), right: Val::Px(20), top: Val::Px(20), bottom: Val::Px(20) },
                row_gap: Val::Px(20),
                ..plain_style()
            },
            background: Some(Rgba::spec_new(100, 100, 100, 900)),
            border_color: None,
        }),
{
    NodeSpec {
        style: NodeStyle {
            width: Val::Percent(80),
            height: Val::Percent(80),
            flex_direction: FlexDirection::Column,
            padding: Edges::all(Val::Px(20)),
            row_gap: Val::Px(20),
            ..NodeStyle::plain()
        },
        background: Some(Rgba::new(100, 100, 100, 900)),
        border_color: None,
    }
}

/// A section of the settings panel: a full-width padded column.
pub fn settings_section() -> (s: NodeSpec)
    ensures
        s == (NodeSpec {
            style: NodeStyle {
                width: Val::Percent(100),
                flex_direction: FlexDirection::Column,
                padding: Edges { left: Val::Px(10), right: Val::Px(10), top: Val::Px(10), bottom: Val::Px(10) },
                row_gap: Val::Px(10),
                ..plain_style()
            },
            background: Some(Rgba::spec_new(200, 200, 200, 500)),
            border_color: None,
        }),
{
    NodeSpec {
        style: NodeStyle {
            width: Val::Percent(100),
            flex_direction: FlexDirection::Column,
            padding: Edges::all(Val::Px(10)),
            row_gap: Val::Px(10),
            ..NodeStyle::plain()
        },
        background: Some(Rgba::new(200, 200, 200, 500)),
        border_color: None,
    }
}

/// One setting: a full-width row with its label and control at either end.
pub fn settings_row() -> (r: NodeSpec)
    ensures
        r == (NodeSpec {
            style: NodeStyle {
                width: Val::Percent(100),
                flex_direction: FlexDirection::Row,
                justify_content: JustifyContent::SpaceBetween,
                align_items: AlignItems::Center,
                padding: Edges { left: Val::Px(10), right: Val::Px(10), top: Val::Px(0), bottom: Val::Px(0) },
                ..plain_style()
            },
            background: None,
            border_color: None,
        }),
{
    NodeSpec {
        style: NodeStyle {
            width: Val::Percent(100),
            flex_direction: FlexDirection::Row,
            justify_content: JustifyContent::SpaceBetween,
            align_items: AlignItems::Center,
            padding: Edges::horizontal(Val::Px(10)),
            ..NodeStyle::plain()
        },
        background: None,
        border_color: None,
    }
}

} // verus!

//! Looks of menus.
use vstd::prelude::*;
use crate::colors::Rgba;
use crate::node::{
    plain_style, AlignItems, Edges, FlexDirection, Font, JustifyContent, NodeSpec, NodeStyle,
    TextStyleSpec, Val,
};
use crate::styles::common;

verus! {

/// A menu button: the default button, larger and bluish.
pub fn menu_button() -> (b: NodeSpec)
    ensures
        b == (NodeSpec {
            style: NodeStyle {
                width: Val::Px(250),
                height: Val::Px(65),
                justify_content: JustifyContent::Center,
                align_items: AlignItems::Center,
                margin: Edges { left: Val::Px(5), right: Val::Px(5), top: Val::Px(5), bottom: Val::Px(5) },
                padding: Edges { left: Val::Px(10), right: Val::Px(10), top: Val::Px(10), bottom: Val::Px(10) },
                ..plain_style()
            },
            background: Some(Rgba::spec_new(200, 200, 400, 1000)),
            border_color: None,
        }),
{
    let mut button = common::button();
    button.background = Some(Rgba::opaque(200, 200, 400));
    button.style.width = Val::Px(250);
    button.style.height = Val::Px(65);
    button
}

/// Text of menu titles: bold, 48 pixels, white.
pub fn title_text() -> (t: TextStyleSpec)
    ensures
        t == (TextStyleSpec { font: Font::Bold, font_size: 48, color: Rgba::spec_new(1000, 1000, 1000, 1000) }),
{
    TextStyleSpec { font: Font::Bold, font_size: 48, color: Rgba::opaque(1000, 1000, 1000) }
}

/// A menu filling its parent: a centred column with 20 pixels between rows.
pub fn menu_container() -> (m: NodeSpec)
    ensures
        m == (NodeSpec {
            style: NodeStyle {
                width: Val::Percent(100),
                height: Val::Percent(100),
                flex_direction: FlexDirection::Column,
                justify_content: JustifyContent::Center,
                align_items: AlignItems::Center,
                row_gap: Val::Px(20),
                ..plain_style()
            },
            background: None,
            border_color: None,
        }),
{
    NodeSpec {
        style: NodeStyle {
            width: Val::Percent(100),
            height: Val::Percent(100),
            flex_direction: FlexDirection::Column,
            justify_content: JustifyContent::Center,
            align_items: AlignItems::Center,
            row_gap: Val::Px(20),
            ..NodeStyle::plain()
        },
        background: None,
        border_color: None,
    }
}

} // verus!

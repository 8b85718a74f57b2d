//! Looks shared by every screen.
use vstd::prelude::*;
use crate::colors::Rgba;
use crate::node::{
    plain_style, AlignItems, Edges, FlexDirection, Font, JustifyContent, NodeSpec, NodeStyle,
    TextStyleSpec, Val,
};

verus! {

/// The default button: 200 by 50 pixels, content centred.
pub fn button() -> (b: NodeSpec)
    ensures
        b == (NodeSpec {
            style: NodeStyle {
                width: Val::Px(200),
                height: Val::Px(50),
                justify_content: JustifyContent::Center,
                align_items: AlignItems::Center,
                margin: Edges { left: Val::Px(5), right: Val::Px(5), top: Val::Px(5), bottom: Val::Px(5) },
                padding: Edges { left: Val::Px(10), right: Val::Px(10), top: Val::Px(10), bottom: Val::Px(10) },
                ..plain_style()
            },
            background: Some(Rgba::spec_new(150, 150, 150, 1000)),
            border_color: None,
        }),
{
    NodeSpec {
        style: NodeStyle {
            width: Val::Px(200),
            height: Val::Px(50),
            justify_content: JustifyContent::Center,
            align_items: AlignItems::Center,
            margin: Edges::all(Val::Px(5)),
            padding: Edges::all(Val::Px(10)),
            ..NodeStyle::plain()
        },
        background: Some(Rgba::opaque(150, 150, 150)),
        border_color: None,
    }
}

/// Text of buttons: bold, 24 pixels, white.
pub fn button_text() -> (t: TextStyleSpec)
    ensures
        t == (TextStyleSpec { font: Font::Bold, font_size: 24, color: Rgba::spec_new(1000, 1000, 1000, 1000) }),
{
    TextStyleSpec { font: Font::Bold, font_size: 24, color: Rgba::opaque(1000, 1000, 1000) }
}

/// A panel filling its parent, stacking its children in a centred column.
pub fn panel() -> (p: NodeSpec)
    ensures
        p == (NodeSpec {
            style: NodeStyle {
                width: Val::Percent(100),
                height: Val::Percent(100),
                flex_direction: FlexDirection::Column,
                justify_content: JustifyContent::Center,
                align_items: AlignItems::Center,
                ..plain_style()
            },
            background: Some(Rgba::spec_new(100, 100, 100, 900)),
            border_color: None,
        }),
{
    NodeSpec {
        style: NodeStyle {
            width: Val::Percent(100),
            height: Val::Percent(100),
            flex_direction: FlexDirection::Column,
            justify_content: JustifyContent::Center,
            align_items: AlignItems::Center,
            ..NodeStyle::plain()
        },
        background: Some(Rgba::new(100, 100, 100, 900)),
        border_color: None,
    }
}

/// Text of subsection titles: semi-bold, 18 pixels, white.
pub fn subsection_title_style() -> (t: TextStyleSpec)
    ensures
        t == (TextStyleSpec { font: Font::SemiBold, font_size: 18, color: Rgba::spec_new(1000, 1000, 1000, 1000) }),
{
    TextStyleSpec { font: Font::SemiBold, font_size: 18, color: Rgba::opaque(1000, 1000, 1000) }
}

/// Running text: regular, 14 pixels, white.
pub fn regular_text_style() -> (t: TextStyleSpec)
    ensures
        t == (TextStyleSpec { font: Font::Regular, font_size: 14, color: Rgba::spec_new(1000, 1000, 1000, 1000) }),
{
    TextStyleSpec { font: Font::Regular, font_size: 14, color: Rgba::opaque(1000, 1000, 1000) }
}

} // verus!

//! Widget factories in the colors of the palette.
use vstd::prelude::*;
use crate::colors::Swatch;
use crate::node::{
    plain_style, AlignItems, Edges, Font, JustifyContent, NodeSpec, NodeStyle, TextSpec,
    TextStyleSpec, Val,
};

verus! {

/// A button node and its label, in the palette's normal button colors.
pub fn button_bundle(text: String, style: NodeStyle) -> (b: (NodeSpec, TextSpec))
    ensures
        b.0 == (NodeSpec {
            style: NodeStyle {
                justify_content: JustifyContent::Center,
                align_items: AlignItems::Center,
                padding: Edges { left: Val::Px(10), right: Val::Px(10), top: Val::Px(10), bottom: Val::Px(10) },
                margin: Edges { left: Val::Px(5), right: Val::Px(5), top: Val::Px(5), bottom: Val::Px(5) },
                ..style
            },
            background: Some(Swatch::ButtonNormal.spec_rgba()),
            border_color: None,
        }),
        b.1.text == text,
        b.1.style == (TextStyleSpec { font: Font::Bold, font_size: 24, color: Swatch::TextNormal.spec_rgba() }),
        b.1.layout == plain_style(),
{
    let button = NodeSpec {
        style: NodeStyle {
            justify_content: JustifyContent::Center,
            align_items: AlignItems::Center,
            padding: Edges::all(Val::Px(10)),
            margin: Edges::all(Val::Px(5)),
            ..style
        },
        background: Some(Swatch::ButtonNormal.rgba()),
        border_color: None,
    };
    let label = TextSpec {
        text,
        style: TextStyleSpec { font: Font::Bold, font_size: 24, color: Swatch::TextNormal.rgba() },
        layout: NodeStyle::plain(),
    };
    (button, label)
}

/// A checkbox in the palette's colors: a bordered square and its mark, "X"
/// when checked, empty otherwise.
pub fn checkbox_bundle(checked: bool) -> (c: (NodeSpec, TextSpec))
    ensures
        c.0 == (NodeSpec {
            style: NodeStyle {
                width: Val::Px(24),
                height: Val::Px(24),
                justify_content: JustifyContent::Center,
                align_items: AlignItems::Center,
                margin: Edges { left: Val::Px(5), right: Val::Px(5), top: Val::Px(5), bottom: Val::Px(5) },
                border: Edges { left: Val::Px(2), right: Val::Px(2), top: Val::Px(2), bottom: Val::Px(2) },
                ..plain_style()
            },
            background: Some(Swatch::ButtonNormal.spec_rgba()),
            border_color: Some(Swatch::TextNormal.spec_rgba()),
        }),
        c.1.text@ == (if checked { "X"@ } else { ""@ }),
        c.1.style == (TextStyleSpec { font: Font::Bold, font_size: 20, color: Swatch::TextNormal.spec_rgba() }),
        c.1.layout == plain_style(),
{
    let square = NodeSpec {
        style: NodeStyle {
            width: Val::Px(24),
            height: Val::Px(24),
            justify_content: JustifyContent::Center,
            align_items: AlignItems::Center,
            margin: Edges::all(Val::Px(5)),
            border: Edges::all(Val::Px(2)),
            ..NodeStyle::plain()
        },
        background: Some(Swatch::ButtonNormal.rgba()),
        border_color: Some(Swatch::TextNormal.rgba()),
    };
    let mark = if checked {
        "X".to_owned()
    } else {
        "".to_owned()
    };
    let label = TextSpec {
        text: mark,
        style: TextStyleSpec { font: Font::Bold, font_size: 20, color: Swatch::TextNormal.rgba() },
        layout: NodeStyle::plain(),
    };
    (square, label)
}

} // verus!

//! Factories for common containers and widgets.
use vstd::prelude::*;
use crate::colors::Rgba;
use crate::geometry::Point;
use crate::node::{
    plain_style, AlignItems, Edges, FlexDirection, Font, JustifyContent, NodeSpec, NodeStyle,
    PositionType, TextSpec, TextStyleSpec, Val,
};
use crate::slider::clamp;

verus! {

/// Width of a slider track built by [`slider_bundle`], in pixels.
pub const SLIDER_TRACK_WIDTH: i64 = 200;

/// A container filling its parent and centring its children.
pub fn centered_container(style: NodeStyle) -> (n: NodeSpec)
    ensures
        n == (NodeSpec {
            style: NodeStyle {
                width: Val::Percent(100),
                height: Val::Percent(100),
                justify_content: JustifyContent::Center,
                align_items: AlignItems::Center,
                ..style
            },
            background: None,
            border_color: None,
        }),
{
    NodeSpec {
        style: NodeStyle {
            width: Val::Percent(100),
            height: Val::Percent(100),
            justify_content: JustifyContent::Center,
            align_items: AlignItems::Center,
            ..style
        },
        background: None,
        border_color: None,
    }
}

/// A container stacking its children from the top, centred across.
pub fn v_stack(style: NodeStyle) -> (n: NodeSpec)
    ensures
        n == (NodeSpec {
            style: NodeStyle {
                flex_direction: FlexDirection::Column,
                align_items: AlignItems::Center,
                justify_content: JustifyContent::FlexStart,
                ..style
            },
            background: None,
            border_color: None,
        }),
{
    NodeSpec {
        style: NodeStyle {
            flex_direction: FlexDirection::Column,
            align_items: AlignItems::Center,
            justify_content: JustifyContent::FlexStart,
            ..style
        },
        background: None,
        border_color: None,
    }
}

/// A container stacking its children from the left, centred across.
pub fn h_stack(style: NodeStyle) -> (n: NodeSpec)
    ensures
        n == (NodeSpec {
            style: NodeStyle {
                flex_direction: FlexDirection::Row,
                align_items: AlignItems::Center,
                justify_content: JustifyContent::FlexStart,
                ..style
            },
            background: None,
            border_color: None,
        }),
{
    NodeSpec {
        style: NodeStyle {
            flex_direction: FlexDirection::Row,
            align_items: AlignItems::Center,
            justify_content: JustifyContent::FlexStart,
            ..style
        },
        background: None,
        border_color: None,
    }
}

/// A text node with a margin of five pixels.
pub fn text_bundle(text: String, font_size: u32, color: Rgba) -> (t: TextSpec)
    ensures
        t.text == text,
        t.style == (TextStyleSpec { font: Font::Medium, font_size, color }),
        t.layout == (NodeStyle { margin: Edges { left: Val::Px(5), right: Val::Px(5), top: Val::Px(5), bottom: Val::Px(5) }, ..plain_style() }),
{
    TextSpec {
        text,
        style: TextStyleSpec { font: Font::Medium, font_size, color },
        layout: NodeStyle { margin: Edges::all(Val::Px(5)), ..NodeStyle::plain() },
    }
}

/// A button node and its label.
pub fn button_bundle(text: String, style: NodeStyle) -> (b: (NodeSpec, TextSpec))
    ensures
        b.0 == (NodeSpec {
            style: NodeStyle {
                justify_content: JustifyContent::Center,
                align_items: AlignItems::Center,
                padding: Edges { left: Val::Px(10), right: Val::Px(10), top: Val::Px(10), bottom: Val::Px(10) },
                margin: Edges { left: Val::Px(5), right: Val::Px(5), top: Val::Px(5), bottom: Val::Px(5) },
                ..style
            },
            background: Some(Rgba::spec_new(150, 150, 150, 1000)),
            border_color: None,
        }),
        b.1.text == text,
        b.1.style == (TextStyleSpec { font: Font::Bold, font_size: 24, color: Rgba::spec_new(1000, 1000, 1000, 1000) }),
        b.1.layout == plain_style(),
{
    let button = NodeSpec {
        style: NodeStyle {
            justify_content: JustifyContent::Center,
            align_items: AlignItems::Center,
            padding: Edges::all(Val::Px(10)),
            margin: Edges::all(Val::Px(5)),
            ..style
        },
        background: Some(Rgba::opaque(150, 150, 150)),
        border_color: None,
    };
    let label = TextSpec {
        text,
        style: TextStyleSpec { font: Font::Bold, font_size: 24, color: Rgba::opaque(1000, 1000, 1000) },
        layout: NodeStyle::plain(),
    };
    (button, label)
}

/// Width of a slider's fill on a track of [`SLIDER_TRACK_WIDTH`] pixels:
/// the share of the range below `value`, kept within the track, rounded
/// down; zero for an empty range.
pub open spec fn slider_fill_px(min: int, max: int, value: int) -> int {
    if max <= min {
        0
    } else {
        (clamp(value, min, max) - min) * SLIDER_TRACK_WIDTH / (max - min)
    }
}

/// A slider: its track, its fill, and its handle centred on the fill's end.
pub fn slider_bundle(min: i32, max: i32, value: i32, style: NodeStyle) -> (s: (NodeSpec, NodeSpec, NodeSpec))
    ensures
        s.0 == (NodeSpec {
            style: NodeStyle {
                width: Val::Px(SLIDER_TRACK_WIDTH),
                height: Val::Px(8),
                margin: Edges { left: Val::Px(10), right: Val::Px(10), top: Val::Px(0), bottom: Val::Px(0) },
                ..style
            },
            background: Some(Rgba::spec_new(300, 300, 300, 1000)),
            border_color: None,
        }),
        s.1 == (NodeSpec {
            style: NodeStyle {
                width: Val::Px(slider_fill_px(min as int, max as int, value as int) as i64),
                height: Val::Percent(100),
                ..plain_style()
            },
            background: Some(Rgba::spec_new(200, 600, 1000, 1000)),
            border_color: None,
        }),
        s.2 == (NodeSpec {
            style: NodeStyle {
                width: Val::Px(16),
                height: Val::Px(24),
                position_type: PositionType::Absolute,
                left: Val::Px((slider_fill_px(min as int, max as int, value as int) - 8) as i64),
                ..plain_style()
            },
            background: Some(Rgba::spec_new(1000, 1000, 1000, 1000)),
            border_color: None,
        }),
        0 <= slider_fill_px(min as int, max as int, value as int) <= SLIDER_TRACK_WIDTH,
{
    let fill_width: i64 = if max <= min {
        0
    } else {
        let v: i64 = if value < min {
            min as i64
        } else if value > max {
            max as i64
        } else {
            value as i64
        };
        let num: i64 = (v - min as i64) * SLIDER_TRACK_WIDTH;
        let den: i64 = max as i64 - min as i64;
        proof {
            vstd::arithmetic::div_mod::lemma_div_is_ordered(num as int, den * SLIDER_TRACK_WIDTH, den as int);
            vstd::arithmetic::div_mod::lemma_div_multiples_vanish(SLIDER_TRACK_WIDTH as int, den as int);
            vstd::arithmetic::div_mod::lemma_div_pos_is_pos(num as int, den as int);
        }
        num / den
    };
    let track = NodeSpec {
        style: NodeStyle {
            width: Val::Px(SLIDER_TRACK_WIDTH),
            height: Val::Px(8),
            margin: Edges::horizontal(Val::Px(10)),
            ..style
        },
        background: Some(Rgba::opaque(300, 300, 300)),
        border_color: None,
    };
    let fill = NodeSpec {
        style: NodeStyle { width: Val::Px(fill_width), height: Val::Percent(100), ..NodeStyle::plain() },
        background: Some(Rgba::opaque(200, 600, 1000)),
        border_color: None,
    };
    let handle = NodeSpec {
        style: NodeStyle {
            width: Val::Px(16),
            height: Val::Px(24),
            position_type: PositionType::Absolute,
            left: Val::Px(fill_width - 8),
            ..NodeStyle::plain()
        },
        background: Some(Rgba::opaque(1000, 1000, 1000)),
        border_color: None,
    };
    (track, fill, handle)
}

/// A checkbox: a bordered square and its mark, "X" when checked, empty otherwise.
pub fn checkbox_bundle(checked: bool) -> (c: (NodeSpec, TextSpec))
    ensures
        c.0 == (NodeSpec {
            style: NodeStyle {
                width: Val::Px(24),
                height: Val::Px(24),
                justify_content: JustifyContent::Center,
                align_items: AlignItems::Center,
                margin: Edges { left: Val::Px(5), right: Val::Px(5), top: Val::Px(5), bottom: Val::Px(5) },
                border: Edges { left: Val::Px(2), right: Val::Px(2), top: Val::Px(2), bottom: Val::Px(2) },
                ..plain_style()
            },
            background: Some(Rgba::spec_new(100, 100, 100, 1000)),
            border_color: Some(Rgba::spec_new(1000, 1000, 1000, 1000)),
        }),
        c.1.text@ == (if checked { "X"@ } else { ""@ }),
        c.1.style == (TextStyleSpec { font: Font::Bold, font_size: 20, color: Rgba::spec_new(1000, 1000, 1000, 1000) }),
        c.1.layout == plain_style(),
{
    let square = NodeSpec {
        style: NodeStyle {
            width: Val::Px(24),
            height: Val::Px(24),
            justify_content: JustifyContent::Center,
            align_items: AlignItems::Center,
            margin: Edges::all(Val::Px(5)),
            border: Edges::all(Val::Px(2)),
            ..NodeStyle::plain()
        },
        background: Some(Rgba::opaque(100, 100, 100)),
        border_color: Some(Rgba::opaque(1000, 1000, 1000)),
    };
    let mark = if checked {
        "X".to_owned()
    } else {
        "".to_owned()
    };
    let label = TextSpec {
        text: mark,
        style: TextStyleSpec { font: Font::Bold, font_size: 20, color: Rgba::opaque(1000, 1000, 1000) },
        layout: NodeStyle::plain(),
    };
    (square, label)
}

/// A tooltip at `position`: a translucent box and its text.
pub fn tooltip_bundle(text: String, position: Point) -> (t: (NodeSpec, TextSpec))
    ensures
        t.0 == (NodeSpec {
            style: NodeStyle {
                position_type: PositionType::Absolute,
                left: Val::Px(position.x),
                top: Val::Px(position.y),
                padding: Edges { left: Val::Px(5), right: Val::Px(5), top: Val::Px(5), bottom: Val::Px(5) },
                ..plain_style()
            },
            background: Some(Rgba::spec_new(100, 100, 100, 900)),
            border_color: None,
        }),
        t.1.text == text,
        t.1.style == (TextStyleSpec { font: Font::Medium, font_size: 16, color: Rgba::spec_new(1000, 1000, 1000, 1000) }),
        t.1.layout == plain_style(),
{
    let frame = NodeSpec {
        style: NodeStyle {
            position_type: PositionType::Absolute,
            left: Val::Px(position.x),
            top: Val::Px(position.y),
            padding: Edges::all(Val::Px(5)),
            ..NodeStyle::plain()
        },
        background: Some(Rgba::new(100, 100, 100, 900)),
        border_color: None,
    };
    let label = TextSpec {
        text,
        style: TextStyleSpec { font: Font::Medium, font_size: 16, color: Rgba::opaque(1000, 1000, 1000) },
        layout: NodeStyle::plain(),
    };
    (frame, label)
}

} // verus!

use ui_common::colors::Rgba;
use ui_common::node::{
    AlignItems, Edges, FlexDirection, Font, JustifyContent, NodeStyle, PositionType, Val,
};
use ui_common::styles::{common, hud, menu, settings};
use ui_common::{bundles, utils, AccessibilityNode, Point, Role, Swatch, ValueDisplay};

#[test]
fn palette_values() {
    assert_eq!(Swatch::ButtonNormal.rgba(), Rgba::opaque(150, 150, 150));
    assert_eq!(Swatch::FocusHighlight.rgba(), Rgba::new(200, 400, 800, 300));
    assert_eq!(Swatch::Transparent.rgba(), Rgba::new(0, 0, 0, 0));
    assert_eq!(Swatch::RowIdle.rgba(), Rgba::opaque(150, 150, 300));
}

#[test]
fn slider_bundle_fill_and_handle() {
    let (track, fill, handle) = utils::slider_bundle(0, 100, 25, NodeStyle::plain());
    assert_eq!(track.style.width, Val::Px(200));
    assert_eq!(track.style.margin, Edges::horizontal(Val::Px(10)));
    assert_eq!(fill.style.width, Val::Px(50));
    assert_eq!(fill.style.height, Val::Percent(100));
    assert_eq!(handle.style.left, Val::Px(42));
    assert_eq!(handle.style.position_type, PositionType::Absolute);
    let (_, over, _) = utils::slider_bundle(0, 10, 50, NodeStyle::plain());
    assert_eq!(over.style.width, Val::Px(200));
    let (_, under, under_handle) = utils::slider_bundle(0, 10, -5, NodeStyle::plain());
    assert_eq!(under.style.width, Val::Px(0));
    assert_eq!(under_handle.style.left, Val::Px(-8));
    let (_, empty, _) = utils::slider_bundle(3, 3, 3, NodeStyle::plain());
    assert_eq!(empty.style.width, Val::Px(0));
}

#[test]
fn checkbox_bundles_marks() {
    let (square, mark) = utils::checkbox_bundle(true);
    assert_eq!(mark.text, "X");
    assert_eq!(square.style.border, Edges::all(Val::Px(2)));
    assert_eq!(square.border_color, Some(Rgba::opaque(1000, 1000, 1000)));
    let (_, blank) = utils::checkbox_bundle(false);
    assert_eq!(blank.text, "");
    let (themed, themed_mark) = bundles::checkbox_bundle(true);
    assert_eq!(themed.background, Some(Swatch::ButtonNormal.rgba()));
    assert_eq!(themed_mark.style.color, Swatch::TextNormal.rgba());
}

#[test]
fn button_bundles_keep_base_style() {
    let base = NodeStyle { width: Val::Px(120), ..NodeStyle::plain() };
    let (b, label) = utils::button_bundle(String::from("Play"), base);
    assert_eq!(b.style.width, Val::Px(120));
    assert_eq!(b.style.padding, Edges::all(Val::Px(10)));
    assert_eq!(b.style.justify_content, JustifyContent::Center);
    assert_eq!(label.text, "Play");
    assert_eq!(label.style.font, Font::Bold);
    assert_eq!(label.style.font_size, 24);
    let (t, tl) = bundles::button_bundle(String::from("Quit"), base);
    assert_eq!(t.background, Some(Rgba::opaque(150, 150, 150)));
    assert_eq!(tl.style.color, Rgba::opaque(900, 900, 900));
}

#[test]
fn containers() {
    let c = utils::centered_container(NodeStyle::plain());
    assert_eq!(c.style.width, Val::Percent(100));
    assert_eq!(c.style.align_items, AlignItems::Center);
    assert_eq!(utils::v_stack(NodeStyle::plain()).style.flex_direction, FlexDirection::Column);
    assert_eq!(utils::h_stack(NodeStyle::plain()).style.flex_direction, FlexDirection::Row);
    let t = utils::text_bundle(String::from("hi"), 12, Rgba::opaque(1, 2, 3));
    assert_eq!(t.layout.margin, Edges::all(Val::Px(5)));
    assert_eq!(t.style.font_size, 12);
    let (frame, text) = utils::tooltip_bundle(String::from("tip"), Point::new(7, 9));
    assert_eq!(frame.style.left, Val::Px(7));
    assert_eq!(frame.style.top, Val::Px(9));
    assert_eq!(frame.background, Some(Rgba::new(100, 100, 100, 900)));
    assert_eq!(text.text, "tip");
}

#[test]
fn style_sets() {
    assert_eq!(common::button().style.width, Val::Px(200));
    assert_eq!(common::button_text().font_size, 24);
    assert_eq!(common::panel().style.flex_direction, FlexDirection::Column);
    assert_eq!(common::subsection_title_style().font, Font::SemiBold);
    assert_eq!(common::regular_text_style().font_size, 14);
    let m = menu::menu_button();
    assert_eq!(m.style.width, Val::Px(250));
    assert_eq!(m.style.height, Val::Px(65));
    assert_eq!(m.background, Some(Rgba::opaque(200, 200, 400)));
    assert_eq!(menu::title_text().font_size, 48);
    assert_eq!(menu::menu_container().style.row_gap, Val::Px(20));
    assert_eq!(settings::settings_panel().style.width, Val::Percent(80));
    assert_eq!(settings::settings_section().background, Some(Rgba::new(200, 200, 200, 500)));
    assert_eq!(settings::settings_row().style.justify_content, JustifyContent::SpaceBetween);
    assert_eq!(hud::hud_container().style.bottom, Val::Px(0));
    assert_eq!(hud::resource_display().style.margin, Edges::right(Val::Px(20)));
    assert_eq!(hud::resource_icon().style.margin.right, Val::Px(5));
}

#[test]
fn accessibility_from_role() {
    let n = AccessibilityNode::from(Role::Slider);
    assert_eq!(n.role, Role::Slider);
    assert!(n.name.is_none() && n.description.is_none());
}

#[test]
fn value_display_default() {
    let v = ValueDisplay::default();
    assert_eq!((v.value, v.min, v.max), (0, 0, 100));
    assert_eq!(v.format, "{}");
}

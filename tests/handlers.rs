use ui_common::focus::next_focus;
use ui_common::scroll::scroll_bound_of;
use ui_common::slider::{slider_fill_percent, slider_value_at};
use ui_common::systems::{
    tab_visibilities, ButtonVisual, DropdownAction, ProgressDisplay, Visibility,
};
use ui_common::{
    button_interaction_system, calculate_scroll_bounds_system, checkbox_interaction_system,
    dropdown_select, dropdown_system, focus_navigation_system, focus_visual_system,
    scroll_area_system, scroll_pane_system, setting_row_system, slider_interaction_system,
    tab_system, tooltip_system, update_progress_bars, Dropdown, FocusManager, FocusState,
    FocusTarget, Focusable, FocusableType, Interaction, Point, ProgressBar, Rect, ScrollArea,
    ScrollPane, ScrollUnit, SettingRow, Swatch, TabbedContainer, Tooltip, TooltipPosition,
    UiButton, UiCheckbox, UiSlider, WheelEvent,
};

fn slider(min: i32, max: i32, value: i32, step: Option<u32>) -> UiSlider {
    UiSlider { value, min, max, format: String::from("{}"), step, disabled: false }
}

fn track(left: i64, width: i64) -> Rect {
    Rect::from_origin_size(left, 0, width, 10)
}

#[test]
fn slider_press_at_34_percent_snaps_to_30() {
    let mut s = slider(0, 100, 0, Some(10));
    let fill = slider_interaction_system(Interaction::Pressed, &mut s, Some(Point::new(34, 5)), track(0, 100));
    assert_eq!(s.value, 30);
    assert_eq!(fill, 30);
}

#[test]
fn slider_press_on_offset_track() {
    let mut s = slider(0, 100, 0, Some(10));
    let fill = slider_interaction_system(Interaction::Pressed, &mut s, Some(Point::new(168, 5)), track(100, 200));
    assert_eq!(s.value, 30);
    assert_eq!(fill, 30);
}

#[test]
fn slider_rounds_to_nearest_step() {
    let mut s = slider(0, 100, 0, Some(10));
    slider_interaction_system(Interaction::Pressed, &mut s, Some(Point::new(35, 5)), track(0, 100));
    assert_eq!(s.value, 40);
    slider_interaction_system(Interaction::Pressed, &mut s, Some(Point::new(44, 5)), track(0, 100));
    assert_eq!(s.value, 40);
}

#[test]
fn slider_without_step_rounds_to_whole_number() {
    let mut s = slider(-50, 50, 0, None);
    let fill = slider_interaction_system(Interaction::Pressed, &mut s, Some(Point::new(25, 5)), track(0, 200));
    assert_eq!(s.value, -37);
    assert_eq!(fill, 13);
}

#[test]
fn slider_pointer_beyond_track_is_clamped() {
    let mut s = slider(10, 20, 15, None);
    slider_interaction_system(Interaction::Pressed, &mut s, Some(Point::new(500, 5)), track(0, 100));
    assert_eq!(s.value, 20);
    slider_interaction_system(Interaction::Pressed, &mut s, Some(Point::new(-500, 5)), track(0, 100));
    assert_eq!(s.value, 10);
}

#[test]
fn slider_step_not_dividing_range_is_clamped_to_max() {
    let mut s = slider(0, 95, 0, Some(10));
    slider_interaction_system(Interaction::Pressed, &mut s, Some(Point::new(100, 5)), track(0, 100));
    assert_eq!(s.value, 95);
}

#[test]
fn slider_disabled_ignores_press() {
    let mut s = slider(0, 100, 70, Some(10));
    s.disabled = true;
    let fill = slider_interaction_system(Interaction::Pressed, &mut s, Some(Point::new(10, 5)), track(0, 100));
    assert_eq!(s.value, 70);
    assert_eq!(fill, 70);
}

#[test]
fn slider_hover_keeps_value() {
    let mut s = slider(0, 200, 50, None);
    let fill = slider_interaction_system(Interaction::Hovered, &mut s, Some(Point::new(90, 5)), track(0, 100));
    assert_eq!(s.value, 50);
    assert_eq!(fill, 25);
    let fill = slider_interaction_system(Interaction::Idle, &mut s, None, track(0, 100));
    assert_eq!(s.value, 50);
    assert_eq!(fill, 25);
}

#[test]
fn slider_degenerate_track_selects_min() {
    let s = slider(5, 9, 7, None);
    assert_eq!(slider_value_at(&s, 3, track(3, 0)), 5);
}

#[test]
fn slider_fill_of_empty_range_is_zero() {
    assert_eq!(slider_fill_percent(4, 4, 4), 0);
    assert_eq!(slider_fill_percent(150, 0, 100), 100);
}

#[test]
fn slider_same_press_twice_no_drift() {
    let mut s = slider(0, 100, 0, Some(5));
    slider_interaction_system(Interaction::Pressed, &mut s, Some(Point::new(62, 5)), track(0, 100));
    let first = s.value;
    slider_interaction_system(Interaction::Pressed, &mut s, Some(Point::new(62, 5)), track(0, 100));
    assert_eq!(first, 60);
    assert_eq!(s.value, first);
}

#[test]
fn slider_values_stay_on_steps_over_many_presses() {
    let mut s = slider(-30, 30, 0, Some(6));
    let mut x: i64 = -20;
    while x <= 140 {
        slider_interaction_system(Interaction::Pressed, &mut s, Some(Point::new(x, 5)), track(0, 120));
        assert!(s.value >= -30 && s.value <= 30);
        assert_eq!((s.value + 30) % 6, 0);
        x += 7;
    }
}

#[test]
fn checkbox_press_toggles_twice() {
    let mut c = UiCheckbox::default();
    assert!(!c.checked);
    let bg = checkbox_interaction_system(Interaction::Pressed, &mut c);
    assert!(c.checked);
    assert_eq!(bg, Some(Swatch::ButtonPressed));
    let bg = checkbox_interaction_system(Interaction::Pressed, &mut c);
    assert!(!c.checked);
    assert_eq!(bg, Some(Swatch::ButtonNormal));
}

#[test]
fn checkbox_disabled_or_hovered_keeps_state() {
    let mut c = UiCheckbox { checked: true, disabled: true, tooltip: None };
    assert_eq!(checkbox_interaction_system(Interaction::Pressed, &mut c), None);
    assert!(c.checked);
    let mut d = UiCheckbox::default();
    assert_eq!(checkbox_interaction_system(Interaction::Hovered, &mut d), None);
    assert_eq!(checkbox_interaction_system(Interaction::Idle, &mut d), None);
    assert!(!d.checked);
}

#[test]
fn button_states_and_colors() {
    let mut b = UiButton::default();
    let v = button_interaction_system(Interaction::Pressed, &mut b);
    assert!(b.pressed && !b.hovered);
    assert_eq!(v, ButtonVisual { background: Swatch::ButtonPressed, text: Swatch::FocusText });
    let v = button_interaction_system(Interaction::Hovered, &mut b);
    assert!(!b.pressed && b.hovered);
    assert_eq!(v, ButtonVisual { background: Swatch::ButtonHovered, text: Swatch::TextNormal });
    let v = button_interaction_system(Interaction::Idle, &mut b);
    assert!(!b.pressed && !b.hovered);
    assert_eq!(v, ButtonVisual { background: Swatch::ButtonNormal, text: Swatch::TextNormal });
}

#[test]
fn button_same_state_twice_no_drift() {
    let mut b = UiButton { pressed: false, hovered: false, disabled: true, tooltip: Some(String::from("go")) };
    button_interaction_system(Interaction::Hovered, &mut b);
    let once = (b.pressed, b.hovered, b.disabled, b.tooltip.clone());
    button_interaction_system(Interaction::Hovered, &mut b);
    assert_eq!((b.pressed, b.hovered, b.disabled, b.tooltip.clone()), once);
}

fn wheel(unit: ScrollUnit, y: i32) -> WheelEvent {
    WheelEvent { unit, y }
}

fn pane(pos: i64, max: i64) -> ScrollPane {
    ScrollPane { scroll_position: Point::new(0, pos), max_scroll: Point::new(0, max) }
}

#[test]
fn scroll_lines_count_twenty_pixels() {
    let mut p = pane(0, 500);
    let area = Rect::from_origin_size(0, 0, 100, 100);
    scroll_pane_system(&mut p, &vec![wheel(ScrollUnit::Line, 3)], Some(Point::new(50, 50)), area);
    assert_eq!(p.scroll_position.y, 60);
    scroll_pane_system(&mut p, &vec![wheel(ScrollUnit::Pixel, -15)], Some(Point::new(50, 50)), area);
    assert_eq!(p.scroll_position.y, 45);
}

#[test]
fn scroll_is_clamped_at_each_event() {
    let mut p = pane(10, 100);
    let area = Rect::from_origin_size(0, 0, 100, 100);
    let events = vec![wheel(ScrollUnit::Line, -5), wheel(ScrollUnit::Pixel, 30), wheel(ScrollUnit::Line, 50)];
    scroll_pane_system(&mut p, &events, Some(Point::new(0, 100)), area);
    assert_eq!(p.scroll_position.y, 100);
    let events = vec![wheel(ScrollUnit::Line, 50), wheel(ScrollUnit::Pixel, -30)];
    let mut q = pane(0, 100);
    scroll_pane_system(&mut q, &events, Some(Point::new(0, 100)), area);
    assert_eq!(q.scroll_position.y, 70);
}

#[test]
fn scroll_extreme_deltas_stay_in_bounds() {
    let mut p = pane(3, 7);
    let area = Rect::from_origin_size(0, 0, 10, 10);
    let events = vec![wheel(ScrollUnit::Line, i32::MAX), wheel(ScrollUnit::Line, i32::MIN), wheel(ScrollUnit::Pixel, i32::MAX)];
    scroll_pane_system(&mut p, &events, Some(Point::new(5, 5)), area);
    assert_eq!(p.scroll_position.y, 7);
}

#[test]
fn scroll_outside_or_without_cursor_is_ignored() {
    let area = Rect::from_origin_size(0, 0, 100, 100);
    let mut p = pane(20, 100);
    scroll_pane_system(&mut p, &vec![wheel(ScrollUnit::Line, 1)], Some(Point::new(101, 50)), area);
    assert_eq!(p.scroll_position.y, 20);
    scroll_pane_system(&mut p, &vec![wheel(ScrollUnit::Line, 1)], None, area);
    assert_eq!(p.scroll_position.y, 20);
    scroll_pane_system(&mut p, &vec![], Some(Point::new(50, 50)), area);
    assert_eq!(p.scroll_position.y, 20);
}

#[test]
fn scroll_area_uses_sensitivity_on_both_axes() {
    let mut a = ScrollArea::new();
    a.max_scroll = Point::new(0, 1000);
    let area = Rect::from_origin_size(0, 0, 100, 100);
    scroll_area_system(&mut a, &vec![wheel(ScrollUnit::Pixel, 2)], Some(Point::new(1, 1)), area);
    assert_eq!(a.scroll_position, Point::new(0, 40));
    scroll_area_system(&mut a, &vec![wheel(ScrollUnit::Line, 1)], Some(Point::new(1, 1)), area);
    assert_eq!(a.scroll_position, Point::new(0, 440));
}

#[test]
fn scroll_area_disabled_is_ignored() {
    let mut a = ScrollArea::with_sensitivity(3);
    assert!(!a.enabled);
    assert_eq!(a.sensitivity, 3);
    a.max_scroll = Point::new(0, 100);
    scroll_area_system(&mut a, &vec![wheel(ScrollUnit::Pixel, 10)], Some(Point::new(1, 1)), Rect::from_origin_size(0, 0, 5, 5));
    assert_eq!(a.scroll_position, Point::new(0, 0));
}

#[test]
fn scroll_bounds_from_children() {
    let mut a = ScrollArea::new();
    calculate_scroll_bounds_system(&mut a, 100, &vec![Some(40), None, Some(50), Some(30)]);
    assert_eq!(a.max_scroll, Point::new(0, 20));
    calculate_scroll_bounds_system(&mut a, 100, &vec![Some(40), Some(50)]);
    assert_eq!(a.max_scroll, Point::new(0, 0));
    assert_eq!(scroll_bound_of(0, &vec![]), 0);
    assert_eq!(scroll_bound_of(-5, &vec![Some(i32::MAX), Some(i32::MAX)]), 2 * (i32::MAX as i64) + 5);
}

fn target(id: u64, x: i64, y: i64) -> FocusTarget {
    FocusTarget { id, x, y }
}

#[test]
fn focus_goes_in_reading_order() {
    let items = vec![target(1, 50, 100), target(2, 10, 100), target(3, 90, 10), target(4, 0, 200)];
    let mut m = FocusManager::default();
    let mut seen = Vec::new();
    for _ in 0..4 {
        focus_navigation_system(&mut m, true, &items);
        seen.push(m.current.unwrap());
    }
    assert_eq!(seen, vec![3, 2, 1, 4]);
    focus_navigation_system(&mut m, true, &items);
    assert_eq!(m.current, Some(3));
}

#[test]
fn focus_returns_after_as_many_presses_as_widgets() {
    let items = vec![target(7, 5, 5), target(8, 5, 5), target(9, 1, 5), target(10, 3, 0), target(11, 0, 9)];
    let mut m = FocusManager { current: Some(8) };
    for _ in 0..items.len() {
        focus_navigation_system(&mut m, true, &items);
    }
    assert_eq!(m.current, Some(8));
}

#[test]
fn focus_equal_positions_keep_list_order() {
    let items = vec![target(1, 0, 0), target(2, 0, 0), target(3, 0, 0)];
    assert_eq!(next_focus(&items, Some(1)), Some(2));
    assert_eq!(next_focus(&items, Some(2)), Some(3));
    assert_eq!(next_focus(&items, Some(3)), Some(1));
}

#[test]
fn focus_states_and_edge_cases() {
    let items = vec![target(1, 0, 0), target(2, 0, 10)];
    let mut m = FocusManager { current: Some(1) };
    let states = focus_navigation_system(&mut m, false, &items);
    assert_eq!(m.current, Some(1));
    assert_eq!(states, vec![FocusState::Focused, FocusState::NotFocused]);
    let states = focus_navigation_system(&mut m, true, &items);
    assert_eq!(states, vec![FocusState::NotFocused, FocusState::Focused]);
    assert_eq!(next_focus(&vec![], None), None);
    assert_eq!(next_focus(&vec![], Some(4)), Some(4));
    assert_eq!(next_focus(&items, Some(99)), Some(99));
}

#[test]
fn focus_visuals() {
    let f = Focusable { state: FocusState::Focused, focus_type: FocusableType::Button };
    assert_eq!(focus_visual_system(&f), (Swatch::FocusHighlight, Swatch::FocusBorder));
    let g = Focusable { state: FocusState::NotFocused, focus_type: FocusableType::Slider };
    assert_eq!(focus_visual_system(&g), (Swatch::ButtonNormal, Swatch::Transparent));
    let h = Focusable { state: FocusState::Active, focus_type: FocusableType::Checkbox };
    assert_eq!(focus_visual_system(&h), (Swatch::ButtonNormal, Swatch::Transparent));
}

#[test]
fn tab_press_shows_exactly_one() {
    let mut c = TabbedContainer { tabs: vec![String::from("a"), String::from("b"), String::from("c")], active_tab: 0 };
    let vis = tab_system(Interaction::Pressed, &mut c, &vec![10, 11, 12], 12).unwrap();
    assert_eq!(c.active_tab, 2);
    assert_eq!(vis, vec![Visibility::Hidden, Visibility::Hidden, Visibility::Visible]);
    assert_eq!(vis.iter().filter(|v| **v == Visibility::Visible).count(), 1);
    let again = tab_system(Interaction::Pressed, &mut c, &vec![10, 11, 12], 12).unwrap();
    assert_eq!(c.active_tab, 2);
    assert_eq!(again, vis);
}

#[test]
fn tab_hover_or_unknown_button_changes_nothing() {
    let mut c = TabbedContainer::default();
    c.active_tab = 1;
    assert!(tab_system(Interaction::Hovered, &mut c, &vec![1, 2], 1).is_none());
    assert!(tab_system(Interaction::Pressed, &mut c, &vec![1, 2], 3).is_none());
    assert_eq!(c.active_tab, 1);
    assert_eq!(tab_visibilities(3, 0), vec![Visibility::Visible, Visibility::Hidden, Visibility::Hidden]);
}

#[test]
fn dropdown_opens_with_rows_and_closes() {
    let mut d = Dropdown { options: vec![String::from("Low"), String::from("High")], selected_index: 0, opened: false };
    match dropdown_system(Interaction::Pressed, &mut d) {
        DropdownAction::ShowOptions(rows) => {
            assert_eq!(rows.len(), 2);
            assert_eq!(rows[1].position, 1);
            assert_eq!(rows[1].label, "High");
        }
        other => panic!("unexpected {:?}", other),
    }
    assert!(d.opened);
    assert!(matches!(dropdown_system(Interaction::Hovered, &mut d), DropdownAction::Keep));
    assert!(d.opened);
    assert!(matches!(dropdown_system(Interaction::Pressed, &mut d), DropdownAction::HideOptions));
    assert!(!d.opened);
}

#[test]
fn dropdown_selection_commits_and_closes() {
    let mut d = Dropdown { options: vec![String::from("a"), String::from("b")], selected_index: 0, opened: true };
    assert!(matches!(dropdown_select(&mut d, 1), DropdownAction::HideOptions));
    assert_eq!(d.selected_index, 1);
    assert!(!d.opened);
    d.opened = true;
    assert!(matches!(dropdown_select(&mut d, 2), DropdownAction::Keep));
    assert_eq!(d.selected_index, 1);
    assert!(d.opened);
    let e = Dropdown::default();
    assert!(e.options.is_empty() && e.selected_index == 0 && !e.opened);
}

#[test]
fn setting_row_colors_and_help() {
    let row = SettingRow { label: String::from("Volume"), help_text: Some(String::from("Overall loudness")) };
    let u = setting_row_system(&row, Interaction::Pressed, FocusState::Focused);
    assert_eq!(u.background, Swatch::RowPressed);
    assert_eq!(u.tooltip_text, None);
    let u = setting_row_system(&row, Interaction::Hovered, FocusState::NotFocused);
    assert_eq!(u.background, Swatch::RowHovered);
    assert_eq!(u.tooltip_text, Some(String::from("Overall loudness")));
    let u = setting_row_system(&row, Interaction::Hovered, FocusState::Focused);
    assert_eq!(u.background, Swatch::RowFocused);
    let u = setting_row_system(&row, Interaction::Idle, FocusState::Active);
    assert_eq!(u.background, Swatch::RowIdle);
    let u = setting_row_system(&row, Interaction::Hovered, FocusState::Active);
    assert_eq!(u.background, Swatch::RowIdle);
}

#[test]
fn tooltip_follows_cursor_with_offset() {
    let t = Tooltip { text: String::from("Hint"), position: TooltipPosition::Top, offset: 12 };
    let v = tooltip_system(&t, true, Some(Point::new(100, 50))).unwrap();
    assert_eq!(v.text, "Hint");
    assert_eq!(v.position, Point::new(100, 38));
    assert_eq!(v.padding, 8);
    let r = Tooltip { text: String::from("R"), position: TooltipPosition::Right, offset: 4 };
    assert_eq!(tooltip_system(&r, true, Some(Point::new(1, 2))).unwrap().position, Point::new(5, 2));
    let l = Tooltip { text: String::from("L"), position: TooltipPosition::Left, offset: 4 };
    assert_eq!(tooltip_system(&l, true, Some(Point::new(1, 2))).unwrap().position, Point::new(-3, 2));
    let b = Tooltip { text: String::from("B"), position: TooltipPosition::Bottom, offset: 4 };
    assert_eq!(tooltip_system(&b, true, Some(Point::new(1, 2))).unwrap().position, Point::new(1, 6));
    assert!(tooltip_system(&t, false, Some(Point::new(1, 2))).is_none());
    assert!(tooltip_system(&t, true, None).is_none());
}

#[test]
fn progress_bar_display() {
    let bar = ProgressBar { value: 425, show_text: true, ..ProgressBar::default() };
    assert_eq!(update_progress_bars(&bar), ProgressDisplay { width_percent: 43, text_percent: Some(43) });
    let over = ProgressBar { value: 1500, show_text: true, ..ProgressBar::default() };
    assert_eq!(update_progress_bars(&over), ProgressDisplay { width_percent: 100, text_percent: Some(150) });
    let quiet = ProgressBar { value: 0, show_text: false, ..ProgressBar::default() };
    assert_eq!(update_progress_bars(&quiet), ProgressDisplay { width_percent: 0, text_percent: None });
}

#[test]
fn slider_with_inverted_range_keeps_value() {
    let mut s = slider(10, 0, 5, None);
    let fill = slider_interaction_system(Interaction::Pressed, &mut s, Some(Point::new(50, 5)), track(0, 100));
    assert_eq!(s.value, 5);
    assert_eq!(fill, 0);
}

#[test]
fn focus_moves_highlight_off_previous_widget() {
    let items = vec![target(1, 0, 0), target(2, 0, 10)];
    let mut m = FocusManager { current: Some(1) };
    let states = focus_navigation_system(&mut m, true, &items);
    let colors: Vec<(Swatch, Swatch)> = states
        .iter()
        .map(|s| focus_visual_system(&Focusable { state: *s, focus_type: FocusableType::Button }))
        .collect();
    assert_eq!(colors[0], (Swatch::ButtonNormal, Swatch::Transparent));
    assert_eq!(colors[1], (Swatch::FocusHighlight, Swatch::FocusBorder));
}

#[test]
fn checkbox_second_call_without_press_keeps_toggle() {
    let mut c = UiCheckbox::default();
    checkbox_interaction_system(Interaction::Pressed, &mut c);
    assert!(c.checked);
    assert_eq!(checkbox_interaction_system(Interaction::Hovered, &mut c), None);
    assert!(c.checked);
}

#[test]
fn scroll_bounds_recompute_pulls_position_back() {
    let mut a = ScrollArea::new();
    a.max_scroll = Point::new(0, 100);
    a.scroll_position = Point::new(0, 50);
    calculate_scroll_bounds_system(&mut a, 100, &vec![Some(40)]);
    assert_eq!(a.max_scroll, Point::new(0, 0));
    assert_eq!(a.scroll_position, Point::new(0, 0));
    a.max_scroll = Point::new(0, 300);
    a.scroll_position = Point::new(7, 250);
    calculate_scroll_bounds_system(&mut a, 100, &vec![Some(150), Some(130)]);
    assert_eq!(a.max_scroll, Point::new(0, 180));
    assert_eq!(a.scroll_position, Point::new(0, 180));
    a.scroll_position = Point::new(0, 60);
    calculate_scroll_bounds_system(&mut a, 100, &vec![Some(150), Some(130)]);
    assert_eq!(a.scroll_position, Point::new(0, 60));
}

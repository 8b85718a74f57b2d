//! Widget state records.
use vstd::prelude::*;
use crate::colors::Rgba;
use crate::geometry::Point;

verus! {

/// A button with visual states.
#[derive(Clone, Debug, Default)]
pub struct UiButton {
    /// Whether the button is currently pressed.
    pub pressed: bool,
    /// Whether the button is currently hovered.
    pub hovered: bool,
    /// Whether the button is disabled.
    pub disabled: bool,
    /// Optional tooltip text.
    pub tooltip: Option<String>,
}

/// A checkbox with a toggle state.
#[derive(Clone, Debug, Default)]
pub struct UiCheckbox {
    /// Whether the checkbox is checked.
    pub checked: bool,
    /// Whether the checkbox is disabled.
    pub disabled: bool,
    /// Optional tooltip text.
    pub tooltip: Option<String>,
}

/// A horizontal slider over the whole numbers `min..=max`.
#[derive(Clone, Debug, Default)]
pub struct UiSlider {
    /// Current value, within `min..=max`.
    pub value: i32,
    /// Smallest allowed value.
    pub min: i32,
    /// Largest allowed value.
    pub max: i32,
    /// Format string for display (e.g. "{}%").
    pub format: String,
    /// Optional step: the value is then `min` plus a multiple of it.
    pub step: Option<u32>,
    /// Whether the slider ignores pointer input.
    pub disabled: bool,
}

impl UiSlider {
    /// The value lies in its range, which is not empty.
    pub open spec fn in_range(self) -> bool {
        self.min <= self.value <= self.max
    }

    /// The value is `min` plus a whole number of steps (always so without a step).
    pub open spec fn on_step(self) -> bool {
        match self.step {
            Some(s) => s > 0 ==> (self.value - self.min) % (s as int) == 0,
            None => true,
        }
    }
}

/// A dropdown menu.
#[derive(Clone, Debug, Default)]
pub struct UiDropdown {
    /// Whether the dropdown is currently open.
    pub open: bool,
    /// The currently selected option index.
    pub selected: Option<usize>,
    /// The available options.
    pub options: Vec<String>,
    /// Whether the dropdown is disabled.
    pub disabled: bool,
}

/// A tooltip attached to a widget.
#[derive(Clone, Debug, Default)]
pub struct UiTooltip {
    /// The tooltip text.
    pub text: String,
    /// The position offset from the parent.
    pub offset: Point,
}

/// A scrollable area.
#[derive(Clone, Debug, Default)]
pub struct Scrollable {
    /// Current scroll position, in pixels.
    pub scroll: i64,
    /// Whether the content scrolls vertically.
    pub vertical: bool,
    /// Whether the content scrolls horizontally.
    pub horizontal: bool,
}

/// A tab container.
#[derive(Clone, Debug, Default)]
pub struct TabContainer {
    /// The currently active tab index.
    pub active_tab: usize,
}

/// One tab of a tab container.
#[derive(Clone, Debug, Default)]
pub struct Tab {
    /// The index of this tab.
    pub index: usize,
    /// Whether this tab is the active tab.
    pub active: bool,
}

/// A panel grouping other widgets.
#[derive(Clone, Debug, Default)]
pub struct Panel {
    /// The panel title.
    pub title: Option<String>,
    /// Whether the panel can be collapsed.
    pub collapsible: bool,
    /// Whether the panel is currently collapsed.
    pub collapsed: bool,
}

/// A progress bar; `value` is the fraction done, in thousandths.
#[derive(Clone, Debug, Default)]
pub struct ProgressBar {
    /// Fraction done, in thousandths (1000 is complete).
    pub value: u32,
    /// Background color.
    pub background_color: Rgba,
    /// Fill color.
    pub fill_color: Rgba,
    /// Whether to show the percentage as text.
    pub show_text: bool,
}

/// A widget that takes part in keyboard focus traversal.
#[derive(Clone, Copy, Debug, PartialEq, Eq, Structural)]
pub struct Focusable {
    /// Current focus state of the widget.
    pub state: FocusState,
    /// Kind of focusable widget.
    pub focus_type: FocusableType,
}

/// The focus state of a widget.
#[derive(Clone, Copy, Debug, PartialEq, Eq, Structural, Default)]
pub enum FocusState {
    /// Not focused.
    NotFocused,
    /// Has keyboard focus.
    Focused,
    /// Being interacted with.
    #[default]
    Active,
}

/// Kinds of focusable widgets.
#[derive(Clone, Copy, Debug, PartialEq, Eq, Structural, Default)]
pub enum FocusableType {
    Button,
    Slider,
    Checkbox,
    #[default]
    Dropdown,
}

/// A row of a settings menu.
#[derive(Clone, Debug)]
pub struct SettingRow {
    /// Label of the setting.
    pub label: String,
    /// Optional help text, shown as a tooltip.
    pub help_text: Option<String>,
}

/// A dropdown selector.
#[derive(Clone, Debug)]
pub struct Dropdown {
    /// Options offered.
    pub options: Vec<String>,
    /// Index of the selected option.
    pub selected_index: usize,
    /// Whether the option list is shown.
    pub opened: bool,
}

impl Default for Dropdown {
    fn default() -> (d: Dropdown)
        ensures
            d.options@.len() == 0,
            d.selected_index == 0,
            !d.opened,
    {
        Dropdown { options: Vec::new(), selected_index: 0, opened: false }
    }
}

/// A tabbed interface.
#[derive(Clone, Debug)]
pub struct TabbedContainer {
    /// Names of the tabs.
    pub tabs: Vec<String>,
    /// Index of the active tab.
    pub active_tab: usize,
}

impl Default for TabbedContainer {
    fn default() -> (t: TabbedContainer)
        ensures
            t.tabs@.len() == 0,
            t.active_tab == 0,
    {
        TabbedContainer { tabs: Vec::new(), active_tab: 0 }
    }
}

/// A panel that can be collapsed.
#[derive(Clone, Debug)]
pub struct Collapsible {
    /// Title text.
    pub title: String,
    /// Whether the panel can be collapsed.
    pub collapsible: bool,
    /// Whether it is collapsed now.
    pub collapsed: bool,
}

/// Where a tooltip stands relative to the cursor.
#[derive(Clone, Copy, Debug, PartialEq, Eq, Structural, Default)]
pub enum TooltipPosition {
    #[default]
    Top,
    Bottom,
    Left,
    Right,
}

/// A tooltip with positioning.
#[derive(Clone, Debug)]
pub struct Tooltip {
    /// The tooltip text.
    pub text: String,
    /// The side on which it is shown.
    pub position: TooltipPosition,
    /// Distance from the cursor, in pixels.
    pub offset: i64,
}

/// A scroll pane; it scrolls along the vertical axis.
#[derive(Clone, Copy, Debug, PartialEq, Eq, Structural)]
pub struct ScrollPane {
    /// Current scroll position, in pixels.
    pub scroll_position: Point,
    /// Largest scroll position, in pixels.
    pub max_scroll: Point,
}

impl ScrollPane {
    /// The vertical position lies between zero and its bound.
    pub open spec fn in_bounds(self) -> bool {
        0 <= self.scroll_position.y <= self.max_scroll.y
    }
}

impl Default for ScrollPane {
    fn default() -> (p: ScrollPane)
        ensures
            p.scroll_position == (Point { x: 0, y: 0 }),
            p.max_scroll == (Point { x: 0, y: 0 }),
    {
        ScrollPane { scroll_position: Point { x: 0, y: 0 }, max_scroll: Point { x: 0, y: 0 } }
    }
}

/// A numeric value shown against its range.
#[derive(Clone, Debug)]
pub struct ValueDisplay {
    /// Value shown.
    pub value: i32,
    /// Lower reference value.
    pub min: i32,
    /// Upper reference value.
    pub max: i32,
    /// Format string for display.
    pub format: String,
}

impl Default for ValueDisplay {
    fn default() -> (v: ValueDisplay)
        ensures
            v.value == 0,
            v.min == 0,
            v.max == 100,
            v.format@ == "{}"@,
    {
        ValueDisplay { value: 0, min: 0, max: 100, format: "{}".to_owned() }
    }
}

/// A slider for choosing a number precisely.
#[derive(Clone, Debug)]
pub struct NumericSlider {
    /// Current value, between `min` and `max`.
    pub value: i32,
    /// Smallest allowed value.
    pub min: i32,
    /// Largest allowed value.
    pub max: i32,
    /// Format string for display.
    pub format: String,
}

} // verus!

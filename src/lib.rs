//! Reusable UI widget logic: widget state records, per-frame interaction
//! handlers, focus traversal and display-node factories.
//!
//! Everything here works on plain integer values: positions and sizes are
//! whole logical pixels, colors are sRGB channels in thousandths. The host
//! engine reads its own events and transforms, hands them over as these
//! values, and applies the results to its entities.
use vstd::prelude::*;

pub mod accessibility;
pub mod bundles;
pub mod colors;
pub mod components;
pub mod focus;
pub mod geometry;
pub mod input;
pub mod node;
pub mod scroll;
pub mod slider;
pub mod styles;
pub mod systems;
pub mod types;
pub mod utils;

pub use accessibility::{AccessibilityNode, Role};
pub use colors::{Rgba, Swatch};
pub use components::{
    Collapsible, Dropdown, FocusState, Focusable, FocusableType, NumericSlider, Panel, ProgressBar,
    ScrollPane, Scrollable, SettingRow, Tab, TabContainer, TabbedContainer, Tooltip,
    TooltipPosition, UiButton, UiCheckbox, UiDropdown, UiSlider, UiTooltip, ValueDisplay,
};
pub use focus::{focus_navigation_system, focus_visual_system, FocusManager, FocusTarget};
pub use geometry::{Point, Rect};
pub use input::{Interaction, ScrollUnit, WheelEvent};
pub use scroll::{calculate_scroll_bounds_system, scroll_area_system, scroll_pane_system, ScrollArea};
pub use slider::slider_interaction_system;
pub use systems::{
    button_interaction_system, checkbox_interaction_system, dropdown_select, dropdown_system,
    setting_row_system, tab_system, tooltip_system, update_progress_bars,
};
pub use types::{CheckboxType, SettingsTab, SliderType, WindowMode};

//! Accessibility metadata of widgets.
use vstd::prelude::*;

verus! {

/// Accessibility roles of widgets.
#[derive(Clone, Copy, Debug, PartialEq, Eq, Structural)]
pub enum Role {
    /// A clickable button.
    Button,
    /// A slider selecting a value.
    Slider,
    /// A checkbox toggling a setting.
    Checkbox,
    /// A radio button selecting one option of many.
    Radio,
    /// A tab of a tabbed interface.
    Tab,
    /// A text element.
    Text,
}

/// Accessibility information of a widget.
#[derive(Clone, Debug)]
pub struct AccessibilityNode {
    /// The semantic role.
    pub role: Role,
    /// Optional name, read out by screen readers.
    pub name: Option<String>,
    /// Optional longer description.
    pub description: Option<String>,
}

impl From<Role> for AccessibilityNode {
    fn from(role: Role) -> (n: AccessibilityNode) {
        AccessibilityNode { role, name: None, description: None }
    }
}

impl vstd::std_specs::convert::FromSpecImpl<Role> for AccessibilityNode {
    open spec fn obeys_from_spec() -> bool {
        true
    }

    open spec fn from_spec(role: Role) -> AccessibilityNode {
        AccessibilityNode { role, name: None, description: None }
    }
}

} // verus!

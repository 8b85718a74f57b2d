//! Input as the host engine reports it, in plain values.
use vstd::prelude::*;

verus! {

/// Pointer interaction state of a widget.
#[derive(Clone, Copy, Debug, PartialEq, Eq, Structural)]
pub enum Interaction {
    /// The pointer is pressed on the widget.
    Pressed,
    /// The pointer is over the widget.
    Hovered,
    /// The pointer is elsewhere.
    Idle,
}

/// Unit of a mouse-wheel delta.
#[derive(Clone, Copy, Debug, PartialEq, Eq, Structural)]
pub enum ScrollUnit {
    /// Lines (notches of a wheel).
    Line,
    /// Pixels (touchpads).
    Pixel,
}

/// One mouse-wheel event: a vertical delta and its unit.
#[derive(Clone, Copy, Debug, PartialEq, Eq, Structural)]
pub struct WheelEvent {
    pub unit: ScrollUnit,
    pub y: i32,
}

} // verus!

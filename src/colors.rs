//! The widget palette. Channels are sRGB in thousandths (0 to 1000).
use vstd::prelude::*;

verus! {

/// Default slider track height, in pixels.
pub const SLIDER_HEIGHT: u32 = 8;

/// Default slider handle size, in pixels.
pub const SLIDER_HANDLE_SIZE: u32 = 16;

/// An sRGB color with alpha; each channel in thousandths.
#[derive(Clone, Copy, Debug, PartialEq, Eq, Structural, Default)]
pub struct Rgba {
    pub r: u16,
    pub g: u16,
    pub b: u16,
    pub a: u16,
}

impl Rgba {
    pub open spec fn spec_new(r: u16, g: u16, b: u16, a: u16) -> Rgba {
        Rgba { r, g, b, a }
    }

    pub open spec fn valid(self) -> bool {
        self.r <= 1000 && self.g <= 1000 && self.b <= 1000 && self.a <= 1000
    }

    /// An opaque color.
    pub fn opaque(r: u16, g: u16, b: u16) -> (c: Rgba)
        ensures
            c == Rgba::spec_new(r, g, b, 1000),
    {
        Rgba { r, g, b, a: 1000 }
    }

    pub fn new(r: u16, g: u16, b: u16, a: u16) -> (c: Rgba)
        ensures
            c == Rgba::spec_new(r, g, b, a),
    {
        Rgba { r, g, b, a }
    }
}

/// The named entries of the widget palette.
#[derive(Clone, Copy, Debug, PartialEq, Eq, Structural)]
pub enum Swatch {
    White,
    Black,
    Transparent,
    ButtonNormal,
    ButtonHovered,
    ButtonPressed,
    ButtonDisabled,
    FocusHighlight,
    FocusBorder,
    FocusText,
    TextNormal,
    TextDisabled,
    SliderBackground,
    SliderForeground,
    SliderHandle,
    RowPressed,
    RowHovered,
    RowFocused,
    RowIdle,
}

impl Swatch {
    pub open spec fn spec_rgba(self) -> Rgba {
        match self {
            Swatch::White => Rgba::spec_new(1000, 1000, 1000, 1000),
            Swatch::Black => Rgba::spec_new(0, 0, 0, 1000),
            Swatch::Transparent => Rgba::spec_new(0, 0, 0, 0),
            Swatch::ButtonNormal => Rgba::spec_new(150, 150, 150, 1000),
            Swatch::ButtonHovered => Rgba::spec_new(250, 250, 350, 1000),
            Swatch::ButtonPressed => Rgba::spec_new(350, 350, 450, 1000),
            Swatch::ButtonDisabled => Rgba::spec_new(300, 300, 300, 1000),
            Swatch::FocusHighlight => Rgba::spec_new(200, 400, 800, 300),
            Swatch::FocusBorder => Rgba::spec_new(300, 600, 1000, 1000),
            Swatch::FocusText => Rgba::spec_new(900, 900, 1000, 1000),
            Swatch::TextNormal => Rgba::spec_new(900, 900, 900, 1000),
            Swatch::TextDisabled => Rgba::spec_new(500, 500, 500, 1000),
            Swatch::SliderBackground => Rgba::spec_new(200, 200, 200, 1000),
            Swatch::SliderForeground => Rgba::spec_new(300, 600, 1000, 1000),
            Swatch::SliderHandle => Rgba::spec_new(800, 800, 800, 1000),
            Swatch::RowPressed => Rgba::spec_new(200, 200, 400, 1000),
            Swatch::RowHovered => Rgba::spec_new(300, 300, 500, 1000),
            Swatch::RowFocused => Rgba::spec_new(400, 400, 600, 1000),
            Swatch::RowIdle => Rgba::spec_new(150, 150, 300, 1000),
        }
    }

    /// The color of this palette entry.
    pub fn rgba(self) -> (c: Rgba)
        ensures
            c == self.spec_rgba(),
            c.valid(),
    {
        match self {
            Swatch::White => Rgba::new(1000, 1000, 1000, 1000),
            Swatch::Black => Rgba::new(0, 0, 0, 1000),
            Swatch::Transparent => Rgba::new(0, 0, 0, 0),
            Swatch::ButtonNormal => Rgba::new(150, 150, 150, 1000),
            Swatch::ButtonHovered => Rgba::new(250, 250, 350, 1000),
            Swatch::ButtonPressed => Rgba::new(350, 350, 450, 1000),
            Swatch::ButtonDisabled => Rgba::new(300, 300, 300, 1000),
            Swatch::FocusHighlight => Rgba::new(200, 400, 800, 300),
            Swatch::FocusBorder => Rgba::new(300, 600, 1000, 1000),
            Swatch::FocusText => Rgba::new(900, 900, 1000, 1000),
            Swatch::TextNormal => Rgba::new(900, 900, 900, 1000),
            Swatch::TextDisabled => Rgba::new(500, 500, 500, 1000),
            Swatch::SliderBackground => Rgba::new(200, 200, 200, 1000),
            Swatch::SliderForeground => Rgba::new(300, 600, 1000, 1000),
            Swatch::SliderHandle => Rgba::new(800, 800, 800, 1000),
            Swatch::RowPressed => Rgba::new(200, 200, 400, 1000),
            Swatch::RowHovered => Rgba::new(300, 300, 500, 1000),
            Swatch::RowFocused => Rgba::new(400, 400, 600, 1000),
            Swatch::RowIdle => Rgba::new(150, 150, 300, 1000),
        }
    }
}

} // verus!

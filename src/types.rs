//! Kinds used by settings menus.
use vstd::prelude::*;

verus! {

/// The tabs of the settings menu.
#[derive(Clone, Copy, Debug, Default, PartialEq, Eq, Structural, Hash)]
pub enum SettingsTab {
    /// Video settings (the default).
    #[default]
    Video,
    /// Audio settings.
    Audio,
    /// Control settings.
    Controls,
    /// Gameplay settings.
    Gameplay,
    /// Interface settings.
    Interface,
}

/// Kinds of sliders in the settings menu.
#[derive(Clone, Copy, Debug, PartialEq, Eq, Structural)]
pub enum SliderType {
    /// Master volume.
    MasterVolume,
    /// Music volume.
    MusicVolume,
    /// Sound effects volume.
    SfxVolume,
    /// Voice volume.
    VoiceVolume,
    /// Ambient sound volume.
    AmbientVolume,
    /// A horizontal slider.
    Horizontal,
    /// A vertical slider.
    Vertical,
}

/// Kinds of checkboxes in the settings menu.
#[derive(Clone, Copy, Debug, PartialEq, Eq, Structural)]
pub enum CheckboxType {
    /// An on/off switch.
    Toggle,
    /// A radio button (one of many).
    Radio,
}

/// Window modes.
#[derive(Clone, Copy, Debug, PartialEq, Eq, Structural)]
pub enum WindowMode {
    /// Fullscreen with exclusive display.
    Fullscreen,
    /// A window with borders.
    Windowed,
    /// A borderless window covering the screen.
    BorderlessFullscreen,
}

} // verus!

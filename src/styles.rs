//! Shared looks of the widget set, grouped by where they are used.
pub mod common;
pub mod hud;
pub mod menu;
pub mod settings;

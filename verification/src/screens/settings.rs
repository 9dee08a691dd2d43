//! The settings screen.

pub mod settings_screen;

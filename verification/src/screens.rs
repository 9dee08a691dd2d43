//! The two screens of the application.

pub mod notepad;
pub mod settings;

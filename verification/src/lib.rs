//! The application core of a small text editor: the document, its settings,
//! the prompt that guards unsaved changes, and the two screens.
//!
//! The library draws nothing and touches no file. The host hands it one
//! [`effects::Event`] at a time; the library moves to its next state and
//! answers with the one [`effects::Effect`] the host has to carry out.

pub mod app_state;
pub mod effects;
pub mod json;
pub mod navigator;
pub mod path;
pub mod screens;
pub mod shortcuts;

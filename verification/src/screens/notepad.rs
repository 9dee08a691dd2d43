//! The editor screen: the document commands, the menu bar and the
//! unsaved-changes prompt.

pub mod commands;
pub mod menu_topbar;
pub mod notepad_screen;

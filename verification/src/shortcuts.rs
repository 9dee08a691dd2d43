//! Keyboard shortcuts of the editor screen.

use crate::app_state::{AppModel, AppState, PendingAction};
use crate::effects::{Effect, EffectModel, ShortcutKey};
use crate::navigator::Screen;
use crate::screens::notepad::menu_topbar::{
    on_new_button_clicked, on_open_button_clicked, on_save_button_clicked,
};
use vstd::prelude::*;

verus! {

/// The primary modifier is the command key on macOS and the control key
/// everywhere else.
pub open spec fn primary_modifier(mac_os: bool, command: bool, control: bool) -> bool {
    if mac_os {
        command
    } else {
        control
    }
}

impl AppModel {
    /// Shortcuts work on the editor screen and with the primary modifier
    /// held: N, O and S stand for the three file commands, the comma leads
    /// to the settings screen. The two that can lose the document, N and O,
    /// work only while the application is idle.
    pub open spec fn shortcuts(self, key: ShortcutKey, modifier: bool) -> (AppModel, EffectModel) {
        if self.screen == Screen::Notepad && modifier {
            match key {
                ShortcutKey::N => if self.notepad.idle() {
                    self.on_new_button_clicked()
                } else {
                    (self, EffectModel::Nothing)
                },
                ShortcutKey::O => if self.notepad.idle() {
                    self.on_open_button_clicked()
                } else {
                    (self, EffectModel::Nothing)
                },
                ShortcutKey::S => self.on_save_button_clicked(),
                ShortcutKey::Comma => (
                    AppModel { screen: Screen::Settings, ..self },
                    EffectModel::Nothing,
                ),
            }
        } else {
            (self, EffectModel::Nothing)
        }
    }
}

/// Whether the platform's primary modifier is held, given the state of the
/// command and control keys.
pub fn get_modifier(mac_os: bool, command: bool, control: bool) -> (held: bool)
    ensures
        held == primary_modifier(mac_os, command, control),
{
    if mac_os {
        command
    } else {
        control
    }
}

/// Handles one key press. Without the primary modifier, or on the settings
/// screen, a key is no shortcut; nor are N and O while the prompt is on
/// screen, an action is waiting or the window is being closed.
pub fn shortcuts(state: &mut AppState, key: ShortcutKey, modifier: bool) -> (effect: Effect)
    ensures
        (final(state)@, effect@) == old(state)@.shortcuts(key, modifier),
{
    match state.screen {
        Screen::Notepad => {
            if !modifier {
                return Effect::Nothing;
            }
            let idle = !state.notepad_state.show_save_modal && state.notepad_state.pending_action
                == PendingAction::Nothing && !state.notepad_state.closing;
            match key {
                ShortcutKey::N => if idle {
                    on_new_button_clicked(state)
                } else {
                    Effect::Nothing
                },
                ShortcutKey::O => if idle {
                    on_open_button_clicked(state)
                } else {
                    Effect::Nothing
                },
                ShortcutKey::S => on_save_button_clicked(state),
                ShortcutKey::Comma => {
                    state.screen = Screen::Settings;
                    Effect::Nothing
                },
            }
        },
        Screen::Settings => Effect::Nothing,
    }
}

} // verus!

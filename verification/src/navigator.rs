//! The two screens and the way between them.

use crate::app_state::{AppModel, AppState};
use crate::effects::{
    Effect, EffectModel, EventModel, Input, MenuItem, SettingsButton, ShortcutKey,
};
use crate::screens::notepad::notepad_screen::notepad_screen;
use crate::screens::settings::settings_screen::settings_screen;
use vstd::prelude::*;

verus! {

/// The screen that currently receives input and is drawn.
#[derive(Clone, Copy, Debug, PartialEq, Eq, Structural)]
pub enum Screen {
    /// The text editor.
    Notepad,
    /// The settings form.
    Settings,
}

impl AppModel {
    /// An input goes to the screen that is shown.
    pub open spec fn navigator(self, input: Input) -> (AppModel, EffectModel) {
        match self.screen {
            Screen::Notepad => self.notepad_screen(input),
            Screen::Settings => self.settings_screen(input),
        }
    }
}

/// Hands `input` to the screen that is shown. A button of the other screen
/// has no effect.
pub fn navigator(state: &mut AppState, input: Input) -> (effect: Effect)
    ensures
        (final(state)@, effect@) == old(state)@.navigator(input),
{
    match state.screen {
        Screen::Notepad => notepad_screen(state, input),
        Screen::Settings => settings_screen(state, input),
    }
}

/// The screen changes in two ways only. The menu entry for the settings, or
/// the comma shortcut, leads from the editor to the settings screen; the Save
/// and Cancel buttons of the settings screen lead back. Nothing else that can
/// happen changes the screen, and unsaved changes to the document hold up
/// neither way.
pub proof fn law_screen_changes_by_navigation_only(state: AppModel, event: EventModel)
    ensures
        ({
            let next = state.update(event).0;
            let to_settings = state.screen == Screen::Notepad && (event == EventModel::Input(
                Input::Menu(MenuItem::Settings),
            ) || event == EventModel::Shortcut { key: ShortcutKey::Comma, modifier: true });
            let to_editor = state.screen == Screen::Settings && (event == EventModel::Input(
                Input::Settings(SettingsButton::Save),
            ) || event == EventModel::Input(Input::Settings(SettingsButton::Cancel)));
            &&& to_settings ==> next.screen == Screen::Settings
            &&& to_editor ==> next.screen == Screen::Notepad
            &&& !to_settings && !to_editor ==> next.screen == state.screen
        }),
{
}

} // verus!

//! The menu bar of the editor screen, and the guard against losing unsaved
//! changes.

use crate::app_state::{AppModel, AppState, NotepadModel, PendingAction};
use crate::effects::{AfterSave, Effect, EffectModel, EventModel, Input, MenuItem, ShortcutKey};
use crate::navigator::Screen;
use crate::screens::notepad::commands::{new_file, open_file, save};
use vstd::prelude::*;

verus! {

impl AppModel {
    /// The state in which the prompt is on screen for `action`. An action
    /// that was already waiting is forgotten.
    pub open spec fn deferred(self, action: PendingAction) -> AppModel {
        AppModel {
            notepad: NotepadModel { prompt: true, pending: action, ..self.notepad },
            ..self
        }
    }

    /// A new document is started at once if nothing would be lost, and
    /// deferred behind the prompt otherwise.
    pub open spec fn on_new_button_clicked(self) -> (AppModel, EffectModel) {
        if self.notepad.has_unsaved_changes() {
            (self.deferred(PendingAction::NewFile), EffectModel::Nothing)
        } else {
            (self.new_file(), EffectModel::Nothing)
        }
    }

    /// Opening starts at once if nothing would be lost, and is deferred
    /// behind the prompt otherwise.
    pub open spec fn on_open_button_clicked(self) -> (AppModel, EffectModel) {
        if self.notepad.has_unsaved_changes() {
            (self.deferred(PendingAction::OpenFile), EffectModel::Nothing)
        } else {
            (self, self.open_file())
        }
    }

    /// Saving needs no confirmation.
    pub open spec fn on_save_button_clicked(self) -> (AppModel, EffectModel) {
        (self, self.save(AfterSave::Nothing))
    }

    /// The three file commands, and the entry that leads to the settings
    /// screen whatever the state of the document.
    pub open spec fn app_menu_topbar(self, item: MenuItem) -> (AppModel, EffectModel) {
        match item {
            MenuItem::New => self.on_new_button_clicked(),
            MenuItem::Open => self.on_open_button_clicked(),
            MenuItem::Save => self.on_save_button_clicked(),
            MenuItem::Settings => (
                AppModel { screen: Screen::Settings, ..self },
                EffectModel::Nothing,
            ),
        }
    }
}

/// The user asks for a new document. With unsaved changes the request waits
/// behind the prompt and the document stays untouched; without, the document
/// is replaced at once.
pub fn on_new_button_clicked(state: &mut AppState) -> (effect: Effect)
    ensures
        (final(state)@, effect@) == old(state)@.on_new_button_clicked(),
{
    if state.has_unsaved_changes() {
        state.notepad_state.show_save_modal = true;
        state.notepad_state.pending_action = PendingAction::NewFile;
    } else {
        new_file(state);
    }
    Effect::Nothing
}

/// The user asks to open a file. With unsaved changes the request waits
/// behind the prompt and no dialog is shown; without, opening starts.
pub fn on_open_button_clicked(state: &mut AppState) -> (effect: Effect)
    ensures
        (final(state)@, effect@) == old(state)@.on_open_button_clicked(),
{
    if state.has_unsaved_changes() {
        state.notepad_state.show_save_modal = true;
        state.notepad_state.pending_action = PendingAction::OpenFile;
        Effect::Nothing
    } else {
        open_file(state)
    }
}

/// The user asks to save: a save starts, with nothing to follow it.
pub fn on_save_button_clicked(state: &AppState) -> (effect: Effect)
    ensures
        (state@, effect@) == state@.on_save_button_clicked(),
{
    save(state, AfterSave::Nothing)
}

/// Handles one entry of the menu bar: the three file commands, and the entry
/// that leads to the settings screen.
pub fn app_menu_topbar(state: &mut AppState, item: MenuItem) -> (effect: Effect)
    ensures
        (final(state)@, effect@) == old(state)@.app_menu_topbar(item),
{
    match item {
        MenuItem::New => on_new_button_clicked(state),
        MenuItem::Open => on_open_button_clicked(state),
        MenuItem::Save => on_save_button_clicked(state),
        MenuItem::Settings => {
            state.screen = Screen::Settings;
            Effect::Nothing
        },
    }
}

/// A request for a new document, for opening a file or for closing the
/// window, made while the application is idle and the document has unsaved
/// changes, is not carried out. It puts the prompt on screen for exactly that
/// action and changes nothing else: the document is as it was, no dialog is
/// asked for, and the close is refused. This holds whether the request comes
/// from the menu bar, from a shortcut or from the window system.
pub proof fn law_requests_wait_behind_prompt(state: AppModel)
    requires
        state.notepad.idle(),
        state.notepad.has_unsaved_changes(),
    ensures
        state.on_new_button_clicked() == (
            state.deferred(PendingAction::NewFile),
            EffectModel::Nothing,
        ),
        state.on_open_button_clicked() == (
            state.deferred(PendingAction::OpenFile),
            EffectModel::Nothing,
        ),
        state.close_requested() == (
            state.deferred(PendingAction::CloseApp),
            EffectModel::CancelClose,
        ),
        state.update(EventModel::CloseRequested) == state.close_requested(),
        state.screen == Screen::Notepad ==> {
            &&& state.update(EventModel::Input(Input::Menu(MenuItem::New)))
                == state.on_new_button_clicked()
            &&& state.update(EventModel::Input(Input::Menu(MenuItem::Open)))
                == state.on_open_button_clicked()
            &&& state.update(EventModel::Shortcut { key: ShortcutKey::N, modifier: true })
                == state.on_new_button_clicked()
            &&& state.update(EventModel::Shortcut { key: ShortcutKey::O, modifier: true })
                == state.on_open_button_clicked()
        },
        forall|action: PendingAction|
            action != PendingAction::Nothing ==> {
                let waiting = #[trigger] state.deferred(action);
                &&& waiting.notepad.confirming()
                &&& waiting.notepad.pending == action
                &&& waiting.notepad.content == state.notepad.content
                &&& waiting.notepad.path == state.notepad.path
                &&& waiting.notepad.persisted == state.notepad.persisted
                &&& waiting.screen == state.screen
                &&& waiting.settings == state.settings
                &&& waiting.strings == state.strings
            },
{
}

} // verus!

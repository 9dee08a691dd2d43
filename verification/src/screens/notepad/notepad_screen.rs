//! The editor screen and its unsaved-changes prompt.

use crate::app_state::{AppModel, AppState, NotepadModel, PendingAction};
use crate::effects::{AfterSave, Effect, EffectModel, Input, PromptChoice};
use crate::screens::notepad::commands::{new_file, open_file, save};
use crate::screens::notepad::menu_topbar::app_menu_topbar;
use std::path::PathBuf;
use vstd::prelude::*;

verus! {

impl AppModel {
    /// Carries out what was waiting, and leaves nothing waiting. A close
    /// that is carried out is recorded, for it cannot be taken back.
    pub open spec fn execute_pending_action(self) -> (AppModel, EffectModel) {
        let settled = NotepadModel { pending: PendingAction::Nothing, ..self.notepad };
        match self.notepad.pending {
            PendingAction::Nothing => (AppModel { notepad: settled, ..self }, EffectModel::Nothing),
            PendingAction::NewFile => (self.new_file(), EffectModel::Nothing),
            PendingAction::OpenFile => (AppModel { notepad: settled, ..self }, self.open_file()),
            PendingAction::CloseApp => (
                AppModel { notepad: NotepadModel { closing: true, ..settled }, ..self },
                EffectModel::Close,
            ),
        }
    }

    /// What follows a save. One that the prompt asked for empties the editor
    /// and goes on with what was waiting; any other is simply over.
    pub open spec fn after_save(self, after: AfterSave) -> (AppModel, EffectModel) {
        match after {
            AfterSave::Nothing => (self, EffectModel::Nothing),
            AfterSave::ResumePending => AppModel {
                notepad: NotepadModel { content: Seq::empty(), ..self.notepad },
                ..self
            }.execute_pending_action(),
        }
    }

    /// The prompt's three answers. Where no prompt is on screen there is
    /// nothing to answer.
    pub open spec fn show_unsaved_changes_modal(self, choice: PromptChoice) -> (
        AppModel,
        EffectModel,
    ) {
        let hidden = AppModel { notepad: NotepadModel { prompt: false, ..self.notepad }, ..self };
        if !self.notepad.prompt {
            (self, EffectModel::Nothing)
        } else {
            match choice {
                PromptChoice::Discard => hidden.execute_pending_action(),
                PromptChoice::Cancel => (
                    AppModel {
                        notepad: NotepadModel { pending: PendingAction::Nothing, ..hidden.notepad },
                        ..hidden
                    },
                    EffectModel::Nothing,
                ),
                PromptChoice::Save => (hidden, hidden.save(AfterSave::ResumePending)),
            }
        }
    }

    /// The editor screen answers to its menu bar and to the prompt; the
    /// buttons of the other screen are not on it.
    pub open spec fn notepad_screen(self, input: Input) -> (AppModel, EffectModel) {
        match input {
            Input::Menu(item) => self.app_menu_topbar(item),
            Input::Prompt(choice) => self.show_unsaved_changes_modal(choice),
            Input::Settings(_) => (self, EffectModel::Nothing),
        }
    }

    /// The editor holds the keyboard focus unless the prompt is on screen.
    pub open spec fn editor_has_focus(self) -> bool {
        !self.notepad.prompt
    }
}

/// Carries out the action that was waiting behind the prompt and leaves
/// nothing waiting: a new document is started at once, opening starts with
/// the choice of a file, closing is handed to the host and recorded as under
/// way.
pub fn execute_pending_action(state: &mut AppState) -> (effect: Effect)
    ensures
        (final(state)@, effect@) == old(state)@.execute_pending_action(),
{
    let effect = match state.notepad_state.pending_action {
        PendingAction::Nothing => Effect::Nothing,
        PendingAction::NewFile => {
            new_file(state);
            Effect::Nothing
        },
        PendingAction::OpenFile => open_file(state),
        PendingAction::CloseApp => {
            state.notepad_state.closing = true;
            Effect::Close
        },
    };
    state.notepad_state.pending_action = PendingAction::Nothing;
    effect
}

/// What follows a save that has run its course. After one that the prompt
/// asked for, the editor is emptied, whether or not anything was written, and
/// the waiting action is carried out.
pub fn after_save(state: &mut AppState, after: AfterSave) -> (effect: Effect)
    ensures
        (final(state)@, effect@) == old(state)@.after_save(after),
{
    match after {
        AfterSave::Nothing => Effect::Nothing,
        AfterSave::ResumePending => {
            state.notepad_state.current_content = String::new();
            execute_pending_action(state)
        },
    }
}

/// Answers the unsaved-changes prompt. Every answer takes the prompt off the
/// screen. Discard carries out the waiting action; Cancel drops it and leaves
/// the document untouched; Save starts a save that is followed by
/// [`after_save`]. Without a prompt on screen nothing happens.
pub fn show_unsaved_changes_modal(state: &mut AppState, choice: PromptChoice) -> (effect: Effect)
    ensures
        (final(state)@, effect@) == old(state)@.show_unsaved_changes_modal(choice),
{
    if !state.notepad_state.show_save_modal {
        return Effect::Nothing;
    }
    state.notepad_state.show_save_modal = false;
    match choice {
        PromptChoice::Discard => execute_pending_action(state),
        PromptChoice::Cancel => {
            state.notepad_state.pending_action = PendingAction::Nothing;
            Effect::Nothing
        },
        PromptChoice::Save => save(state, AfterSave::ResumePending),
    }
}

/// Whether the editor is to hold the keyboard focus: it gives the focus up
/// while the prompt is on screen.
pub fn editor_has_focus(state: &AppState) -> (focus: bool)
    ensures
        focus == state@.editor_has_focus(),
{
    !state.notepad_state.show_save_modal
}

/// Handles one input on the editor screen.
pub fn notepad_screen(state: &mut AppState, input: Input) -> (effect: Effect)
    ensures
        (final(state)@, effect@) == old(state)@.notepad_screen(input),
{
    match input {
        Input::Menu(item) => app_menu_topbar(state, item),
        Input::Prompt(choice) => show_unsaved_changes_modal(state, choice),
        Input::Settings(_) => Effect::Nothing,
    }
}

/// What the waiting action asks of the host once it is carried out.
pub open spec fn pending_effect(state: AppModel) -> EffectModel {
    match state.notepad.pending {
        PendingAction::Nothing => EffectModel::Nothing,
        PendingAction::NewFile => EffectModel::Nothing,
        PendingAction::OpenFile => state.open_file(),
        PendingAction::CloseApp => EffectModel::Close,
    }
}

/// Whether the window is being closed once the waiting action of `state` is
/// carried out: it was already, or that action is the close.
pub open spec fn closing_after(state: AppModel) -> bool {
    state.notepad.closing || state.notepad.pending == PendingAction::CloseApp
}

/// Choosing Save in the prompt always runs to the end. The prompt goes at
/// once and a save starts. However that save ends (written to `path`, failed,
/// or given up in the dialog) the editor is then empty, nothing is waiting
/// any more, and the host is asked for what the waiting action needs. If
/// that was the close, the window is then being closed for good.
pub proof fn law_prompted_save_runs_to_rest(state: AppModel, path: PathBuf, written: bool)
    requires
        state.notepad.prompt,
    ensures
        ({
            let (saving, first) = state.show_unsaved_changes_modal(PromptChoice::Save);
            let (ended, last) = saving.file_written(path, written, AfterSave::ResumePending);
            let (given_up, other) = saving.save_path_chosen(None, AfterSave::ResumePending);
            &&& !saving.notepad.prompt
            &&& first == state.save(AfterSave::ResumePending)
            &&& ended.notepad.at_rest()
            &&& ended.notepad.closing == closing_after(state)
            &&& ended.notepad.content == Seq::<char>::empty()
            &&& last == pending_effect(state)
            &&& given_up.notepad.at_rest()
            &&& given_up.notepad.closing == closing_after(state)
            &&& given_up.notepad.content == Seq::<char>::empty()
            &&& other == pending_effect(state)
        }),
{
}

/// Once the user has answered the prompt for a waiting close with Discard or
/// with Save, the host is told to close, and the close request that follows
/// is let through: it is not refused and raises no prompt, although the
/// document may still differ from its file.
pub proof fn law_confirmed_close_is_let_through(state: AppModel, path: PathBuf, written: bool)
    requires
        state.notepad.prompt,
        state.notepad.pending == PendingAction::CloseApp,
    ensures
        ({
            let (discarded, first) = state.show_unsaved_changes_modal(PromptChoice::Discard);
            let saving = state.show_unsaved_changes_modal(PromptChoice::Save).0;
            let (ended, second) = saving.file_written(path, written, AfterSave::ResumePending);
            let (given_up, third) = saving.save_path_chosen(None, AfterSave::ResumePending);
            &&& first == EffectModel::Close
            &&& second == EffectModel::Close
            &&& third == EffectModel::Close
            &&& discarded.close_requested() == (discarded, EffectModel::Nothing)
            &&& ended.close_requested() == (ended, EffectModel::Nothing)
            &&& given_up.close_requested() == (given_up, EffectModel::Nothing)
        }),
{
}

/// Choosing Cancel in the prompt returns to the state in which nothing is
/// waiting and leaves the document exactly as it is; choosing Discard also
/// returns there, and asks the host for what the waiting action needs. Only
/// Discard of a waiting close sets the window on its way out.
pub proof fn law_cancel_and_discard_return_to_rest(state: AppModel)
    requires
        state.notepad.prompt,
    ensures
        ({
            let (cancelled, first) = state.show_unsaved_changes_modal(PromptChoice::Cancel);
            let (discarded, second) = state.show_unsaved_changes_modal(PromptChoice::Discard);
            &&& cancelled.notepad.at_rest()
            &&& cancelled.notepad.closing == state.notepad.closing
            &&& cancelled.notepad.content == state.notepad.content
            &&& cancelled.notepad.path == state.notepad.path
            &&& cancelled.notepad.persisted == state.notepad.persisted
            &&& first == EffectModel::Nothing
            &&& discarded.notepad.at_rest()
            &&& discarded.notepad.closing == closing_after(state)
            &&& second == pending_effect(state)
        }),
{
}

} // verus!

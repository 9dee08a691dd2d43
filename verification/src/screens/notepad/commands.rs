//! The document commands: new, open and save.

use crate::app_state::{AppModel, AppState, NotepadModel, PendingAction};
use crate::effects::{text_of, AfterSave, Effect, EffectModel};
use crate::screens::notepad::notepad_screen::after_save;
use std::path::PathBuf;
use vstd::prelude::*;

verus! {

impl NotepadModel {
    /// The document after it was replaced by an empty, unbound one.
    pub open spec fn new_file(self) -> NotepadModel {
        NotepadModel {
            content: Seq::empty(),
            path: None,
            persisted: None,
            pending: PendingAction::Nothing,
            ..self
        }
    }

    /// The document after `text` was read from the file at `path`.
    pub open spec fn opened(self, path: PathBuf, text: Seq<char>) -> NotepadModel {
        NotepadModel {
            content: text,
            path: Some(path),
            persisted: Some(text),
            pending: PendingAction::Nothing,
            ..self
        }
    }

    /// The document after its text was written to the file at `path`.
    pub open spec fn saved(self, path: PathBuf) -> NotepadModel {
        NotepadModel { path: Some(path), persisted: Some(self.content), ..self }
    }
}

impl AppModel {
    /// Where a file dialog starts: the default path of the settings in
    /// effect, unless that is empty.
    pub open spec fn dialog_directory(self) -> Option<Seq<char>> {
        if self.settings.current.default_path.len() > 0 {
            Some(self.settings.current.default_path)
        } else {
            None
        }
    }

    /// A new document replaces the one in the editor; nothing else changes.
    pub open spec fn new_file(self) -> AppModel {
        AppModel { notepad: self.notepad.new_file(), ..self }
    }

    /// Opening starts with the choice of a file.
    pub open spec fn open_file(self) -> EffectModel {
        EffectModel::ChooseOpenPath { directory: self.dialog_directory() }
    }

    /// A chosen file is read; a dismissed dialog ends the matter.
    pub open spec fn open_path_chosen(path: Option<PathBuf>) -> EffectModel {
        match path {
            Some(path) => EffectModel::ReadFile { path },
            None => EffectModel::Nothing,
        }
    }

    /// A file that was read replaces the document; one that could not be read
    /// changes nothing.
    pub open spec fn file_read(self, path: PathBuf, content: Option<Seq<char>>) -> AppModel {
        match content {
            Some(text) => AppModel { notepad: self.notepad.opened(path, text), ..self },
            None => self,
        }
    }

    /// Saving writes to the file the document is bound to, and starts with
    /// the choice of a file where it is bound to none.
    pub open spec fn save(self, after: AfterSave) -> EffectModel {
        match self.notepad.path {
            Some(path) => EffectModel::WriteFile { path, content: self.notepad.content, after },
            None => EffectModel::ChooseSavePath { directory: self.dialog_directory(), after },
        }
    }

    /// The text is written to a chosen file; a dismissed dialog ends the save
    /// with nothing written.
    pub open spec fn save_path_chosen(self, path: Option<PathBuf>, after: AfterSave) -> (
        AppModel,
        EffectModel,
    ) {
        match path {
            Some(path) => (
                self,
                EffectModel::WriteFile { path, content: self.notepad.content, after },
            ),
            None => self.after_save(after),
        }
    }

    /// A successful write binds the document to the file and makes it clean;
    /// a failed one leaves it as it was. Either way the save is over.
    pub open spec fn file_written(self, path: PathBuf, written: bool, after: AfterSave) -> (
        AppModel,
        EffectModel,
    ) {
        if written {
            AppModel { notepad: self.notepad.saved(path), ..self }.after_save(after)
        } else {
            self.after_save(after)
        }
    }
}

/// Where a file dialog starts: the default path of the settings in effect,
/// unless that is empty.
pub fn dialog_directory(state: &AppState) -> (directory: Option<String>)
    ensures
        text_of(directory) == state@.dialog_directory(),
{
    if state.settings_state.current.default_path.as_str().is_empty() {
        None
    } else {
        Some(state.settings_state.current.default_path.clone())
    }
}

/// Replaces the document by an empty one that is bound to no file. What was
/// in the editor is lost, and nothing is left waiting.
pub fn new_file(state: &mut AppState)
    ensures
        final(state)@ == old(state)@.new_file(),
{
    state.notepad_state.current_content = String::new();
    state.notepad_state.current_file_path = None;
    state.notepad_state.file_content = None;
    state.notepad_state.pending_action = PendingAction::Nothing;
}

/// Starts opening a file: the user is to choose one.
pub fn open_file(state: &AppState) -> (effect: Effect)
    ensures
        effect@ == state@.open_file(),
{
    Effect::ChooseOpenPath { directory: dialog_directory(state) }
}

/// Goes on with opening once the dialog has closed: the chosen file is to be
/// read; if none was chosen, nothing happens.
pub fn open_path_chosen(path: Option<PathBuf>) -> (effect: Effect)
    ensures
        effect@ == AppModel::open_path_chosen(path),
{
    match path {
        Some(path) => Effect::ReadFile { path },
        None => Effect::Nothing,
    }
}

/// Ends opening. If the file was read, its text becomes the document, bound
/// to `path` and clean, and nothing is left waiting. If it was not, the state
/// stays as it is.
pub fn file_read(state: &mut AppState, path: PathBuf, content: Option<String>)
    ensures
        final(state)@ == old(state)@.file_read(path, text_of(content)),
{
    match content {
        Some(text) => {
            state.notepad_state.file_content = Some(text.clone());
            state.notepad_state.current_content = text;
            state.notepad_state.current_file_path = Some(path);
            state.notepad_state.pending_action = PendingAction::Nothing;
        },
        None => {},
    }
}

/// Starts a save: the text is to be written to the document's file, or the
/// user is to choose one where the document has none. `after` travels with
/// the effect and comes back with its answer.
pub fn save(state: &AppState, after: AfterSave) -> (effect: Effect)
    ensures
        effect@ == state@.save(after),
{
    match &state.notepad_state.current_file_path {
        Some(path) => Effect::WriteFile {
            path: path.clone(),
            content: state.notepad_state.current_content.clone(),
            after,
        },
        None => Effect::ChooseSavePath { directory: dialog_directory(state), after },
    }
}

/// Goes on with a save once the dialog has closed: the text is to be written
/// to the chosen file. If none was chosen the save is over, with nothing
/// written and the document unchanged.
pub fn save_path_chosen(state: &mut AppState, path: Option<PathBuf>, after: AfterSave) -> (effect:
    Effect)
    ensures
        (final(state)@, effect@) == old(state)@.save_path_chosen(path, after),
{
    match path {
        Some(path) => Effect::WriteFile {
            path,
            content: state.notepad_state.current_content.clone(),
            after,
        },
        None => after_save(state, after),
    }
}

/// Ends a save. If the text was written, the document is bound to `path` and
/// is clean; if it was not, the document stays as it is.
pub fn file_written(state: &mut AppState, path: PathBuf, written: bool, after: AfterSave) -> (effect:
    Effect)
    ensures
        (final(state)@, effect@) == old(state)@.file_written(path, written, after),
{
    if written {
        state.notepad_state.current_file_path = Some(path);
        state.notepad_state.file_content = Some(state.notepad_state.current_content.clone());
    }
    after_save(state, after)
}

/// A document has no unsaved changes right after it was replaced by a new
/// one, right after it was read from a file, and right after it was written
/// to one.
pub proof fn law_clean_after_new_open_save(state: AppModel, path: PathBuf, text: Seq<char>)
    ensures
        !state.new_file().notepad.has_unsaved_changes(),
        !state.file_read(path, Some(text)).notepad.has_unsaved_changes(),
        !state.file_written(path, true, AfterSave::Nothing).0.notepad.has_unsaved_changes(),
{
}

/// Saving twice in a row, with no edit in between: the second save writes the
/// same text to the same file again, and leaves the state as the first one
/// left it, without unsaved changes.
pub proof fn law_save_twice(state: AppModel, path: PathBuf)
    ensures
        ({
            let once = state.file_written(path, true, AfterSave::Nothing).0;
            &&& once.save(AfterSave::Nothing) == (EffectModel::WriteFile {
                path,
                content: state.notepad.content,
                after: AfterSave::Nothing,
            })
            &&& once.file_written(path, true, AfterSave::Nothing).0 == once
            &&& !once.notepad.has_unsaved_changes()
        }),
{
}

} // verus!

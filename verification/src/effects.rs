//! What the library and its host say to each other: the events that the host
//! hands in, the effects that the library asks for, and the host's replies.

use crate::app_state::{LoadError, Settings, SettingsModel};
use std::path::PathBuf;
use vstd::prelude::*;

verus! {

/// The entries of the menu bar on the editor screen.
#[derive(Clone, Copy, Debug, PartialEq, Eq, Structural)]
pub enum MenuItem {
    New,
    Open,
    Save,
    Settings,
}

/// The buttons of the unsaved-changes prompt.
#[derive(Clone, Copy, Debug, PartialEq, Eq, Structural)]
pub enum PromptChoice {
    /// Go on with the waiting action and lose the changes.
    Discard,
    /// Drop the waiting action and keep editing.
    Cancel,
    /// Save first, then go on with the waiting action.
    Save,
}

/// The buttons of the settings screen.
#[derive(Clone, Copy, Debug, PartialEq, Eq, Structural)]
pub enum SettingsButton {
    /// Commit the draft and return to the editor.
    Save,
    /// Commit the draft and stay.
    Apply,
    /// Drop the draft and return to the editor.
    Cancel,
    /// Choose the default folder with a dialog.
    Browse,
}

/// The keys that, together with the platform's primary modifier, are
/// shortcuts.
#[derive(Clone, Copy, Debug, PartialEq, Eq, Structural)]
pub enum ShortcutKey {
    N,
    O,
    S,
    Comma,
}

/// What the user did on one of the two screens.
#[derive(Clone, Copy, Debug, PartialEq, Eq, Structural)]
pub enum Input {
    Menu(MenuItem),
    Prompt(PromptChoice),
    Settings(SettingsButton),
}

/// What is to happen once a save has run its course, whether or not anything
/// was written.
#[derive(Clone, Copy, Debug, PartialEq, Eq, Structural)]
pub enum AfterSave {
    /// The save was asked for on its own.
    Nothing,
    /// The save was chosen in the prompt: empty the editor and go on with the
    /// waiting action.
    ResumePending,
}

/// What the host has to do for the library. It carries out the effect and,
/// where the variant names an answer, hands that answer back as an
/// [`Event::Reply`].
#[derive(Debug, PartialEq, Eq)]
pub enum Effect {
    /// Nothing to do.
    Nothing,
    /// Let the user choose a file to open, starting in `directory` if there is
    /// one. Answer: [`Reply::OpenPathChosen`].
    ChooseOpenPath { directory: Option<String> },
    /// Read the file at `path` as text. Answer: [`Reply::FileRead`].
    ReadFile { path: PathBuf },
    /// Let the user choose where to save, starting in `directory` if there is
    /// one. Answer: [`Reply::SavePathChosen`], with the same `after`.
    ChooseSavePath { directory: Option<String>, after: AfterSave },
    /// Write `content` to the file at `path`. Answer: [`Reply::FileWritten`],
    /// with the same `path` and `after`, before the editor changes again:
    /// the document counts as saved with the text it holds when the answer
    /// arrives.
    WriteFile { path: PathBuf, content: String, after: AfterSave },
    /// Refuse the close that the window system asked for.
    CancelClose,
    /// Close the window and end the process. The close request that the
    /// window system raises in turn may be handed in like any other; it is
    /// let through.
    Close,
    /// Write `settings` to the file named `file` in the folder `folder` below
    /// the per-user configuration root, creating the folder where needed.
    /// Answer: [`Reply::SettingsWritten`], whether or not it worked.
    WriteSettings { folder: String, file: String, settings: Settings },
    /// Read the interface strings kept under `resource`.
    /// Answer: [`Reply::StringsRead`].
    ReadStrings { resource: String },
    /// Let the user choose a folder. Answer: [`Reply::FolderChosen`].
    ChooseFolder,
    /// Tell the user, or the log, that the interface strings stay as they
    /// were.
    Report(LoadError),
}

/// What an [`Effect`] stands for.
pub enum EffectModel {
    Nothing,
    ChooseOpenPath { directory: Option<Seq<char>> },
    ReadFile { path: PathBuf },
    ChooseSavePath { directory: Option<Seq<char>>, after: AfterSave },
    WriteFile { path: PathBuf, content: Seq<char>, after: AfterSave },
    CancelClose,
    Close,
    WriteSettings { folder: Seq<char>, file: Seq<char>, settings: SettingsModel },
    ReadStrings { resource: Seq<char> },
    ChooseFolder,
    Report(LoadError),
}

/// The text that an optional string stands for.
pub open spec fn text_of(text: Option<String>) -> Option<Seq<char>> {
    match text {
        Some(text) => Some(text@),
        None => None,
    }
}

impl View for Effect {
    type V = EffectModel;

    open spec fn view(&self) -> EffectModel {
        match *self {
            Effect::Nothing => EffectModel::Nothing,
            Effect::ChooseOpenPath { directory } => EffectModel::ChooseOpenPath {
                directory: text_of(directory),
            },
            Effect::ReadFile { path } => EffectModel::ReadFile { path },
            Effect::ChooseSavePath { directory, after } => EffectModel::ChooseSavePath {
                directory: text_of(directory),
                after,
            },
            Effect::WriteFile { path, content, after } => EffectModel::WriteFile {
                path,
                content: content@,
                after,
            },
            Effect::CancelClose => EffectModel::CancelClose,
            Effect::Close => EffectModel::Close,
            Effect::WriteSettings { folder, file, settings } => EffectModel::WriteSettings {
                folder: folder@,
                file: file@,
                settings: settings@,
            },
            Effect::ReadStrings { resource } => EffectModel::ReadStrings { resource: resource@ },
            Effect::ChooseFolder => EffectModel::ChooseFolder,
            Effect::Report(error) => EffectModel::Report(error),
        }
    }
}

/// The host's answer to an [`Effect`].
#[derive(Debug, PartialEq, Eq)]
pub enum Reply {
    /// The file the user chose to open; `None` if the dialog was dismissed.
    OpenPathChosen(Option<PathBuf>),
    /// The text of the file at `path`; `None` if it could not be read.
    FileRead { path: PathBuf, content: Option<String> },
    /// Where the user chose to save; `None` if the dialog was dismissed.
    SavePathChosen { chosen: Option<PathBuf>, after: AfterSave },
    /// Whether the text was written to the file at `path`.
    FileWritten { path: PathBuf, written: bool, after: AfterSave },
    /// The attempt to write the settings is over.
    SettingsWritten,
    /// The text of the interface strings; `None` if it could not be read.
    StringsRead(Option<String>),
    /// The folder the user chose; `None` if the dialog was dismissed.
    FolderChosen(Option<String>),
}

/// What a [`Reply`] stands for.
pub enum ReplyModel {
    OpenPathChosen(Option<PathBuf>),
    FileRead { path: PathBuf, content: Option<Seq<char>> },
    SavePathChosen { chosen: Option<PathBuf>, after: AfterSave },
    FileWritten { path: PathBuf, written: bool, after: AfterSave },
    SettingsWritten,
    StringsRead(Option<Seq<char>>),
    FolderChosen(Option<Seq<char>>),
}

impl View for Reply {
    type V = ReplyModel;

    open spec fn view(&self) -> ReplyModel {
        match *self {
            Reply::OpenPathChosen(path) => ReplyModel::OpenPathChosen(path),
            Reply::FileRead { path, content } => ReplyModel::FileRead {
                path,
                content: text_of(content),
            },
            Reply::SavePathChosen { chosen, after } => ReplyModel::SavePathChosen { chosen, after },
            Reply::FileWritten { path, written, after } => ReplyModel::FileWritten {
                path,
                written,
                after,
            },
            Reply::SettingsWritten => ReplyModel::SettingsWritten,
            Reply::StringsRead(text) => ReplyModel::StringsRead(text_of(text)),
            Reply::FolderChosen(folder) => ReplyModel::FolderChosen(text_of(folder)),
        }
    }
}

/// Everything that can happen to the application.
#[derive(Debug, PartialEq, Eq)]
pub enum Event {
    /// The window system asks to close the window.
    CloseRequested,
    /// The user pressed a button on the screen that is shown.
    Input(Input),
    /// The user pressed `key`; `modifier` says whether the platform's primary
    /// modifier was held.
    Shortcut { key: ShortcutKey, modifier: bool },
    /// The host has carried out an effect.
    Reply(Reply),
}

/// What an [`Event`] stands for.
pub enum EventModel {
    CloseRequested,
    Input(Input),
    Shortcut { key: ShortcutKey, modifier: bool },
    Reply(ReplyModel),
}

impl View for Event {
    type V = EventModel;

    open spec fn view(&self) -> EventModel {
        match *self {
            Event::CloseRequested => EventModel::CloseRequested,
            Event::Input(input) => EventModel::Input(input),
            Event::Shortcut { key, modifier } => EventModel::Shortcut { key, modifier },
            Event::Reply(reply) => EventModel::Reply(reply@),
        }
    }
}

} // verus!

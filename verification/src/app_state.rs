//! The state of the application and what it stands for: the document, the
//! settings, the interface strings, and the state machine that moves them.

use crate::effects::{text_of, Effect, EffectModel, Event, EventModel, Reply, ReplyModel};
use crate::json::{parse_string_table, parsed_string_table};
use crate::navigator::{navigator, Screen};
use crate::screens::notepad::commands::{
    file_read, file_written, open_path_chosen, save_path_chosen,
};
use crate::screens::settings::settings_screen::folder_chosen;
use crate::shortcuts::shortcuts;
use std::path::PathBuf;
use vstd::hash_map::StringHashMap;
use vstd::prelude::*;
use vstd::string::StringExecFns;

verus! {

/// The folder, below the per-user configuration root, that holds the settings.
pub open spec fn config_folder_name() -> Seq<char> {
    "NotepadR"@
}

/// The name of the settings file inside [`config_folder_name`].
pub open spec fn config_file_name() -> Seq<char> {
    "config.json"@
}

/// The font that a fresh installation starts with.
pub open spec fn default_font_name() -> Seq<char> {
    "Roboto"@
}

/// Twelve points, as the bit pattern of an IEEE-754 single-precision number.
pub const DEFAULT_FONT_SIZE_BITS: u32 = 0x4140_0000;

/// The one operation that waits behind the unsaved-changes prompt.
#[derive(Clone, Copy, Debug, PartialEq, Eq, Structural)]
pub enum PendingAction {
    /// Nothing is waiting.
    Nothing,
    /// Start an empty document.
    NewFile,
    /// Choose a file and load it.
    OpenFile,
    /// Close the window.
    CloseApp,
}

/// The languages the interface is available in.
#[derive(Clone, Copy, Debug, PartialEq, Eq, Structural)]
pub enum Language {
    English,
    Spanish,
    French,
}

/// Why settings or interface strings could not be taken over.
#[derive(Clone, Copy, Debug, PartialEq, Eq, Structural)]
pub enum LoadError {
    /// The host could not find or read the file.
    Unreadable,
    /// The file was read but does not hold what was expected.
    Malformed,
}

impl Language {
    /// The two-letter code of the language.
    pub open spec fn code_text(self) -> Seq<char> {
        match self {
            Language::Spanish => "es"@,
            Language::English => "en"@,
            Language::French => "fr"@,
        }
    }

    /// Where the interface strings of the language are kept.
    pub open spec fn strings_resource_text(self) -> Seq<char> {
        "assets/strings/"@ + self.code_text() + ".json"@
    }

    /// The two-letter code of the language.
    pub fn code(self) -> (code: &'static str)
        ensures
            code@ == self.code_text(),
    {
        match self {
            Language::Spanish => "es",
            Language::English => "en",
            Language::French => "fr",
        }
    }

    /// Where the interface strings of the language are kept.
    pub fn strings_resource(self) -> (resource: String)
        ensures
            resource@ == self.strings_resource_text(),
    {
        let mut resource = "assets/strings/".to_owned();
        resource.append(self.code());
        resource.append(".json");
        resource
    }
}

/// The colours of the interface.
#[derive(Clone, Copy, Debug, PartialEq, Eq, Structural)]
pub enum Theme {
    Dark,
    Light,
}

/// The font family of the interface.
#[derive(Debug, PartialEq, Eq)]
pub enum FontFamily {
    /// The interface's own proportional font.
    Proportional,
    /// One of the fonts that come with the application, by name.
    Named(String),
}

/// What a [`FontFamily`] stands for.
pub enum FontFamilyModel {
    Proportional,
    Named(Seq<char>),
}

impl View for FontFamily {
    type V = FontFamilyModel;

    open spec fn view(&self) -> FontFamilyModel {
        match *self {
            FontFamily::Proportional => FontFamilyModel::Proportional,
            FontFamily::Named(name) => FontFamilyModel::Named(name@),
        }
    }
}

/// One configuration of the editor.
#[derive(Debug, PartialEq, Eq)]
pub struct Settings {
    pub dark_mode: bool,
    pub font_name: String,
    /// The font size in points, as the bit pattern of an IEEE-754
    /// single-precision number. The library stores and copies it, nothing more.
    pub font_size_bits: u32,
    /// Where file dialogs start; empty for the dialog's own choice.
    pub default_path: String,
    pub language: Language,
    pub confirm_on_close: bool,
}

/// What a [`Settings`] value stands for.
pub struct SettingsModel {
    pub dark_mode: bool,
    pub font_name: Seq<char>,
    pub font_size_bits: u32,
    pub default_path: Seq<char>,
    pub language: Language,
    pub confirm_on_close: bool,
}

impl SettingsModel {
    /// Dark theme, the default font at twelve points, no default path,
    /// English, confirmation on close.
    pub open spec fn defaults() -> SettingsModel {
        SettingsModel {
            dark_mode: true,
            font_name: default_font_name(),
            font_size_bits: DEFAULT_FONT_SIZE_BITS,
            default_path: Seq::empty(),
            language: Language::English,
            confirm_on_close: true,
        }
    }

    /// Dark mode asks for the dark colours, anything else for the light ones.
    pub open spec fn theme(self) -> Theme {
        if self.dark_mode {
            Theme::Dark
        } else {
            Theme::Light
        }
    }

    /// The fonts that come with the application are used under their names;
    /// every other name stands for the interface's own font.
    pub open spec fn font_family(self) -> FontFamilyModel {
        if self.font_name == "Roboto"@ || self.font_name == "Inter"@ || self.font_name
            == "Fira Code"@ {
            FontFamilyModel::Named(self.font_name)
        } else {
            FontFamilyModel::Proportional
        }
    }
}

/// What the host found where the settings are kept.
#[derive(Debug, PartialEq, Eq)]
pub enum StoredSettings {
    /// There is no settings file.
    Missing,
    /// The configuration root or the file could not be read.
    Unreadable,
    /// The file does not hold settings.
    Malformed,
    /// The settings that the file holds.
    Found(Settings),
}

/// What a [`StoredSettings`] stands for.
pub enum StoredSettingsModel {
    Missing,
    Unreadable,
    Malformed,
    Found(SettingsModel),
}

impl StoredSettingsModel {
    /// The settings to start with: those that were found, else the defaults.
    pub open spec fn or_defaults(self) -> SettingsModel {
        match self {
            StoredSettingsModel::Found(settings) => settings,
            _ => SettingsModel::defaults(),
        }
    }
}

impl View for StoredSettings {
    type V = StoredSettingsModel;

    open spec fn view(&self) -> StoredSettingsModel {
        match *self {
            StoredSettings::Missing => StoredSettingsModel::Missing,
            StoredSettings::Unreadable => StoredSettingsModel::Unreadable,
            StoredSettings::Malformed => StoredSettingsModel::Malformed,
            StoredSettings::Found(settings) => StoredSettingsModel::Found(settings@),
        }
    }
}

impl View for Settings {
    type V = SettingsModel;

    open spec fn view(&self) -> SettingsModel {
        SettingsModel {
            dark_mode: self.dark_mode,
            font_name: self.font_name@,
            font_size_bits: self.font_size_bits,
            default_path: self.default_path@,
            language: self.language,
            confirm_on_close: self.confirm_on_close,
        }
    }
}

impl Clone for Settings {
    fn clone(&self) -> (copy: Self)
        ensures
            copy == *self,
    {
        Settings {
            dark_mode: self.dark_mode,
            font_name: self.font_name.clone(),
            font_size_bits: self.font_size_bits,
            default_path: self.default_path.clone(),
            language: self.language,
            confirm_on_close: self.confirm_on_close,
        }
    }
}

impl Default for Settings {
    fn default() -> (settings: Self)
        ensures
            settings@ == SettingsModel::defaults(),
    {
        Settings {
            dark_mode: true,
            font_name: "Roboto".to_owned(),
            font_size_bits: DEFAULT_FONT_SIZE_BITS,
            default_path: String::new(),
            language: Language::English,
            confirm_on_close: true,
        }
    }
}

/// The settings in effect and the copy that the settings screen edits.
#[derive(Debug, PartialEq, Eq)]
pub struct SettingsState {
    /// The settings in effect; what was last loaded, committed or defaulted.
    pub current: Settings,
    /// The draft. It may differ from `current` until it is committed or
    /// discarded.
    pub unsaved: Settings,
}

/// What a [`SettingsState`] stands for.
pub struct SettingsStoreModel {
    pub current: SettingsModel,
    pub unsaved: SettingsModel,
}

impl View for SettingsState {
    type V = SettingsStoreModel;

    open spec fn view(&self) -> SettingsStoreModel {
        SettingsStoreModel { current: self.current@, unsaved: self.unsaved@ }
    }
}

impl Default for SettingsState {
    fn default() -> (store: Self)
        ensures
            store@.current == SettingsModel::defaults(),
            store@.unsaved == SettingsModel::defaults(),
    {
        SettingsState { current: Settings::default(), unsaved: Settings::default() }
    }
}

/// The document being edited, and the prompt that guards it.
#[derive(Debug, PartialEq, Eq)]
pub struct NotepadState {
    /// The text in the editor.
    pub current_content: String,
    /// The file the document is bound to, once it was opened or saved.
    pub current_file_path: Option<PathBuf>,
    /// The text as it was last read from or written to the file.
    pub file_content: Option<String>,
    /// Whether the unsaved-changes prompt is on screen.
    pub show_save_modal: bool,
    /// What the prompt was raised for.
    pub pending_action: PendingAction,
    /// Whether the host was told to close the window. Once set it stays set:
    /// a close that was carried out is final.
    pub closing: bool,
}

/// What a [`NotepadState`] stands for.
pub struct NotepadModel {
    pub content: Seq<char>,
    pub path: Option<PathBuf>,
    pub persisted: Option<Seq<char>>,
    pub prompt: bool,
    pub pending: PendingAction,
    pub closing: bool,
}

impl NotepadModel {
    /// The empty, unbound document with no prompt.
    pub open spec fn initial() -> NotepadModel {
        NotepadModel {
            content: Seq::empty(),
            path: None,
            persisted: None,
            prompt: false,
            pending: PendingAction::Nothing,
            closing: false,
        }
    }

    /// The text differs from what the file holds; for a document that was
    /// never read or written, the text is not empty.
    pub open spec fn has_unsaved_changes(self) -> bool {
        match self.persisted {
            Some(text) => self.content != text,
            None => self.content.len() > 0,
        }
    }

    /// No prompt on screen and nothing waiting.
    pub open spec fn at_rest(self) -> bool {
        !self.prompt && self.pending == PendingAction::Nothing
    }

    /// At rest, and the window is not being closed.
    pub open spec fn idle(self) -> bool {
        self.at_rest() && !self.closing
    }

    /// The prompt is on screen for exactly one waiting action.
    pub open spec fn confirming(self) -> bool {
        self.prompt && self.pending != PendingAction::Nothing
    }
}

impl View for NotepadState {
    type V = NotepadModel;

    open spec fn view(&self) -> NotepadModel {
        NotepadModel {
            content: self.current_content@,
            path: self.current_file_path,
            persisted: match self.file_content {
                Some(text) => Some(text@),
                None => None,
            },
            prompt: self.show_save_modal,
            pending: self.pending_action,
            closing: self.closing,
        }
    }
}

impl Default for NotepadState {
    fn default() -> (notepad: Self)
        ensures
            notepad@ == NotepadModel::initial(),
    {
        NotepadState {
            current_content: String::new(),
            current_file_path: None,
            file_content: None,
            show_save_modal: false,
            pending_action: PendingAction::Nothing,
            closing: false,
        }
    }
}

/// The whole state of the application.
pub struct AppState {
    pub screen: Screen,
    pub notepad_state: NotepadState,
    pub settings_state: SettingsState,
    /// The interface strings of the language in effect, by key.
    pub strings: StringHashMap<String>,
    /// The folder of the settings file, below the per-user configuration root.
    pub config_dir: String,
    /// The name of the settings file.
    pub config_file: String,
}

/// What an [`AppState`] stands for.
pub struct AppModel {
    pub screen: Screen,
    pub notepad: NotepadModel,
    pub settings: SettingsStoreModel,
    pub strings: Map<Seq<char>, Seq<char>>,
    pub config_dir: Seq<char>,
    pub config_file: Seq<char>,
}

impl AppModel {
    /// The state at launch: the editor screen, an empty document, default
    /// settings and no interface strings.
    pub open spec fn initial() -> AppModel {
        AppModel {
            screen: Screen::Notepad,
            notepad: NotepadModel::initial(),
            settings: SettingsStoreModel {
                current: SettingsModel::defaults(),
                unsaved: SettingsModel::defaults(),
            },
            strings: Map::empty(),
            config_dir: config_folder_name(),
            config_file: config_file_name(),
        }
    }

    /// The interface string for `key`, or `key` itself where there is none.
    pub open spec fn text(self, key: Seq<char>) -> Seq<char> {
        if self.strings.contains_key(key) {
            self.strings[key]
        } else {
            key
        }
    }

    /// The stored settings, or the defaults where none were found, become
    /// both the settings in effect and the draft, whatever they were before.
    /// A missing file is no error; a file that cannot be read or understood
    /// is one.
    pub open spec fn load_settings_from_disk(self, stored: StoredSettingsModel) -> (
        AppModel,
        Result<(), LoadError>,
    ) {
        (
            AppModel {
                settings: SettingsStoreModel {
                    current: stored.or_defaults(),
                    unsaved: stored.or_defaults(),
                },
                ..self
            },
            match stored {
                StoredSettingsModel::Unreadable => Err(LoadError::Unreadable),
                StoredSettingsModel::Malformed => Err(LoadError::Malformed),
                _ => Ok(()),
            },
        )
    }

    /// The settings in effect are written to the settings file.
    pub open spec fn save_settings_to_disk(self) -> EffectModel {
        EffectModel::WriteSettings {
            folder: self.config_dir,
            file: self.config_file,
            settings: self.settings.current,
        }
    }

    /// The interface strings are those of the language in effect.
    pub open spec fn load_language_strings(self) -> EffectModel {
        EffectModel::ReadStrings {
            resource: self.settings.current.language.strings_resource_text(),
        }
    }

    /// A table that was read and understood replaces the interface strings;
    /// anything else leaves them as they are and is an error.
    pub open spec fn strings_read(self, text: Option<Seq<char>>) -> (
        AppModel,
        Result<(), LoadError>,
    ) {
        match text {
            None => (self, Err(LoadError::Unreadable)),
            Some(json) => match parsed_string_table(json) {
                Some(entries) => (AppModel { strings: string_table(entries), ..self }, Ok(())),
                None => (self, Err(LoadError::Malformed)),
            },
        }
    }

    /// A close that would lose changes is refused and waits behind the
    /// prompt; any other close goes ahead. Once the user has confirmed a
    /// close, no close is refused any more.
    pub open spec fn close_requested(self) -> (AppModel, EffectModel) {
        if self.notepad.closing {
            (self, EffectModel::Nothing)
        } else if self.notepad.has_unsaved_changes() {
            (self.deferred(PendingAction::CloseApp), EffectModel::CancelClose)
        } else {
            (self, EffectModel::Nothing)
        }
    }

    /// The host's answer to an effect takes up the work where the effect
    /// left it.
    pub open spec fn resume(self, reply: ReplyModel) -> (AppModel, EffectModel) {
        match reply {
            ReplyModel::OpenPathChosen(path) => (self, AppModel::open_path_chosen(path)),
            ReplyModel::FileRead { path, content } => (
                self.file_read(path, content),
                EffectModel::Nothing,
            ),
            ReplyModel::SavePathChosen { chosen, after } => self.save_path_chosen(chosen, after),
            ReplyModel::FileWritten { path, written, after } => self.file_written(
                path,
                written,
                after,
            ),
            ReplyModel::SettingsWritten => (self, self.load_language_strings()),
            ReplyModel::StringsRead(text) => (
                self.strings_read(text).0,
                match self.strings_read(text).1 {
                    Ok(_) => EffectModel::Nothing,
                    Err(error) => EffectModel::Report(error),
                },
            ),
            ReplyModel::FolderChosen(folder) => (self.folder_chosen(folder), EffectModel::Nothing),
        }
    }

    /// The state machine of the application: the state that follows `event`,
    /// and what the host is to do.
    pub open spec fn update(self, event: EventModel) -> (AppModel, EffectModel) {
        match event {
            EventModel::CloseRequested => self.close_requested(),
            EventModel::Input(input) => self.navigator(input),
            EventModel::Shortcut { key, modifier } => self.shortcuts(key, modifier),
            EventModel::Reply(reply) => self.resume(reply),
        }
    }
}

/// The table that a list of entries stands for. Where a key occurs more than
/// once, its last entry counts.
pub open spec fn string_table(entries: Seq<(Seq<char>, Seq<char>)>) -> Map<Seq<char>, Seq<char>>
    decreases entries.len(),
{
    if entries.len() == 0 {
        Map::empty()
    } else {
        string_table(entries.drop_last()).insert(entries.last().0, entries.last().1)
    }
}

impl View for AppState {
    type V = AppModel;

    open spec fn view(&self) -> AppModel {
        AppModel {
            screen: self.screen,
            notepad: self.notepad_state@,
            settings: self.settings_state@,
            strings: self.strings@.map_values(|text: String| text@),
            config_dir: self.config_dir@,
            config_file: self.config_file@,
        }
    }
}

impl Default for AppState {
    fn default() -> (app: Self)
        ensures
            app@ == AppModel::initial(),
    {
        let app = AppState {
            screen: Screen::Notepad,
            notepad_state: NotepadState::default(),
            settings_state: SettingsState::default(),
            strings: StringHashMap::new(),
            config_dir: "NotepadR".to_owned(),
            config_file: "config.json".to_owned(),
        };
        assert(app@.strings =~= Map::empty());
        app
    }
}

impl AppState {
    /// The state at launch, with what the host found where the settings are
    /// kept, and the first thing the host is to do: read the interface
    /// strings of the language in effect.
    pub fn new(stored: StoredSettings) -> (started: (Self, Effect))
        ensures
            started.0@ == AppModel::initial().load_settings_from_disk(stored@).0,
            started.1@ == started.0@.load_language_strings(),
    {
        let mut app = Self::default();
        let _ = app.load_settings_from_disk(stored);
        let effect = app.load_language_strings();
        (app, effect)
    }

    /// Moves to the state that follows `event` and tells the host what to do.
    pub fn update(&mut self, event: Event) -> (effect: Effect)
        ensures
            (final(self)@, effect@) == old(self)@.update(event@),
    {
        match event {
            Event::CloseRequested => self.close_requested(),
            Event::Input(input) => navigator(self, input),
            Event::Shortcut { key, modifier } => shortcuts(self, key, modifier),
            Event::Reply(reply) => self.resume(reply),
        }
    }

    /// The window system asks to close the window. With unsaved changes the
    /// close is refused and waits behind the prompt; without, it goes ahead.
    /// After a close that the user confirmed, the close that the window
    /// system then asks for goes ahead whatever the document holds.
    pub fn close_requested(&mut self) -> (effect: Effect)
        ensures
            (final(self)@, effect@) == old(self)@.close_requested(),
    {
        if self.notepad_state.closing {
            Effect::Nothing
        } else if self.has_unsaved_changes() {
            self.notepad_state.pending_action = PendingAction::CloseApp;
            self.notepad_state.show_save_modal = true;
            Effect::CancelClose
        } else {
            Effect::Nothing
        }
    }

    /// Takes up the work where the effect that `reply` answers left it.
    pub fn resume(&mut self, reply: Reply) -> (effect: Effect)
        ensures
            (final(self)@, effect@) == old(self)@.resume(reply@),
    {
        match reply {
            Reply::OpenPathChosen(path) => open_path_chosen(path),
            Reply::FileRead { path, content } => {
                file_read(self, path, content);
                Effect::Nothing
            },
            Reply::SavePathChosen { chosen, after } => save_path_chosen(self, chosen, after),
            Reply::FileWritten { path, written, after } => file_written(self, path, written, after),
            Reply::SettingsWritten => self.load_language_strings(),
            Reply::StringsRead(text) => match self.strings_read(text) {
                Ok(_) => Effect::Nothing,
                Err(error) => Effect::Report(error),
            },
            Reply::FolderChosen(folder) => {
                folder_chosen(self, folder);
                Effect::Nothing
            },
        }
    }

    /// Takes over what the host found where the settings are kept. Settings
    /// that were found become the settings in effect and the draft. In every
    /// other case both fall back to the defaults; that is an error unless
    /// the file is simply missing.
    pub fn load_settings_from_disk(&mut self, stored: StoredSettings) -> (loaded: Result<
        (),
        LoadError,
    >)
        ensures
            (final(self)@, loaded) == old(self)@.load_settings_from_disk(stored@),
    {
        match stored {
            StoredSettings::Found(settings) => {
                self.settings_state.unsaved = settings.clone();
                self.settings_state.current = settings;
                Ok(())
            },
            StoredSettings::Missing => {
                self.settings_state = SettingsState::default();
                Ok(())
            },
            StoredSettings::Unreadable => {
                self.settings_state = SettingsState::default();
                Err(LoadError::Unreadable)
            },
            StoredSettings::Malformed => {
                self.settings_state = SettingsState::default();
                Err(LoadError::Malformed)
            },
        }
    }

    /// Asks the host to write the settings in effect to the settings file.
    pub fn save_settings_to_disk(&self) -> (effect: Effect)
        ensures
            effect@ == self@.save_settings_to_disk(),
    {
        Effect::WriteSettings {
            folder: self.config_dir.clone(),
            file: self.config_file.clone(),
            settings: self.settings_state.current.clone(),
        }
    }

    /// Asks the host to read the interface strings of the language in effect.
    pub fn load_language_strings(&self) -> (effect: Effect)
        ensures
            effect@ == self@.load_language_strings(),
    {
        Effect::ReadStrings { resource: self.settings_state.current.language.strings_resource() }
    }

    /// Takes over the interface strings that the host read. `text` is read as
    /// a JSON object of strings; if it is one, its entries replace the
    /// interface strings. If there is no text, or it is no such object, the
    /// strings stay as they are.
    pub fn strings_read(&mut self, text: Option<String>) -> (loaded: Result<(), LoadError>)
        ensures
            (final(self)@, loaded) == old(self)@.strings_read(text_of(text)),
    {
        match text {
            None => Err(LoadError::Unreadable),
            Some(json) => match parse_string_table(json.as_str()) {
                Ok(entries) => {
                    self.install_strings(&entries);
                    Ok(())
                },
                Err(_) => Err(LoadError::Malformed),
            },
        }
    }

    /// Replaces the interface strings by `entries`. Of two entries with one
    /// key the later counts.
    pub fn install_strings(&mut self, entries: &Vec<(String, String)>)
        ensures
            final(self)@ == (AppModel {
                strings: string_table(entries.deep_view()),
                ..old(self)@
            }),
    {
        let mut table: StringHashMap<String> = StringHashMap::new();
        let mut index: usize = 0;
        assert(entries.deep_view().take(0) =~= Seq::empty());
        assert(table@.map_values(|text: String| text@) =~= Map::empty());
        while index < entries.len()
            invariant
                index <= entries.len(),
                table@.map_values(|text: String| text@) == string_table(
                    entries.deep_view().take(index as int),
                ),
            decreases entries.len() - index,
        {
            let key = entries[index].0.clone();
            let value = entries[index].1.clone();
            proof {
                let done = entries.deep_view().take(index as int);
                let next = entries.deep_view().take(index + 1);
                assert(next.drop_last() =~= done);
                assert(next.last() == (key@, value@));
                assert(table@.insert(key@, value).map_values(|text: String| text@)
                    =~= table@.map_values(|text: String| text@).insert(key@, value@));
            }
            table.insert(key, value);
            index = index + 1;
        }
        assert(entries.deep_view().take(index as int) =~= entries.deep_view());
        self.strings = table;
    }

    /// The colours that the settings in effect ask for.
    pub fn theme(&self) -> (theme: Theme)
        ensures
            theme == self@.settings.current.theme(),
    {
        if self.settings_state.current.dark_mode {
            Theme::Dark
        } else {
            Theme::Light
        }
    }

    /// The font family that the settings in effect ask for.
    pub fn font_family(&self) -> (family: FontFamily)
        ensures
            family@ == self@.settings.current.font_family(),
    {
        let name = &self.settings_state.current.font_name;
        if *name == "Roboto".to_owned() || *name == "Inter".to_owned() || *name
            == "Fira Code".to_owned() {
            FontFamily::Named(name.clone())
        } else {
            FontFamily::Proportional
        }
    }

    /// Whether the text in the editor differs from what the file holds.
    pub fn has_unsaved_changes(&self) -> (dirty: bool)
        ensures
            dirty == self@.notepad.has_unsaved_changes(),
    {
        match &self.notepad_state.file_content {
            Some(content) => !(self.notepad_state.current_content == *content),
            None => !self.notepad_state.current_content.as_str().is_empty(),
        }
    }

    /// The interface string for `key`, or `key` itself where the table has no
    /// entry for it.
    pub fn text(&self, key: &str) -> (text: String)
        ensures
            text@ == self@.text(key@),
    {
        match self.strings.get(key) {
            Some(found) => found.clone(),
            None => key.to_owned(),
        }
    }
}

/// After loading, from whatever state, the settings in effect and the draft
/// are the stored settings, and the defaults where none were found, whether
/// the file is missing, unreadable or malformed. Only the last two are
/// errors, and nothing but the settings changes.
pub proof fn law_loaded_settings(state: AppModel, stored: StoredSettingsModel)
    ensures
        ({
            let (loaded, outcome) = state.load_settings_from_disk(stored);
            &&& loaded.settings.current == stored.or_defaults()
            &&& loaded.settings.unsaved == stored.or_defaults()
            &&& !(stored is Found) ==> loaded.settings.current == SettingsModel::defaults()
            &&& outcome is Err <==> stored is Unreadable || stored is Malformed
            &&& loaded == (AppModel { settings: loaded.settings, ..state })
        }),
{
}

/// A close that was carried out is final. Whatever happens afterwards, the
/// window stays on its way out, and a close that the window system asks for
/// is never refused and raises no prompt, however the document looks.
pub proof fn law_confirmed_close_is_final(state: AppModel, event: EventModel)
    requires
        state.notepad.closing,
    ensures
        state.update(event).0.notepad.closing,
        state.update(EventModel::CloseRequested) == (state, EffectModel::Nothing),
{
}

/// The place of the settings file never changes: no event moves the folder
/// or renames the file, so both are what they were at launch.
pub proof fn law_settings_file_stays_put(state: AppModel, event: EventModel)
    ensures
        AppModel::initial().config_dir == config_folder_name(),
        AppModel::initial().config_file == config_file_name(),
        state.update(event).0.config_dir == state.config_dir,
        state.update(event).0.config_file == state.config_file,
{
}

/// A document that was never read from or written to a file has unsaved
/// changes as soon as its text is not empty.
pub proof fn law_unbound_text_is_unsaved(notepad: NotepadModel)
    requires
        notepad.persisted is None,
        notepad.content.len() > 0,
    ensures
        notepad.has_unsaved_changes(),
{
}

/// The fonts offered on the settings screen, in the order they are listed.
pub open spec fn available_fonts() -> Seq<Seq<char>> {
    seq!["Default"@, "Roboto"@, "Inter"@, "Fira Code"@]
}

/// The names of the fonts that the settings screen offers.
pub fn get_available_fonts() -> (fonts: Vec<String>)
    ensures
        fonts.deep_view() == available_fonts(),
{
    let mut fonts: Vec<String> = Vec::new();
    fonts.push("Default".to_owned());
    fonts.push("Roboto".to_owned());
    fonts.push("Inter".to_owned());
    fonts.push("Fira Code".to_owned());
    assert(fonts.deep_view() =~= available_fonts());
    fonts
}

} // verus!

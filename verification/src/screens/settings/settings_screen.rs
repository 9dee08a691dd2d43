//! The settings screen: a draft that is committed or dropped.

use crate::app_state::{AppModel, AppState, Language, SettingsModel, SettingsStoreModel};
use crate::effects::{text_of, Effect, EffectModel, Input, SettingsButton};
use crate::navigator::Screen;
use vstd::prelude::*;

verus! {

/// The key of the interface string that names `language`.
pub open spec fn language_key(language: Language) -> Seq<char> {
    match language {
        Language::Spanish => "settings.language.spanish"@,
        Language::English => "settings.language.english"@,
        Language::French => "settings.language.french"@,
    }
}

/// The entry of the font list that stands for the interface's own font.
pub open spec fn default_font_entry() -> Seq<char> {
    "Default"@
}

/// The key of the interface string shown for [`default_font_entry`].
pub open spec fn default_font_key() -> Seq<char> {
    "settings.font.default"@
}

impl AppModel {
    /// The draft becomes the settings in effect.
    pub open spec fn commit_draft(self) -> AppModel {
        AppModel {
            settings: SettingsStoreModel {
                current: self.settings.unsaved,
                unsaved: self.settings.unsaved,
            },
            ..self
        }
    }

    /// The draft is reset to the settings in effect.
    pub open spec fn discard_changes(self) -> AppModel {
        AppModel {
            settings: SettingsStoreModel {
                current: self.settings.current,
                unsaved: self.settings.current,
            },
            ..self
        }
    }

    /// Committing takes effect at once and is then written through.
    pub open spec fn save_settings(self) -> (AppModel, EffectModel) {
        (self.commit_draft(), self.commit_draft().save_settings_to_disk())
    }

    /// The four buttons of the settings screen. Save and Cancel lead back to
    /// the editor, Apply and Browse stay.
    pub open spec fn settings_content(self, button: SettingsButton) -> (AppModel, EffectModel) {
        match button {
            SettingsButton::Save => (
                AppModel { screen: Screen::Notepad, ..self.commit_draft() },
                self.commit_draft().save_settings_to_disk(),
            ),
            SettingsButton::Apply => self.save_settings(),
            SettingsButton::Cancel => (
                AppModel { screen: Screen::Notepad, ..self.discard_changes() },
                EffectModel::Nothing,
            ),
            SettingsButton::Browse => (self, EffectModel::ChooseFolder),
        }
    }

    /// The settings screen answers to its own buttons only.
    pub open spec fn settings_screen(self, input: Input) -> (AppModel, EffectModel) {
        match input {
            Input::Settings(button) => self.settings_content(button),
            _ => (self, EffectModel::Nothing),
        }
    }

    /// A chosen folder becomes the draft's default path; a dismissed dialog
    /// changes nothing.
    pub open spec fn folder_chosen(self, folder: Option<Seq<char>>) -> AppModel {
        match folder {
            Some(folder) => AppModel {
                settings: SettingsStoreModel {
                    unsaved: SettingsModel { default_path: folder, ..self.settings.unsaved },
                    ..self.settings
                },
                ..self
            },
            None => self,
        }
    }

    /// What the font list shows for `font`: the localized string for the
    /// interface's own font, the font's name for any other.
    pub open spec fn font_label(self, font: Seq<char>) -> Seq<char> {
        if font == default_font_entry() {
            self.text(default_font_key())
        } else {
            font
        }
    }
}

/// Commits the draft: it becomes the settings in effect, whatever becomes of
/// the write that the returned effect asks for.
pub fn save(state: &mut AppState) -> (effect: Effect)
    ensures
        (final(state)@, effect@) == old(state)@.save_settings(),
{
    state.settings_state.current = state.settings_state.unsaved.clone();
    state.save_settings_to_disk()
}

/// Drops the draft: it is again a copy of the settings in effect, which stay
/// as they are.
pub fn discard_changes(state: &mut AppState)
    ensures
        final(state)@ == old(state)@.discard_changes(),
{
    state.settings_state.unsaved = state.settings_state.current.clone();
}

/// Takes the folder that the user chose as the draft's default path. A
/// dismissed dialog leaves the draft as it is.
pub fn folder_chosen(state: &mut AppState, folder: Option<String>)
    ensures
        final(state)@ == old(state)@.folder_chosen(text_of(folder)),
{
    match folder {
        Some(folder) => {
            state.settings_state.unsaved.default_path = folder;
        },
        None => {},
    }
}

/// The name of `language` in the language of the interface.
pub fn get_language(state: &AppState, language: Language) -> (name: String)
    ensures
        name@ == state@.text(language_key(language)),
{
    match language {
        Language::Spanish => state.text("settings.language.spanish"),
        Language::English => state.text("settings.language.english"),
        Language::French => state.text("settings.language.french"),
    }
}

/// What the font list shows for the entry `font`.
pub fn font_label(state: &AppState, font: &String) -> (label: String)
    ensures
        label@ == state@.font_label(font@),
{
    if *font == "Default".to_owned() {
        state.text("settings.font.default")
    } else {
        font.clone()
    }
}

/// Handles one button of the settings screen. Save commits the draft and
/// returns to the editor. Apply commits the draft and stays. Cancel drops the
/// draft and returns to the editor. Browse asks for a folder dialog.
pub fn settings_content(state: &mut AppState, button: SettingsButton) -> (effect: Effect)
    ensures
        (final(state)@, effect@) == old(state)@.settings_content(button),
{
    match button {
        SettingsButton::Save => {
            let effect = save(state);
            state.screen = Screen::Notepad;
            effect
        },
        SettingsButton::Apply => save(state),
        SettingsButton::Cancel => {
            discard_changes(state);
            state.screen = Screen::Notepad;
            Effect::Nothing
        },
        SettingsButton::Browse => Effect::ChooseFolder,
    }
}

/// Handles one input on the settings screen.
pub fn settings_screen(state: &mut AppState, input: Input) -> (effect: Effect)
    ensures
        (final(state)@, effect@) == old(state)@.settings_screen(input),
{
    match input {
        Input::Settings(button) => settings_content(state, button),
        _ => Effect::Nothing,
    }
}

/// After Save, Apply or Cancel the draft equals the settings in effect.
/// Save and Apply put the draft in effect, Cancel keeps what was in effect;
/// Save and Cancel lead to the editor, Apply stays on the screen it was
/// pressed on. None of them touches the document.
pub proof fn law_buttons_settle_the_draft(state: AppModel)
    ensures
        ({
            let saved = state.settings_content(SettingsButton::Save).0;
            let applied = state.settings_content(SettingsButton::Apply).0;
            let cancelled = state.settings_content(SettingsButton::Cancel).0;
            &&& saved.settings.current == state.settings.unsaved
            &&& saved.settings.unsaved == state.settings.unsaved
            &&& saved.screen == Screen::Notepad
            &&& applied.settings.current == state.settings.unsaved
            &&& applied.settings.unsaved == state.settings.unsaved
            &&& applied.screen == state.screen
            &&& cancelled.settings.current == state.settings.current
            &&& cancelled.settings.unsaved == state.settings.current
            &&& cancelled.screen == Screen::Notepad
            &&& saved.notepad == state.notepad
            &&& applied.notepad == state.notepad
            &&& cancelled.notepad == state.notepad
        }),
{
}

} // verus!

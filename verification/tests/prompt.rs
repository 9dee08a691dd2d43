use notepad_r::app_state::{AppState, PendingAction};
use notepad_r::effects::{AfterSave, Effect, Event, Input, MenuItem, PromptChoice, Reply};
use notepad_r::screens::notepad::commands::file_read;
use notepad_r::screens::notepad::menu_topbar::{
    app_menu_topbar, on_new_button_clicked, on_open_button_clicked, on_save_button_clicked,
};
use notepad_r::screens::notepad::notepad_screen::{
    after_save, editor_has_focus, execute_pending_action, notepad_screen,
    show_unsaved_changes_modal,
};
use std::collections::HashMap;
use std::path::PathBuf;

/// A host that keeps its files in memory and answers dialogs from a script.
struct Host {
    files: HashMap<PathBuf, String>,
    open_choice: Option<PathBuf>,
    save_choice: Option<PathBuf>,
    writes_fail: bool,
    closed: bool,
    close_cancelled: bool,
    writes: usize,
}

impl Host {
    fn new() -> Host {
        Host {
            files: HashMap::new(),
            open_choice: None,
            save_choice: None,
            writes_fail: false,
            closed: false,
            close_cancelled: false,
            writes: 0,
        }
    }

    /// Feeds `event` to the application and carries out effects until none
    /// is left.
    fn run(&mut self, app: &mut AppState, event: Event) {
        let mut effect = app.update(event);
        loop {
            let reply = match effect {
                Effect::Nothing => return,
                Effect::ChooseOpenPath { .. } => Reply::OpenPathChosen(self.open_choice.clone()),
                Effect::ReadFile { path } => {
                    let content = self.files.get(&path).cloned();
                    Reply::FileRead { path, content }
                }
                Effect::ChooseSavePath { after, .. } => {
                    Reply::SavePathChosen { chosen: self.save_choice.clone(), after }
                }
                Effect::WriteFile { path, content, after } => {
                    let written = !self.writes_fail;
                    if written {
                        self.files.insert(path.clone(), content);
                        self.writes += 1;
                    }
                    Reply::FileWritten { path, written, after }
                }
                Effect::CancelClose => {
                    self.close_cancelled = true;
                    return;
                }
                Effect::Close => {
                    self.closed = true;
                    return;
                }
                other => panic!("unexpected effect {:?}", other),
            };
            effect = app.update(Event::Reply(reply));
        }
    }
}

fn editor_with(text: &str) -> AppState {
    let mut app = AppState::default();
    app.notepad_state.current_content = text.to_string();
    app
}

fn idle(app: &AppState) -> bool {
    !app.notepad_state.show_save_modal && app.notepad_state.pending_action == PendingAction::Nothing
}

#[test]
fn typing_then_new_then_discard_empties_the_editor() {
    let mut host = Host::new();
    let mut app = AppState::default();
    app.notepad_state.current_content = "hello".to_string();

    host.run(&mut app, Event::Input(Input::Menu(MenuItem::New)));
    assert!(app.notepad_state.show_save_modal);
    assert_eq!(app.notepad_state.pending_action, PendingAction::NewFile);
    assert_eq!(app.notepad_state.current_content, "hello");

    host.run(&mut app, Event::Input(Input::Prompt(PromptChoice::Discard)));
    assert_eq!(app.notepad_state.current_content, "");
    assert_eq!(app.notepad_state.pending_action, PendingAction::Nothing);
    assert!(!app.notepad_state.show_save_modal);
    assert!(idle(&app));
}

#[test]
fn close_with_edits_then_save_writes_and_closes() {
    let mut host = Host::new();
    host.files.insert(PathBuf::from("a.txt"), "foo".to_string());
    host.open_choice = Some(PathBuf::from("a.txt"));
    let mut app = AppState::default();

    host.run(&mut app, Event::Input(Input::Menu(MenuItem::Open)));
    assert_eq!(app.notepad_state.current_content, "foo");
    assert_eq!(app.notepad_state.current_file_path, Some(PathBuf::from("a.txt")));
    assert!(!app.has_unsaved_changes());

    app.notepad_state.current_content = "foobar".to_string();
    host.run(&mut app, Event::CloseRequested);
    assert!(host.close_cancelled);
    assert!(!host.closed);
    assert!(app.notepad_state.show_save_modal);
    assert_eq!(app.notepad_state.pending_action, PendingAction::CloseApp);

    host.run(&mut app, Event::Input(Input::Prompt(PromptChoice::Save)));
    assert_eq!(host.files.get(&PathBuf::from("a.txt")), Some(&"foobar".to_string()));
    assert_eq!(app.notepad_state.current_content, "");
    assert!(host.closed);
    assert!(idle(&app));
}

#[test]
fn close_request_after_a_discarded_close_is_let_through() {
    let mut host = Host::new();
    let mut app = editor_with("hello");
    host.run(&mut app, Event::CloseRequested);
    assert!(host.close_cancelled);
    assert!(!app.notepad_state.closing);

    host.run(&mut app, Event::Input(Input::Prompt(PromptChoice::Discard)));
    assert!(host.closed);
    assert!(app.notepad_state.closing);
    assert!(app.has_unsaved_changes());

    host.close_cancelled = false;
    assert_eq!(app.update(Event::CloseRequested), Effect::Nothing);
    assert!(!app.notepad_state.show_save_modal);
    assert_eq!(app.notepad_state.pending_action, PendingAction::Nothing);
    assert_eq!(app.notepad_state.current_content, "hello");
    assert!(app.notepad_state.closing);

    host.run(&mut app, Event::CloseRequested);
    assert!(!host.close_cancelled);
}

#[test]
fn close_request_after_a_saved_close_is_let_through() {
    let mut host = Host::new();
    host.files.insert(PathBuf::from("a.txt"), "foo".to_string());
    host.open_choice = Some(PathBuf::from("a.txt"));
    let mut app = AppState::default();
    host.run(&mut app, Event::Input(Input::Menu(MenuItem::Open)));
    app.notepad_state.current_content = "foobar".to_string();
    host.run(&mut app, Event::CloseRequested);
    host.run(&mut app, Event::Input(Input::Prompt(PromptChoice::Save)));
    assert!(host.closed);
    assert!(app.notepad_state.closing);
    assert_eq!(app.notepad_state.current_content, "");
    assert_eq!(app.notepad_state.file_content, Some("foobar".to_string()));
    assert!(app.has_unsaved_changes());

    assert_eq!(app.update(Event::CloseRequested), Effect::Nothing);
    assert!(!app.notepad_state.show_save_modal);
    assert_eq!(app.notepad_state.pending_action, PendingAction::Nothing);
}

#[test]
fn a_confirmed_close_stays_confirmed() {
    let mut app = editor_with("hello");
    app.close_requested();
    show_unsaved_changes_modal(&mut app, PromptChoice::Discard);
    assert!(app.notepad_state.closing);

    app.update(Event::Input(Input::Menu(MenuItem::New)));
    assert!(app.notepad_state.closing);
    app.update(Event::Input(Input::Prompt(PromptChoice::Cancel)));
    assert!(app.notepad_state.closing);
    app.update(Event::Reply(Reply::FileRead {
        path: PathBuf::from("a.txt"),
        content: Some("foo".to_string()),
    }));
    assert!(app.notepad_state.closing);
    app.notepad_state.current_content = "edited".to_string();
    assert_eq!(app.update(Event::CloseRequested), Effect::Nothing);
    assert!(!app.notepad_state.show_save_modal);
}

#[test]
fn only_a_carried_out_close_sets_the_window_on_its_way() {
    let mut app = editor_with("hello");
    app.close_requested();
    assert!(!app.notepad_state.closing);
    show_unsaved_changes_modal(&mut app, PromptChoice::Cancel);
    assert!(!app.notepad_state.closing);
    assert_eq!(app.close_requested(), Effect::CancelClose);

    let mut app = editor_with("hello");
    on_new_button_clicked(&mut app);
    show_unsaved_changes_modal(&mut app, PromptChoice::Discard);
    assert!(!app.notepad_state.closing);

    let mut app = editor_with("hello");
    on_open_button_clicked(&mut app);
    show_unsaved_changes_modal(&mut app, PromptChoice::Discard);
    assert!(!app.notepad_state.closing);

    let mut app = AppState::default();
    assert_eq!(app.close_requested(), Effect::Nothing);
    assert!(!app.notepad_state.closing);
}

#[test]
fn requests_with_unsaved_changes_wait_behind_the_prompt() {
    let mut app = editor_with("hello");
    assert_eq!(on_new_button_clicked(&mut app), Effect::Nothing);
    assert!(app.notepad_state.show_save_modal);
    assert_eq!(app.notepad_state.pending_action, PendingAction::NewFile);
    assert_eq!(app.notepad_state.current_content, "hello");
    assert_eq!(app.notepad_state.current_file_path, None);
    assert_eq!(app.notepad_state.file_content, None);

    let mut app = editor_with("hello");
    assert_eq!(on_open_button_clicked(&mut app), Effect::Nothing);
    assert!(app.notepad_state.show_save_modal);
    assert_eq!(app.notepad_state.pending_action, PendingAction::OpenFile);
    assert_eq!(app.notepad_state.current_content, "hello");

    let mut app = editor_with("hello");
    assert_eq!(app.close_requested(), Effect::CancelClose);
    assert!(app.notepad_state.show_save_modal);
    assert_eq!(app.notepad_state.pending_action, PendingAction::CloseApp);
    assert_eq!(app.notepad_state.current_content, "hello");
}

#[test]
fn requests_without_unsaved_changes_go_ahead() {
    let mut app = AppState::default();
    file_read(&mut app, PathBuf::from("a.txt"), Some("foo".to_string()));
    assert_eq!(on_new_button_clicked(&mut app), Effect::Nothing);
    assert_eq!(app.notepad_state.current_content, "");
    assert_eq!(app.notepad_state.current_file_path, None);
    assert!(idle(&app));

    let mut app = AppState::default();
    assert_eq!(on_open_button_clicked(&mut app), Effect::ChooseOpenPath { directory: None });
    assert!(idle(&app));

    let mut app = AppState::default();
    assert_eq!(app.close_requested(), Effect::Nothing);
    assert!(idle(&app));
}

#[test]
fn save_button_needs_no_confirmation() {
    let app = editor_with("hello");
    assert_eq!(
        on_save_button_clicked(&app),
        Effect::ChooseSavePath { directory: None, after: AfterSave::Nothing }
    );
}

#[test]
fn a_new_request_replaces_the_waiting_one() {
    let mut app = editor_with("hello");
    app_menu_topbar(&mut app, MenuItem::New);
    assert_eq!(app.notepad_state.pending_action, PendingAction::NewFile);
    app_menu_topbar(&mut app, MenuItem::Open);
    assert_eq!(app.notepad_state.pending_action, PendingAction::OpenFile);
    app.close_requested();
    assert_eq!(app.notepad_state.pending_action, PendingAction::CloseApp);
    assert!(app.notepad_state.show_save_modal);
}

#[test]
fn cancel_keeps_the_text_and_returns_to_idle() {
    let mut app = editor_with("partly typed");
    app_menu_topbar(&mut app, MenuItem::Open);
    let effect = show_unsaved_changes_modal(&mut app, PromptChoice::Cancel);
    assert_eq!(effect, Effect::Nothing);
    assert_eq!(app.notepad_state.current_content, "partly typed");
    assert_eq!(app.notepad_state.current_file_path, None);
    assert_eq!(app.notepad_state.file_content, None);
    assert!(idle(&app));
}

#[test]
fn discard_with_waiting_open_starts_the_dialog() {
    let mut app = editor_with("hello");
    app_menu_topbar(&mut app, MenuItem::Open);
    let effect = show_unsaved_changes_modal(&mut app, PromptChoice::Discard);
    assert_eq!(effect, Effect::ChooseOpenPath { directory: None });
    assert_eq!(app.notepad_state.current_content, "hello");
    assert!(idle(&app));
}

#[test]
fn discard_with_waiting_close_closes() {
    let mut app = editor_with("hello");
    app.close_requested();
    let effect = show_unsaved_changes_modal(&mut app, PromptChoice::Discard);
    assert_eq!(effect, Effect::Close);
    assert!(idle(&app));
}

#[test]
fn prompt_buttons_do_nothing_without_a_prompt() {
    for choice in [PromptChoice::Discard, PromptChoice::Cancel, PromptChoice::Save] {
        let mut app = editor_with("hello");
        app.notepad_state.pending_action = PendingAction::CloseApp;
        let effect = show_unsaved_changes_modal(&mut app, choice);
        assert_eq!(effect, Effect::Nothing);
        assert_eq!(app.notepad_state.current_content, "hello");
        assert_eq!(app.notepad_state.pending_action, PendingAction::CloseApp);
        assert!(!app.notepad_state.show_save_modal);
    }
}

#[test]
fn save_in_the_prompt_starts_a_save_that_will_resume() {
    let mut app = editor_with("hello");
    app_menu_topbar(&mut app, MenuItem::New);
    let effect = show_unsaved_changes_modal(&mut app, PromptChoice::Save);
    assert_eq!(
        effect,
        Effect::ChooseSavePath { directory: None, after: AfterSave::ResumePending }
    );
    assert!(!app.notepad_state.show_save_modal);
    assert_eq!(app.notepad_state.pending_action, PendingAction::NewFile);
    assert_eq!(app.notepad_state.current_content, "hello");
}

#[test]
fn save_then_new_from_an_unbound_document() {
    let mut host = Host::new();
    host.save_choice = Some(PathBuf::from("n.txt"));
    let mut app = editor_with("hello");
    host.run(&mut app, Event::Input(Input::Menu(MenuItem::New)));
    host.run(&mut app, Event::Input(Input::Prompt(PromptChoice::Save)));
    assert_eq!(host.files.get(&PathBuf::from("n.txt")), Some(&"hello".to_string()));
    assert_eq!(app.notepad_state.current_content, "");
    assert_eq!(app.notepad_state.current_file_path, None);
    assert_eq!(app.notepad_state.file_content, None);
    assert!(idle(&app));
    assert!(!app.has_unsaved_changes());
}

#[test]
fn save_then_close_from_an_unbound_document_still_closes() {
    let mut host = Host::new();
    host.save_choice = Some(PathBuf::from("n.txt"));
    let mut app = editor_with("hello");
    host.run(&mut app, Event::CloseRequested);
    host.run(&mut app, Event::Input(Input::Prompt(PromptChoice::Save)));
    assert_eq!(host.files.get(&PathBuf::from("n.txt")), Some(&"hello".to_string()));
    assert!(host.closed);
    assert_eq!(app.notepad_state.current_content, "");
    assert!(idle(&app));
}

#[test]
fn save_then_open_loads_the_chosen_file() {
    let mut host = Host::new();
    host.files.insert(PathBuf::from("a.txt"), "foo".to_string());
    host.files.insert(PathBuf::from("b.txt"), "bar".to_string());
    host.open_choice = Some(PathBuf::from("a.txt"));
    let mut app = AppState::default();
    host.run(&mut app, Event::Input(Input::Menu(MenuItem::Open)));
    app.notepad_state.current_content = "foo!".to_string();

    host.open_choice = Some(PathBuf::from("b.txt"));
    host.run(&mut app, Event::Input(Input::Menu(MenuItem::Open)));
    assert_eq!(app.notepad_state.pending_action, PendingAction::OpenFile);
    host.run(&mut app, Event::Input(Input::Prompt(PromptChoice::Save)));
    assert_eq!(host.files.get(&PathBuf::from("a.txt")), Some(&"foo!".to_string()));
    assert_eq!(app.notepad_state.current_content, "bar");
    assert_eq!(app.notepad_state.current_file_path, Some(PathBuf::from("b.txt")));
    assert!(!app.has_unsaved_changes());
    assert!(idle(&app));
}

#[test]
fn after_a_prompted_save_the_editor_is_emptied_even_if_nothing_was_written() {
    let mut host = Host::new();
    host.save_choice = None;
    let mut app = editor_with("hello");
    host.run(&mut app, Event::CloseRequested);
    host.run(&mut app, Event::Input(Input::Prompt(PromptChoice::Save)));
    assert_eq!(host.writes, 0);
    assert_eq!(app.notepad_state.current_content, "");
    assert!(host.closed);

    let mut host = Host::new();
    host.writes_fail = true;
    host.files.insert(PathBuf::from("a.txt"), "foo".to_string());
    host.open_choice = Some(PathBuf::from("a.txt"));
    let mut app = AppState::default();
    host.run(&mut app, Event::Input(Input::Menu(MenuItem::Open)));
    app.notepad_state.current_content = "foobar".to_string();
    host.run(&mut app, Event::Input(Input::Menu(MenuItem::New)));
    host.run(&mut app, Event::Input(Input::Prompt(PromptChoice::Save)));
    assert_eq!(host.files.get(&PathBuf::from("a.txt")), Some(&"foo".to_string()));
    assert_eq!(app.notepad_state.current_content, "");
    assert_eq!(app.notepad_state.current_file_path, None);
    assert!(idle(&app));
}

#[test]
fn after_save_on_its_own_changes_nothing() {
    let mut app = editor_with("hello");
    app.notepad_state.pending_action = PendingAction::CloseApp;
    assert_eq!(after_save(&mut app, AfterSave::Nothing), Effect::Nothing);
    assert_eq!(app.notepad_state.current_content, "hello");
    assert_eq!(app.notepad_state.pending_action, PendingAction::CloseApp);
}

#[test]
fn after_save_for_the_prompt_empties_and_resumes() {
    let mut app = editor_with("hello");
    app.notepad_state.pending_action = PendingAction::CloseApp;
    assert_eq!(after_save(&mut app, AfterSave::ResumePending), Effect::Close);
    assert_eq!(app.notepad_state.current_content, "");
    assert_eq!(app.notepad_state.pending_action, PendingAction::Nothing);
}

#[test]
fn execute_pending_action_for_each_kind() {
    let mut app = editor_with("hello");
    app.notepad_state.pending_action = PendingAction::Nothing;
    assert_eq!(execute_pending_action(&mut app), Effect::Nothing);
    assert_eq!(app.notepad_state.current_content, "hello");

    app.notepad_state.pending_action = PendingAction::NewFile;
    assert_eq!(execute_pending_action(&mut app), Effect::Nothing);
    assert_eq!(app.notepad_state.current_content, "");
    assert_eq!(app.notepad_state.pending_action, PendingAction::Nothing);

    let mut app = editor_with("hello");
    app.settings_state.current.default_path = "/docs".to_string();
    app.notepad_state.pending_action = PendingAction::OpenFile;
    assert_eq!(
        execute_pending_action(&mut app),
        Effect::ChooseOpenPath { directory: Some("/docs".to_string()) }
    );
    assert_eq!(app.notepad_state.current_content, "hello");
    assert_eq!(app.notepad_state.pending_action, PendingAction::Nothing);

    app.notepad_state.pending_action = PendingAction::CloseApp;
    assert_eq!(execute_pending_action(&mut app), Effect::Close);
    assert_eq!(app.notepad_state.pending_action, PendingAction::Nothing);
}

#[test]
fn editor_gives_up_focus_while_the_prompt_is_shown() {
    let mut app = editor_with("hello");
    assert!(editor_has_focus(&app));
    app_menu_topbar(&mut app, MenuItem::New);
    assert!(!editor_has_focus(&app));
    show_unsaved_changes_modal(&mut app, PromptChoice::Cancel);
    assert!(editor_has_focus(&app));
}

#[test]
fn editor_screen_ignores_settings_buttons() {
    let mut app = editor_with("hello");
    let effect = notepad_screen(
        &mut app,
        Input::Settings(notepad_r::effects::SettingsButton::Cancel),
    );
    assert_eq!(effect, Effect::Nothing);
    assert_eq!(app.notepad_state.current_content, "hello");
    assert_eq!(app.screen, notepad_r::navigator::Screen::Notepad);
}

#[test]
fn failed_open_after_discard_leaves_the_document() {
    let mut host = Host::new();
    host.open_choice = Some(PathBuf::from("gone.txt"));
    let mut app = editor_with("hello");
    host.run(&mut app, Event::Input(Input::Menu(MenuItem::Open)));
    host.run(&mut app, Event::Input(Input::Prompt(PromptChoice::Discard)));
    assert_eq!(app.notepad_state.current_content, "hello");
    assert_eq!(app.notepad_state.current_file_path, None);
    assert!(idle(&app));
}

use lunitool::app::{App, InstallationStep, InstallationTaskStatus, Key, KeyInput};
use lunitool::config::Config;
use lunitool::widgets::{DialogType, Screen};

fn key(code: Key) -> KeyInput {
    KeyInput { code, alt: false }
}

fn alt(code: Key) -> KeyInput {
    KeyInput { code, alt: true }
}

fn fresh_app() -> App {
    App::new(Config::default())
}

/// Drives a fresh app to the main menu: pick German, apply keyboard.
fn app_at_main_menu() -> App {
    let mut app = fresh_app();
    let r = app.handle_key_event(key(Key::Enter));
    assert_eq!(r, None, "choosing a language needs no outside action");
    assert_eq!(app.ui_state.current_screen, Screen::KeyboardSelect);
    let r = app.handle_key_event(key(Key::Enter));
    assert_eq!(r, Some("de".to_string()), "keyboard apply requested");
    app.keyboard_applied(true, "");
    assert_eq!(app.ui_state.current_screen, Screen::MainMenu);
    app
}

/// Drives a fresh app into the installation wizard (welcome task).
fn app_in_wizard() -> App {
    let mut app = app_at_main_menu();
    assert_eq!(app.ui_state.selected_index, 0);
    app.handle_key_event(key(Key::Enter));
    assert_eq!(app.ui_state.current_screen, Screen::SystemInstallation);
    app
}

#[test]
fn language_select_down_enter_switches_to_english() {
    let mut app = fresh_app();
    assert_eq!(app.ui_state.current_screen, Screen::LanguageSelect);
    assert_eq!(app.ui_state.languages, vec!["de".to_string(), "en".to_string()]);

    app.handle_key_event(key(Key::Down));
    assert_eq!(app.ui_state.selected_index, 1);
    app.handle_key_event(key(Key::Enter));

    assert_eq!(app.config.current_lang, "en");
    assert_eq!(app.localization.current_lang, "en");
    assert_eq!(app.ui_state.keyboards, vec!["us".to_string(), "de".to_string()]);
    assert_eq!(app.ui_state.current_screen, Screen::KeyboardSelect);
    assert_eq!(app.ui_state.selected_index, 0);
    assert_eq!(app.ui_state.menu_items[0].title, "System Installation");
}

#[test]
fn backspace_on_welcome_exits_wizard() {
    let mut app = app_in_wizard();
    assert_eq!(app.ui_state.current_installation_task_index, 0);
    assert_eq!(
        app.ui_state.installation_tasks[0].step,
        InstallationStep::Welcome
    );

    app.handle_key_event(key(Key::Backspace));

    assert_eq!(app.ui_state.current_screen, Screen::MainMenu);
    assert_eq!(app.ui_state.installation_step, None);
    assert!(app.ui_state.installation_tasks.is_empty());
}

#[test]
fn opening_a_dialog_over_a_dialog_is_a_no_op() {
    let mut app = app_at_main_menu();
    app.handle_key_event(key(Key::Esc));
    let open_dialog = app.ui_state.active_dialog.clone();
    assert!(matches!(open_dialog, Some(DialogType::YesNo { .. })));
    let option_before = app.ui_state.dialog_selected_option;
    let theme_before = app.ui_state.active_theme_index;

    // A second opening attempt: the theme-selector shortcut.
    app.handle_key_event(alt(Key::Char('t')));

    assert_eq!(app.ui_state.active_dialog, open_dialog);
    assert_eq!(app.ui_state.dialog_selected_option, option_before);
    assert_eq!(app.ui_state.active_theme_index, theme_before);
    assert!(!app.should_quit);
}

#[test]
fn confirm_exit_no_never_quits_yes_always_quits() {
    let mut app = app_at_main_menu();
    app.handle_key_event(key(Key::Esc));
    // Default selection is "No" (index 1); confirming must not quit.
    assert_eq!(app.ui_state.dialog_selected_option, 1);
    app.handle_key_event(key(Key::Enter));
    assert!(!app.should_quit);
    assert_eq!(app.ui_state.active_dialog, None);

    app.handle_key_event(key(Key::Esc));
    app.handle_key_event(key(Key::Left));
    assert_eq!(app.ui_state.dialog_selected_option, 0);
    app.handle_key_event(key(Key::Enter));
    assert!(app.should_quit);
}

#[test]
fn exit_dialog_y_and_n_keys_force_the_selection() {
    let mut app = app_at_main_menu();
    app.handle_key_event(key(Key::Esc));
    app.handle_key_event(key(Key::Char('y')));
    assert_eq!(app.ui_state.dialog_selected_option, 0);
    app.handle_key_event(key(Key::Char('n')));
    assert_eq!(app.ui_state.dialog_selected_option, 1);
    app.handle_key_event(key(Key::Esc));
    assert_eq!(app.ui_state.active_dialog, None);
    assert!(!app.should_quit);
}

#[test]
fn menu_cursor_wraps_at_both_ends() {
    let mut app = app_at_main_menu();
    assert_eq!(app.ui_state.menu_items.len(), 3);
    assert_eq!(app.ui_state.selected_index, 0);
    app.handle_key_event(key(Key::Up));
    assert_eq!(app.ui_state.selected_index, 2, "previous from 0 with 3 items wraps to 2");
    app.handle_key_event(key(Key::Down));
    assert_eq!(app.ui_state.selected_index, 0, "next from the last item wraps to 0");
    app.handle_key_event(key(Key::Right));
    assert_eq!(app.ui_state.selected_index, 1);
    app.handle_key_event(key(Key::Left));
    assert_eq!(app.ui_state.selected_index, 0);
}

#[test]
fn wizard_keeps_exactly_one_active_task_in_step() {
    let mut app = app_in_wizard();
    for round in 0..3 {
        let tasks = &app.ui_state.installation_tasks;
        let active: Vec<usize> = tasks
            .iter()
            .enumerate()
            .filter(|(_, t)| t.status == InstallationTaskStatus::Active)
            .map(|(i, _)| i)
            .collect();
        assert_eq!(active, vec![app.ui_state.current_installation_task_index]);
        assert_eq!(
            app.ui_state.installation_step,
            Some(tasks[app.ui_state.current_installation_task_index].step),
            "round {round}"
        );
        app.handle_key_event(key(Key::Enter));
    }
    // Back over the whole list: the invariant holds after each step too.
    app.handle_key_event(key(Key::Backspace));
    let tasks = &app.ui_state.installation_tasks;
    let active: Vec<usize> = tasks
        .iter()
        .enumerate()
        .filter(|(_, t)| t.status == InstallationTaskStatus::Active)
        .map(|(i, _)| i)
        .collect();
    assert_eq!(active, vec![app.ui_state.current_installation_task_index]);
}

#[test]
fn completing_the_last_task_stays_put() {
    let mut app = app_in_wizard();
    for _ in 0..3 {
        app.handle_key_event(key(Key::Enter));
    }
    assert_eq!(app.ui_state.current_installation_task_index, 3);
    assert_eq!(app.ui_state.installation_step, Some(InstallationStep::Summary));
    app.handle_key_event(key(Key::Enter));
    assert_eq!(app.ui_state.current_installation_task_index, 3);
    assert_eq!(app.ui_state.current_screen, Screen::SystemInstallation);
    assert_eq!(
        app.ui_state.installation_tasks[3].status,
        InstallationTaskStatus::Completed
    );
}

#[test]
fn entering_disk_setup_builds_display_list_and_selects_top() {
    let mut app = app_in_wizard();
    app.handle_key_event(key(Key::Enter));
    assert_eq!(app.ui_state.installation_step, Some(InstallationStep::DiskSetup));
    assert!(!app.ui_state.current_disk_display_items.is_empty());
    assert_eq!(app.ui_state.disk_setup_list_selected, Some(0));
    assert_eq!(
        app.ui_state.disk_setup_selected_item_path.as_deref(),
        Some("/dev/sda")
    );
}

#[test]
fn disk_cursor_skips_non_selectable_rows_with_wraparound() {
    let mut app = app_in_wizard();
    app.handle_key_event(key(Key::Enter));
    let rows = app.ui_state.current_disk_display_items.clone();
    assert!(!rows[0].selectable, "the disk header row is structural");
    assert!(rows[1].selectable);

    app.handle_key_event(key(Key::Down));
    assert_eq!(app.ui_state.disk_setup_list_selected, Some(1));
    assert_eq!(
        app.ui_state.disk_setup_selected_item_path.as_deref(),
        Some(rows[1].id_path.as_str())
    );

    // Up from row 1 skips the non-selectable header and wraps to the last
    // selectable row walking backwards.
    app.handle_key_event(key(Key::Up));
    let expected = (0..rows.len())
        .rev()
        .find(|&i| rows[i].selectable)
        .unwrap();
    assert_eq!(app.ui_state.disk_setup_list_selected, Some(expected));
}

#[test]
fn user_setup_collects_text_and_backspace_leaves_the_step() {
    let mut app = app_in_wizard();
    app.handle_key_event(key(Key::Enter)); // disk setup
    app.handle_key_event(key(Key::Enter)); // user setup
    assert_eq!(app.ui_state.installation_step, Some(InstallationStep::UserSetup));
    app.handle_key_event(key(Key::Char('h')));
    app.handle_key_event(key(Key::Char('i')));
    assert_eq!(app.ui_state.input_buffer, "hi");
    // Backspace is the global back key: it leaves the step and clears the
    // buffer rather than erasing one character.
    app.handle_key_event(key(Key::Backspace));
    assert_eq!(app.ui_state.installation_step, Some(InstallationStep::DiskSetup));
    assert_eq!(app.ui_state.input_buffer, "");
}

#[test]
fn theme_selector_commits_on_enter_and_cancels_on_esc() {
    let mut app = app_at_main_menu();
    let initial = app.ui_state.active_theme_index;
    app.handle_key_event(alt(Key::Char('t')));
    assert_eq!(app.ui_state.active_dialog, Some(DialogType::ThemeSelector));
    assert_eq!(app.ui_state.dialog_selected_option, initial);

    app.handle_key_event(key(Key::Down));
    app.handle_key_event(key(Key::Enter));
    let expected = (initial + 1) % app.ui_state.themes.len();
    assert_eq!(app.ui_state.active_theme_index, expected);
    assert_eq!(app.ui_state.active_dialog, None);

    app.handle_key_event(alt(Key::Char('t')));
    app.handle_key_event(key(Key::Up));
    app.handle_key_event(key(Key::Esc));
    assert_eq!(app.ui_state.active_theme_index, expected, "cancel commits nothing");
}

#[test]
fn log_panel_toggles_only_on_installation_screen() {
    let mut app = app_at_main_menu();
    app.handle_key_event(alt(Key::Char('l')));
    assert!(!app.ui_state.show_log_panel);

    let mut app = app_in_wizard();
    app.handle_key_event(alt(Key::Char('l')));
    assert!(app.ui_state.show_log_panel);
    app.handle_key_event(alt(Key::Char('L')));
    assert!(!app.ui_state.show_log_panel);
}

#[test]
fn backspace_walks_the_screen_chain_backwards() {
    let mut app = app_at_main_menu();
    app.handle_key_event(key(Key::Backspace));
    assert_eq!(app.ui_state.current_screen, Screen::KeyboardSelect);
    app.handle_key_event(key(Key::Backspace));
    assert_eq!(app.ui_state.current_screen, Screen::LanguageSelect);
    // At the start of the chain the back key asks for exit confirmation.
    app.handle_key_event(key(Key::Backspace));
    assert!(matches!(
        app.ui_state.active_dialog,
        Some(DialogType::YesNo { .. })
    ));
}

#[test]
fn not_implemented_menu_entries_show_message_and_return() {
    let mut app = app_at_main_menu();
    app.handle_key_event(key(Key::Down));
    assert_eq!(app.ui_state.selected_index, 1); // backup
    app.handle_key_event(key(Key::Enter));
    assert_eq!(app.ui_state.current_screen, Screen::Message);
    let (title, content) = app.ui_state.message.clone().unwrap();
    assert_eq!(title, "Sicherung & Wiederherstellung");
    assert_eq!(
        content,
        "Diese Funktion ist noch nicht implementiert und wird in einer zukünftigen Version verfügbar sein."
    );
    app.handle_key_event(key(Key::Enter));
    assert_eq!(app.ui_state.current_screen, Screen::MainMenu);
    assert_eq!(app.ui_state.message, None);
}

#[test]
fn keyboard_apply_failure_shows_error_and_stays() {
    let mut app = fresh_app();
    app.handle_key_event(key(Key::Enter));
    let r = app.handle_key_event(key(Key::Enter));
    assert_eq!(r, Some("de".to_string()));
    app.keyboard_applied(false, "no such layout");
    assert_eq!(app.ui_state.current_screen, Screen::Message);
    let (title, content) = app.ui_state.message.clone().unwrap();
    assert_eq!(title, "Error: Keyboard Error");
    assert_eq!(content, "Failed to set keyboard layout: no such layout");
    app.handle_key_event(key(Key::Esc));
    assert_eq!(app.ui_state.current_screen, Screen::KeyboardSelect);
}

#[test]
fn example_dialog_on_installation_screen_confirms_as_a_plain_close() {
    let mut app = app_in_wizard();
    app.handle_key_event(key(Key::Char('d')));
    assert!(matches!(
        app.ui_state.active_dialog,
        Some(DialogType::YesNo { .. })
    ));
    assert_eq!(app.ui_state.dialog_selected_option, 0);
    app.handle_key_event(key(Key::Enter));
    assert_eq!(app.ui_state.active_dialog, None);
    assert!(!app.should_quit, "only the exit-confirmation title quits");
}

use lunitool::app::InstallationStep;
use lunitool::config::Config;
use lunitool::error::LunitoolError;
use lunitool::lang::{get_text, load_language, set_language, Localization};
use lunitool::theme::ThemeName;
use lunitool::tui::{header_subtitle_key, progress_percent, UiState};
use lunitool::widgets::{MenuItem, MenuType, Screen};
use lunitool::{get_config_dir, get_core_dir, get_resources_dir, get_scripts_dir, get_tools_dir};

#[test]
fn get_text_resolves_active_language_with_english_fallback() {
    let mut loc = Localization::new();
    assert_eq!(loc.current_lang, "de");
    assert_eq!(get_text(&loc, "LANG_MAIN_MENU"), "Hauptmenü");
    set_language(&mut loc, "en").unwrap();
    assert_eq!(get_text(&loc, "LANG_MAIN_MENU"), "Main Menu");
    assert_eq!(get_text(&loc, "LANG_EXIT_CONFIRM"), "Do you really want to exit lunitool?");
    // A key missing from every table resolves to itself.
    assert_eq!(get_text(&loc, "TASK_WELCOME"), "TASK_WELCOME");
}

#[test]
fn set_language_rejects_unsupported_codes() {
    let mut loc = Localization::new();
    let err = set_language(&mut loc, "fr").unwrap_err();
    match &err {
        LunitoolError::Language(detail) => {
            assert_eq!(detail, "Unsupported language: fr");
        }
        other => panic!("unexpected error variant: {other:?}"),
    }
    assert_eq!(err.message(), "Language error: Unsupported language: fr");
    assert_eq!(loc.current_lang, "de", "a failed switch leaves the gateway unchanged");
    assert!(load_language(&mut loc, "en").is_ok());
    assert_eq!(loc.current_lang, "en");
}

#[test]
fn error_messages_carry_their_prefixes() {
    assert_eq!(LunitoolError::Io("x".to_string()).message(), "I/O error: x");
    assert_eq!(LunitoolError::Command("c".to_string()).message(), "Command error: c");
    assert_eq!(LunitoolError::Config("k".to_string()).message(), "Configuration error: k");
    assert_eq!(LunitoolError::Ui("u".to_string()).message(), "UI error: u");
    assert_eq!(LunitoolError::Generic("g".to_string()).message(), "g");
}

#[test]
fn theme_catalog_order_and_default() {
    let all = ThemeName::all();
    assert_eq!(all.len(), 8);
    assert_eq!(all[0], ThemeName::AbletonDisco);
    assert_eq!(all[5], ThemeName::TerminalSpirit);
    assert_eq!(all[5].display_name(), "Terminal Spirit");
    assert_eq!(all[7].display_name(), "White Sur");
    let ui = UiState::new(vec![MenuItem {
        id: "install".to_string(),
        title: "t".to_string(),
        description: "d".to_string(),
        menu_type: MenuType::Card,
    }]);
    assert_eq!(ui.active_theme_index, 5, "Terminal Spirit is the startup palette");
    assert_eq!(ui.current_screen, Screen::LanguageSelect);
}

#[test]
fn progress_percent_matches_the_gauge_rules() {
    assert_eq!(progress_percent(0, 0, None), 0);
    assert_eq!(progress_percent(4, 0, Some(InstallationStep::Welcome)), 0);
    assert_eq!(progress_percent(4, 1, Some(InstallationStep::DiskSetup)), 25);
    assert_eq!(progress_percent(4, 2, Some(InstallationStep::UserSetup)), 50);
    assert_eq!(progress_percent(4, 3, Some(InstallationStep::Summary)), 75);
    assert_eq!(progress_percent(3, 2, Some(InstallationStep::Summary)), 67);
    assert_eq!(progress_percent(3, 1, Some(InstallationStep::DiskSetup)), 33);
}

#[test]
fn header_subtitle_keys_follow_the_screen() {
    assert_eq!(header_subtitle_key(Screen::LanguageSelect), "LANG_LANGUAGE_SELECT");
    assert_eq!(header_subtitle_key(Screen::KeyboardSelect), "LANG_KEYBOARD_SELECT");
    assert_eq!(header_subtitle_key(Screen::MainMenu), "LANG_MAIN_MENU");
    assert_eq!(header_subtitle_key(Screen::SystemInstallation), "INSTALL_HEADER_LINE2");
    assert_eq!(header_subtitle_key(Screen::Message), "LANG_SUBTITLE");
}

#[test]
fn scroll_offset_is_clamped_to_the_scrollable_range() {
    let mut ui = UiState::new(vec![MenuItem {
        id: "install".to_string(),
        title: "t".to_string(),
        description: "d".to_string(),
        menu_type: MenuType::Card,
    }]);
    ui.task_description_scroll_offset = 10;
    ui.update_task_description_scroll(12, 5);
    assert_eq!(ui.task_description_total_lines, 12);
    assert_eq!(ui.task_description_scroll_offset, 7);
    ui.update_task_description_scroll(4, 5);
    assert_eq!(ui.task_description_scroll_offset, 0, "reset when everything fits");
}

#[test]
fn tool_directories_hang_off_the_base() {
    assert_eq!(get_core_dir("/opt/tool"), "/opt/tool/core");
    assert_eq!(get_tools_dir("/opt/tool"), "/opt/tool/tools");
    assert_eq!(get_scripts_dir("/opt/tool"), "/opt/tool/scripts");
    assert_eq!(get_config_dir("/opt/tool"), "/opt/tool/configs");
    assert_eq!(get_resources_dir("/opt/tool"), "/opt/tool/resources");
}

#[test]
fn default_config_values() {
    let c = Config::default();
    assert_eq!(c.current_lang, "de");
    assert_eq!(c.keyboard, "de");
    assert!(c.debug_mode);
    assert_eq!(c.log_file, "lunitool.log");
    assert_eq!(c.ui.theme, "default");
    assert!(c.ui.auto_size);
}

#[test]
fn placeholder_tool_entry_points_report_success() {
    assert!(lunitool::tools::start_backup().is_ok());
    assert!(lunitool::tools::start_installation().is_ok());
    assert!(lunitool::tools::start_key_config().is_ok());
}

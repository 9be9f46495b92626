//! Application core: the installation wizard's task list, the key-input
//! model, and the state machine that dispatches key input to navigation,
//! dialog and wizard transitions. Every transition is a pure function of
//! the previous state and the key; the one operation that needs the
//! operating system (applying a keyboard layout) is returned to the
//! caller as a pending action and its outcome handed back afterwards.
use vstd::prelude::*;
use vstd::string::StringExecFns;

use crate::config::{Config, ConfigModel};
use crate::disk_info::{create_dummy_system_disk_info, spec_dummy_system_disk_info};
use crate::display::{build_disk_display_list, spec_display_list};
use crate::lang::{
    get_text, is_supported_language, load_language, spec_get_text, Localization,
};
use crate::strutil::{str_eq, string_pop_char, string_push_char};
use crate::tui::{
    spec_clear_message, spec_initial_ui, spec_next_index, spec_prev_index,
    spec_set_current_screen, spec_show_message, UiModel, UiState,
};
use crate::widgets::{DialogModel, DialogType, DisplayListItem, DisplayListItemModel, MenuItem, MenuItemModel, MenuType, Screen};

verus! {

/// The stages of the installation wizard. Only `Welcome`, `DiskSetup`,
/// `UserSetup` and `Summary` are wired into the task list; the rest are
/// reserved for future extension.
#[derive(Debug, Clone, Copy, PartialEq, Eq, Structural)]
pub enum InstallationStep {
    Welcome,
    DiskSetup,
    UserSetup,
    NetworkConfig,
    DesktopChoice,
    KernelChoice,
    SecureBootChoice,
    UpdateSettings,
    AdditionalPackages,
    Summary,
    Installing,
    Completed,
    Error,
}

/// Lifecycle status of one wizard task.
#[derive(Debug, Clone, Copy, PartialEq, Eq, Structural)]
pub enum InstallationTaskStatus {
    Pending,
    Active,
    Completed,
    Failed,
}

/// One entry of the wizard's task list.
#[derive(Debug, Clone)]
pub struct InstallationTaskItem {
    pub id: String,
    pub title: String,
    pub step: InstallationStep,
    pub status: InstallationTaskStatus,
}

/// Model of one task-list entry.
#[verifier::ext_equal]
pub struct InstallationTaskItemModel {
    pub id: Seq<char>,
    pub title: Seq<char>,
    pub step: InstallationStep,
    pub status: InstallationTaskStatus,
}

impl View for InstallationTaskItem {
    type V = InstallationTaskItemModel;

    open spec fn view(&self) -> InstallationTaskItemModel {
        InstallationTaskItemModel {
            id: self.id@,
            title: self.title@,
            step: self.step,
            status: self.status,
        }
    }
}

impl DeepView for InstallationTaskItem {
    type V = InstallationTaskItemModel;

    open spec fn deep_view(&self) -> InstallationTaskItemModel {
        self.view()
    }
}

/// The values collected over the wizard's steps.
#[derive(Debug, Clone)]
pub struct InstallationConfig {
    pub target_disk: Option<String>,
    pub hostname: Option<String>,
    pub username: Option<String>,
    pub user_password: Option<String>,
    pub luks_password: Option<String>,
}

/// Model of the collected wizard values.
#[verifier::ext_equal]
pub struct InstallationConfigModel {
    pub target_disk: Option<Seq<char>>,
    pub hostname: Option<Seq<char>>,
    pub username: Option<Seq<char>>,
    pub user_password: Option<Seq<char>>,
    pub luks_password: Option<Seq<char>>,
}

impl View for InstallationConfig {
    type V = InstallationConfigModel;

    open spec fn view(&self) -> InstallationConfigModel {
        InstallationConfigModel {
            target_disk: self.target_disk.deep_view(),
            hostname: self.hostname.deep_view(),
            username: self.username.deep_view(),
            user_password: self.user_password.deep_view(),
            luks_password: self.luks_password.deep_view(),
        }
    }
}

/// The empty wizard configuration.
pub open spec fn spec_empty_installation_config() -> InstallationConfigModel {
    InstallationConfigModel {
        target_disk: None,
        hostname: None,
        username: None,
        user_password: None,
        luks_password: None,
    }
}

impl Default for InstallationConfig {
    /// Starts with no value collected.
    fn default() -> (c: Self)
        ensures
            c@ == spec_empty_installation_config(),
    {
        InstallationConfig {
            target_disk: None,
            hostname: None,
            username: None,
            user_password: None,
            luks_password: None,
        }
    }
}

/// A key, as the dispatcher sees it; the variants the state machine
/// reacts to, with every other key mapped to `Other` by the caller.
#[derive(Debug, Clone, Copy, PartialEq, Eq, Structural)]
pub enum Key {
    Enter,
    Esc,
    Backspace,
    Up,
    Down,
    Left,
    Right,
    Char(char),
    Other,
}

/// One key press: the key and whether Alt (alone) was held.
#[derive(Debug, Clone, Copy, PartialEq, Eq, Structural)]
pub struct KeyInput {
    pub code: Key,
    pub alt: bool,
}

/// Model of the whole application: configuration, the localization
/// gateway's active language, the UI state, and the quit flag.
#[verifier::ext_equal]
pub struct AppModel {
    pub config: ConfigModel,
    pub lang: Seq<char>,
    pub ui: UiModel,
    pub should_quit: bool,
}

/// Whether the screen can be entered with the state's cursors as they
/// stand (used for screens a message returns to).
pub open spec fn spec_cursor_ok_for(ui: UiModel, s: Screen) -> bool {
    match s {
        Screen::MainMenu => ui.selected_index < ui.menu_items.len(),
        Screen::LanguageSelect => ui.selected_index < ui.languages.len(),
        Screen::KeyboardSelect => ui.selected_index < ui.keyboards.len(),
        Screen::SystemInstallation => ui.installation_tasks.len() > 0
            && ui.current_installation_task_index < ui.installation_tasks.len(),
        Screen::Message => true,
        Screen::ConfirmExit => true,
    }
}

/// Whether the disk-setup cursor is consistent with the display list.
pub open spec fn spec_disk_selection_ok(ui: UiModel) -> bool {
    match ui.disk_setup_list_selected {
        Some(i) => 0 <= i && (ui.current_disk_display_items.len() == 0 ==> i == 0) && (
        ui.current_disk_display_items.len() > 0 ==> i < ui.current_disk_display_items.len()),
        None => true,
    }
}

/// Well-formedness of the UI state: candidate lists are non-empty, every
/// cursor is inside the list it indexes, a dialog's selection is inside
/// its option range, and the wizard's task index is inside the task list
/// while the wizard screen is showing.
pub open spec fn spec_ui_wf(ui: UiModel) -> bool {
    &&& ui.menu_items.len() > 0
    &&& ui.languages.len() > 0
    &&& ui.keyboards.len() > 0
    &&& ui.themes.len() > 0
    &&& 0 <= ui.active_theme_index < ui.themes.len()
    &&& 0 <= ui.selected_index
    &&& 0 <= ui.dialog_selected_option
    &&& 0 <= ui.current_installation_task_index
    &&& spec_cursor_ok_for(ui, ui.current_screen)
    &&& (ui.current_screen == Screen::Message ==> spec_cursor_ok_for(ui, ui.previous_screen))
    &&& (ui.current_screen == Screen::LanguageSelect && ui.previous_screen
        == Screen::SystemInstallation ==> ui.installation_tasks.len() > 0
        && ui.current_installation_task_index < ui.installation_tasks.len())
    &&& (ui.active_dialog matches Some(d) ==> match d {
        DialogModel::YesNo { .. } => ui.dialog_selected_option < 2,
        DialogModel::ThemeSelector => ui.dialog_selected_option < ui.themes.len(),
    })
    &&& spec_disk_selection_ok(ui)
}

/// Well-formedness of the whole application state.
pub open spec fn spec_app_wf(m: AppModel) -> bool {
    spec_ui_wf(m.ui)
}

/// The main menu, localized under the given language.
pub open spec fn spec_localized_menu_items(lang: Seq<char>) -> Seq<MenuItemModel> {
    seq![
        MenuItemModel {
            id: "install"@,
            title: spec_get_text(lang, "LANG_INSTALL"@),
            description: spec_get_text(lang, "LANG_INSTALL_DESC"@),
            menu_type: MenuType::Card,
        },
        MenuItemModel {
            id: "backup"@,
            title: spec_get_text(lang, "LANG_BACKUP"@),
            description: spec_get_text(lang, "LANG_BACKUP_DESC"@),
            menu_type: MenuType::Card,
        },
        MenuItemModel {
            id: "keys"@,
            title: spec_get_text(lang, "LANG_KEYS"@),
            description: spec_get_text(lang, "LANG_KEYS_DESC"@),
            menu_type: MenuType::Card,
        },
    ]
}

/// The state the application starts in: the configured language applied
/// where supported (the gateway keeps its default otherwise), the menu
/// localized, the sample disk snapshot loaded, and the keyboard
/// candidates ordered by the configured language.
pub open spec fn spec_new_app(config: ConfigModel) -> AppModel {
    let lang = if is_supported_language(config.current_lang) {
        config.current_lang
    } else {
        "de"@
    };
    let ui0 = spec_initial_ui(spec_localized_menu_items(lang));
    let ui = UiModel {
        system_disk_info: Some(spec_dummy_system_disk_info()),
        disk_setup_list_selected: if spec_dummy_system_disk_info().disks.len() > 0 {
            Some(0)
        } else {
            ui0.disk_setup_list_selected
        },
        keyboards: if config.current_lang == "en"@ {
            seq!["us"@, "de"@]
        } else {
            seq!["de"@, "us"@]
        },
        ..ui0
    };
    AppModel { config, lang, ui, should_quit: false }
}

/// Opening the exit-confirmation dialog: a no-op while any dialog is
/// already open, else a Yes/No dialog preselecting "No".
pub open spec fn spec_confirm_exit(m: AppModel) -> AppModel {
    if m.ui.active_dialog is Some {
        m
    } else {
        AppModel {
            ui: UiModel {
                active_dialog: Some(
                    DialogModel::YesNo {
                        title_key: "LANG_CONFIRM_TITLE"@,
                        message_key: "LANG_EXIT_CONFIRM"@,
                    },
                ),
                dialog_selected_option: 1,
                ..m.ui
            },
            ..m
        }
    }
}

/// Confirming a Yes/No dialog. Only the reserved exit-confirmation title
/// acts: "Yes" sets the quit flag (the process ends, the dialog stays),
/// "No" closes the dialog. Every other Yes/No dialog closes with no
/// effect; a theme-selector confirm is handled by its own transition.
pub open spec fn spec_dialog_confirm(m: AppModel) -> AppModel {
    match m.ui.active_dialog {
        Some(DialogModel::YesNo { title_key, .. }) => {
            if title_key == "LANG_CONFIRM_TITLE"@ {
                if m.ui.dialog_selected_option == 0 {
                    AppModel { should_quit: true, ..m }
                } else {
                    AppModel { ui: UiModel { active_dialog: None, ..m.ui }, ..m }
                }
            } else {
                AppModel { ui: UiModel { active_dialog: None, ..m.ui }, ..m }
            }
        },
        _ => m,
    }
}

/// Cancelling a dialog closes it with no other effect.
pub open spec fn spec_dialog_cancel(m: AppModel) -> AppModel {
    AppModel { ui: UiModel { active_dialog: None, ..m.ui }, ..m }
}

/// Confirming the theme selector: an in-range selection becomes the
/// active palette; the dialog closes either way.
pub open spec fn spec_theme_dialog_confirm(m: AppModel) -> AppModel {
    let ui1 = if m.ui.active_dialog == Some(DialogModel::ThemeSelector)
        && m.ui.dialog_selected_option < m.ui.themes.len() {
        UiModel { active_theme_index: m.ui.dialog_selected_option, ..m.ui }
    } else {
        m.ui
    };
    AppModel { ui: UiModel { active_dialog: None, ..ui1 }, ..m }
}

/// The fresh wizard task list: welcome, disk setup, user setup, summary,
/// with the first active and the rest pending.
pub open spec fn spec_initial_tasks(lang: Seq<char>) -> Seq<InstallationTaskItemModel> {
    seq![
        InstallationTaskItemModel {
            id: "welcome"@,
            title: spec_get_text(lang, "TASK_WELCOME"@),
            step: InstallationStep::Welcome,
            status: InstallationTaskStatus::Active,
        },
        InstallationTaskItemModel {
            id: "disk_setup"@,
            title: spec_get_text(lang, "TASK_DISK_SETUP"@),
            step: InstallationStep::DiskSetup,
            status: InstallationTaskStatus::Pending,
        },
        InstallationTaskItemModel {
            id: "user_setup"@,
            title: spec_get_text(lang, "TASK_USER_SETUP"@),
            step: InstallationStep::UserSetup,
            status: InstallationTaskStatus::Pending,
        },
        InstallationTaskItemModel {
            id: "summary"@,
            title: spec_get_text(lang, "TASK_SUMMARY"@),
            step: InstallationStep::Summary,
            status: InstallationTaskStatus::Pending,
        },
    ]
}

/// Every active task demoted to pending.
pub open spec fn spec_clear_active(tasks: Seq<InstallationTaskItemModel>) -> Seq<
    InstallationTaskItemModel,
> {
    Seq::new(
        tasks.len(),
        |k: int|
            if tasks[k].status == InstallationTaskStatus::Active {
                InstallationTaskItemModel { status: InstallationTaskStatus::Pending, ..tasks[k] }
            } else {
                tasks[k]
            },
    )
}

/// The first task at or after `i` whose step is the given one.
pub open spec fn spec_find_task_with_step(
    tasks: Seq<InstallationTaskItemModel>,
    step: Option<InstallationStep>,
    i: int,
) -> Option<int>
    decreases tasks.len() - i,
{
    if i < 0 || i >= tasks.len() {
        None
    } else if Some(tasks[i].step) == step {
        Some(i)
    } else {
        spec_find_task_with_step(tasks, step, i + 1)
    }
}

/// The self-healing pass that keeps exactly the task of the current step
/// active: all active marks are cleared; the task under the index is
/// re-activated when its step matches, else the first task with the
/// current step is activated and the index corrected; when none matches
/// (or the index is out of range) no task is highlighted.
pub open spec fn spec_update_active_task(ui: UiModel) -> UiModel {
    let cleared = spec_clear_active(ui.installation_tasks);
    let idx = ui.current_installation_task_index;
    if 0 <= idx < cleared.len() {
        if Some(cleared[idx].step) == ui.installation_step {
            UiModel {
                installation_tasks: cleared.update(
                    idx,
                    InstallationTaskItemModel {
                        status: InstallationTaskStatus::Active,
                        ..cleared[idx]
                    },
                ),
                installation_task_list_selected: Some(idx),
                ..ui
            }
        } else {
            match spec_find_task_with_step(cleared, ui.installation_step, 0) {
                Some(k) => UiModel {
                    installation_tasks: cleared.update(
                        k,
                        InstallationTaskItemModel {
                            status: InstallationTaskStatus::Active,
                            ..cleared[k]
                        },
                    ),
                    current_installation_task_index: k,
                    installation_task_list_selected: Some(k),
                    ..ui
                },
                None => UiModel { installation_tasks: cleared, ..ui },
            }
        }
    } else {
        UiModel { installation_tasks: cleared, ..ui }
    }
}

/// Entering the disk-setup step: the cursor returns to the top, the
/// display list is rebuilt from the snapshot, and the first row's
/// identifier becomes the remembered selection.
pub open spec fn spec_enter_disk_setup(ui: UiModel) -> UiModel {
    let ui1 = UiModel { disk_setup_list_selected: Some(0), disk_setup_selected_item_path: None, ..ui };
    match ui.system_disk_info {
        Some(info) => {
            let items = spec_display_list(info);
            UiModel {
                current_disk_display_items: items,
                disk_setup_selected_item_path: if items.len() > 0 {
                    Some(items[0].id_path)
                } else {
                    None
                },
                ..ui1
            }
        },
        None => ui1,
    }
}

/// Advancing the wizard: before the last task, the current task is
/// completed, the next becomes current and active, and entering disk
/// setup runs its entry effects; on the last task it is only marked
/// completed and the wizard stays where it is.
pub open spec fn spec_next_step(ui: UiModel) -> UiModel
    recommends
        0 < ui.installation_tasks.len(),
        0 <= ui.current_installation_task_index < ui.installation_tasks.len(),
{
    let idx = ui.current_installation_task_index;
    let tasks = ui.installation_tasks;
    if idx < tasks.len() - 1 {
        let t1 = tasks.update(
            idx,
            InstallationTaskItemModel { status: InstallationTaskStatus::Completed, ..tasks[idx] },
        );
        let new_idx = idx + 1;
        let ui1 = spec_update_active_task(
            UiModel {
                installation_tasks: t1,
                current_installation_task_index: new_idx,
                installation_step: Some(t1[new_idx].step),
                ..ui
            },
        );
        if t1[new_idx].step == InstallationStep::DiskSetup {
            spec_enter_disk_setup(ui1)
        } else {
            ui1
        }
    } else {
        UiModel {
            installation_tasks: tasks.update(
                idx,
                InstallationTaskItemModel {
                    status: InstallationTaskStatus::Completed,
                    ..tasks[idx]
                },
            ),
            ..ui
        }
    }
}

/// Stepping the wizard back: above the first task the current task
/// returns to pending, the previous becomes current and active, and the
/// text buffer clears; on the first task the wizard exits to the main
/// menu with the task list cleared.
pub open spec fn spec_previous_step(ui: UiModel) -> UiModel
    recommends
        ui.installation_tasks.len() == 0 || 0 <= ui.current_installation_task_index
            < ui.installation_tasks.len(),
{
    if ui.installation_tasks.len() == 0 {
        let ui1 = spec_set_current_screen(ui, Screen::MainMenu);
        UiModel { installation_step: None, installation_task_list_selected: Some(0), ..ui1 }
    } else if ui.current_installation_task_index > 0 {
        let idx = ui.current_installation_task_index;
        let t1 = ui.installation_tasks.update(
            idx,
            InstallationTaskItemModel {
                status: InstallationTaskStatus::Pending,
                ..ui.installation_tasks[idx]
            },
        );
        let t2 = t1.update(
            idx - 1,
            InstallationTaskItemModel { status: InstallationTaskStatus::Active, ..t1[idx - 1] },
        );
        UiModel {
            installation_tasks: t2,
            current_installation_task_index: idx - 1,
            installation_step: Some(t2[idx - 1].step),
            installation_task_list_selected: Some(idx - 1),
            input_buffer: Seq::empty(),
            ..ui
        }
    } else {
        let ui1 = spec_set_current_screen(ui, Screen::MainMenu);
        UiModel {
            installation_step: None,
            installation_tasks: Seq::empty(),
            installation_task_list_selected: Some(0),
            ..ui1
        }
    }
}

/// Starting the installation wizard from the main menu.
pub open spec fn spec_start_wizard(m: AppModel) -> AppModel {
    let ui1 = UiModel {
        installation_step: Some(InstallationStep::Welcome),
        current_installation_task_index: 0,
        installation_tasks: spec_initial_tasks(m.lang),
        installation_task_list_selected: Some(0),
        ..m.ui
    };
    let ui2 = spec_update_active_task(ui1);
    let ui3 = spec_set_current_screen(ui2, Screen::SystemInstallation);
    AppModel { ui: ui3, ..m }
}

/// One wrapping cursor step over `n` rows, up or down.
pub open spec fn spec_wrap_step(i: int, n: int, up: bool) -> int
    recommends
        n > 0,
{
    if up {
        if i > 0 {
            i - 1
        } else {
            n - 1
        }
    } else {
        if i < n - 1 {
            i + 1
        } else {
            0
        }
    }
}

/// The first selectable row reached from `pos` walking in one direction
/// with wraparound, giving up after `steps` rows (one full revolution).
pub open spec fn spec_seek_selectable(
    items: Seq<DisplayListItemModel>,
    pos: int,
    up: bool,
    steps: nat,
) -> Option<int>
    recommends
        0 <= pos < items.len(),
    decreases steps,
{
    if steps == 0 {
        None
    } else if 0 <= pos < items.len() && items[pos].selectable {
        Some(pos)
    } else {
        spec_seek_selectable(
            items,
            spec_wrap_step(pos, items.len() as int, up),
            up,
            (steps - 1) as nat,
        )
    }
}

/// Per-step key handling inside the wizard: free-text editing on the
/// user-setup step; on the disk-setup step, cursor movement over the
/// display list that skips non-selectable rows with wraparound and stops
/// after one full revolution when nothing is selectable in that
/// direction.
pub open spec fn spec_installation_input(ui: UiModel, code: Key) -> UiModel {
    match ui.installation_step {
        Some(InstallationStep::UserSetup) => match code {
            Key::Char(c) => UiModel { input_buffer: ui.input_buffer.push(c), ..ui },
            Key::Backspace => UiModel {
                input_buffer: if ui.input_buffer.len() > 0 {
                    ui.input_buffer.drop_last()
                } else {
                    ui.input_buffer
                },
                ..ui
            },
            _ => ui,
        },
        Some(InstallationStep::DiskSetup) => {
            let items = if ui.current_disk_display_items.len() == 0 {
                match ui.system_disk_info {
                    Some(info) => spec_display_list(info),
                    None => ui.current_disk_display_items,
                }
            } else {
                ui.current_disk_display_items
            };
            let ui1 = UiModel { current_disk_display_items: items, ..ui };
            let n = items.len() as int;
            if n == 0 {
                ui1
            } else if code == Key::Up || code == Key::Down {
                let up = code == Key::Up;
                let cur = match ui.disk_setup_list_selected {
                    Some(i) => i,
                    None => 0,
                };
                let start = spec_wrap_step(cur, n, up);
                match spec_seek_selectable(items, start, up, n as nat) {
                    Some(j) => UiModel {
                        disk_setup_list_selected: Some(j),
                        disk_setup_selected_item_path: Some(items[j].id_path),
                        ..ui1
                    },
                    None => ui1,
                }
            } else {
                ui1
            }
        },
        _ => ui,
    }
}

/// A found task index lies inside the task list.
pub broadcast proof fn lemma_find_task_in_range(
    tasks: Seq<InstallationTaskItemModel>,
    step: Option<InstallationStep>,
    i: int,
)
    ensures
        (#[trigger] spec_find_task_with_step(tasks, step, i)) matches Some(k) ==> i <= k
            < tasks.len(),
    decreases tasks.len() - i,
{
    if i < 0 || i >= tasks.len() {
    } else if Some(tasks[i].step) == step {
    } else {
        lemma_find_task_in_range(tasks, step, i + 1);
    }
}

/// A found display-list row lies inside the list and is selectable.
pub broadcast proof fn lemma_seek_in_range(
    items: Seq<DisplayListItemModel>,
    pos: int,
    up: bool,
    steps: nat,
)
    ensures
        (#[trigger] spec_seek_selectable(items, pos, up, steps)) matches Some(j) ==> 0 <= j
            < items.len() && items[j].selectable,
    decreases steps,
{
    if steps == 0 {
    } else if 0 <= pos < items.len() && items[pos].selectable {
    } else {
        lemma_seek_in_range(items, spec_wrap_step(pos, items.len() as int, up), up, (steps - 1) as nat);
    }
}

/// Key handling while a dialog is open: the dialog owns the key.
pub open spec fn spec_dialog_key(m: AppModel, code: Key) -> AppModel {
    match m.ui.active_dialog {
        Some(DialogModel::YesNo { .. }) => match code {
            Key::Left => if m.ui.dialog_selected_option == 1 {
                AppModel { ui: UiModel { dialog_selected_option: 0, ..m.ui }, ..m }
            } else {
                m
            },
            Key::Right => if m.ui.dialog_selected_option == 0 {
                AppModel { ui: UiModel { dialog_selected_option: 1, ..m.ui }, ..m }
            } else {
                m
            },
            Key::Char(c) => if c == 'h' {
                if m.ui.dialog_selected_option == 1 {
                    AppModel { ui: UiModel { dialog_selected_option: 0, ..m.ui }, ..m }
                } else {
                    m
                }
            } else if c == 'l' {
                if m.ui.dialog_selected_option == 0 {
                    AppModel { ui: UiModel { dialog_selected_option: 1, ..m.ui }, ..m }
                } else {
                    m
                }
            } else if c == 'y' || c == 'j' {
                AppModel { ui: UiModel { dialog_selected_option: 0, ..m.ui }, ..m }
            } else if c == 'n' {
                AppModel { ui: UiModel { dialog_selected_option: 1, ..m.ui }, ..m }
            } else {
                m
            },
            Key::Enter => spec_dialog_confirm(m),
            Key::Esc | Key::Backspace => spec_dialog_cancel(m),
            _ => m,
        },
        Some(DialogModel::ThemeSelector) => match code {
            Key::Up => if m.ui.themes.len() > 0 {
                AppModel {
                    ui: UiModel {
                        dialog_selected_option: spec_prev_index(
                            m.ui.dialog_selected_option,
                            m.ui.themes.len() as int,
                        ),
                        ..m.ui
                    },
                    ..m
                }
            } else {
                m
            },
            Key::Down => if m.ui.themes.len() > 0 {
                AppModel {
                    ui: UiModel {
                        dialog_selected_option: spec_next_index(
                            m.ui.dialog_selected_option,
                            m.ui.themes.len() as int,
                        ),
                        ..m.ui
                    },
                    ..m
                }
            } else {
                m
            },
            Key::Char(c) => if c == 'k' {
                if m.ui.themes.len() > 0 {
                    AppModel {
                        ui: UiModel {
                            dialog_selected_option: spec_prev_index(
                                m.ui.dialog_selected_option,
                                m.ui.themes.len() as int,
                            ),
                            ..m.ui
                        },
                        ..m
                    }
                } else {
                    m
                }
            } else if c == 'j' {
                if m.ui.themes.len() > 0 {
                    AppModel {
                        ui: UiModel {
                            dialog_selected_option: spec_next_index(
                                m.ui.dialog_selected_option,
                                m.ui.themes.len() as int,
                            ),
                            ..m.ui
                        },
                        ..m
                    }
                } else {
                    m
                }
            } else {
                m
            },
            Key::Enter => spec_theme_dialog_confirm(m),
            Key::Esc | Key::Backspace => spec_dialog_cancel(m),
            _ => m,
        },
        None => m,
    }
}

/// Choosing a language: the configuration records the choice first; a
/// supported language re-localizes the menu, reorders the keyboard
/// candidates (the chosen language's native layout first), resets the
/// cursor and moves on to keyboard selection; an unsupported one shows an
/// error message and stays.
pub open spec fn spec_language_enter(m: AppModel) -> AppModel {
    if m.ui.selected_index < m.ui.languages.len() {
        let lang = m.ui.languages[m.ui.selected_index];
        let m1 = AppModel { config: ConfigModel { current_lang: lang, ..m.config }, ..m };
        if is_supported_language(lang) {
            AppModel {
                lang,
                ui: UiModel {
                    menu_items: spec_localized_menu_items(lang),
                    keyboards: if lang == "en"@ {
                        seq!["us"@, "de"@]
                    } else {
                        seq!["de"@, "us"@]
                    },
                    selected_index: 0,
                    current_screen: Screen::KeyboardSelect,
                    ..m1.ui
                },
                ..m1
            }
        } else {
            AppModel {
                ui: spec_show_message(
                    m1.ui,
                    "Error: "@ + "Language Error"@,
                    "Failed to load language: "@ + ("Unsupported language: "@ + lang),
                ),
                ..m1
            }
        }
    } else {
        m
    }
}

/// Choosing a keyboard layout: the configuration records the choice and
/// the layout goes out as the pending apply request; the screen moves on
/// only when the outcome comes back.
pub open spec fn spec_keyboard_enter(m: AppModel) -> (AppModel, Option<Seq<char>>) {
    if m.ui.selected_index < m.ui.keyboards.len() {
        let kb = m.ui.keyboards[m.ui.selected_index];
        (AppModel { config: ConfigModel { keyboard: kb, ..m.config }, ..m }, Some(kb))
    } else {
        (m, None)
    }
}

/// The outcome of applying a keyboard layout: success moves to the main
/// menu with the cursor reset; failure shows an error message and stays.
pub open spec fn spec_keyboard_applied(m: AppModel, ok: bool, err_detail: Seq<char>) -> AppModel {
    if ok {
        AppModel {
            ui: UiModel { selected_index: 0, current_screen: Screen::MainMenu, ..m.ui },
            ..m
        }
    } else {
        AppModel {
            ui: spec_show_message(
                m.ui,
                "Error: "@ + "Keyboard Error"@,
                "Failed to set keyboard layout: "@ + err_detail,
            ),
            ..m
        }
    }
}

/// Choosing a main-menu entry: installation starts the wizard; the other
/// entries show a not-implemented notice.
pub open spec fn spec_main_menu_enter(m: AppModel) -> AppModel {
    if m.ui.selected_index < m.ui.menu_items.len() {
        let id = m.ui.menu_items[m.ui.selected_index].id;
        if id == "install"@ {
            spec_start_wizard(m)
        } else if id == "backup"@ {
            AppModel {
                ui: spec_show_message(
                    m.ui,
                    spec_get_text(m.lang, "LANG_BACKUP"@),
                    spec_get_text(m.lang, "LANG_NOT_IMPLEMENTED"@),
                ),
                ..m
            }
        } else if id == "keys"@ {
            AppModel {
                ui: spec_show_message(
                    m.ui,
                    spec_get_text(m.lang, "LANG_KEYS"@),
                    spec_get_text(m.lang, "LANG_NOT_IMPLEMENTED"@),
                ),
                ..m
            }
        } else {
            m
        }
    } else {
        m
    }
}

/// Screen-specific key handling when no dialog is open and neither the
/// global escape nor the global back navigation took the key.
pub open spec fn spec_screen_key(m: AppModel, code: Key) -> (AppModel, Option<Seq<char>>) {
    match m.ui.current_screen {
        Screen::MainMenu => match code {
            Key::Enter => (spec_main_menu_enter(m), None),
            Key::Down | Key::Right => (
                AppModel {
                    ui: UiModel {
                        selected_index: spec_next_index(
                            m.ui.selected_index,
                            m.ui.menu_items.len() as int,
                        ),
                        ..m.ui
                    },
                    ..m
                },
                None,
            ),
            Key::Up | Key::Left => (
                AppModel {
                    ui: UiModel {
                        selected_index: spec_prev_index(
                            m.ui.selected_index,
                            m.ui.menu_items.len() as int,
                        ),
                        ..m.ui
                    },
                    ..m
                },
                None,
            ),
            _ => (m, None),
        },
        Screen::LanguageSelect => match code {
            Key::Enter => (spec_language_enter(m), None),
            Key::Down => (
                AppModel {
                    ui: UiModel {
                        selected_index: spec_next_index(
                            m.ui.selected_index,
                            m.ui.languages.len() as int,
                        ),
                        ..m.ui
                    },
                    ..m
                },
                None,
            ),
            Key::Up => (
                AppModel {
                    ui: UiModel {
                        selected_index: spec_prev_index(
                            m.ui.selected_index,
                            m.ui.languages.len() as int,
                        ),
                        ..m.ui
                    },
                    ..m
                },
                None,
            ),
            _ => (m, None),
        },
        Screen::KeyboardSelect => match code {
            Key::Enter => spec_keyboard_enter(m),
            Key::Down => (
                AppModel {
                    ui: UiModel {
                        selected_index: spec_next_index(
                            m.ui.selected_index,
                            m.ui.keyboards.len() as int,
                        ),
                        ..m.ui
                    },
                    ..m
                },
                None,
            ),
            Key::Up => (
                AppModel {
                    ui: UiModel {
                        selected_index: spec_prev_index(
                            m.ui.selected_index,
                            m.ui.keyboards.len() as int,
                        ),
                        ..m.ui
                    },
                    ..m
                },
                None,
            ),
            _ => (m, None),
        },
        Screen::Message => match code {
            Key::Enter | Key::Esc | Key::Backspace => (
                AppModel { ui: spec_clear_message(m.ui), ..m },
                None,
            ),
            _ => (m, None),
        },
        Screen::ConfirmExit => (m, None),
        Screen::SystemInstallation => match code {
            Key::Enter => (AppModel { ui: spec_next_step(m.ui), ..m }, None),
            Key::Char(c) => if c == 'd' || c == 'D' {
                (
                    AppModel {
                        ui: UiModel {
                            active_dialog: Some(
                                DialogModel::YesNo {
                                    title_key: "DIALOG_YESNO_EXAMPLE_TITLE"@,
                                    message_key: "DIALOG_YESNO_EXAMPLE_MESSAGE"@,
                                },
                            ),
                            dialog_selected_option: 0,
                            ..m.ui
                        },
                        ..m
                    },
                    None,
                )
            } else {
                (AppModel { ui: spec_installation_input(m.ui, code), ..m }, None)
            },
            _ => (AppModel { ui: spec_installation_input(m.ui, code), ..m }, None),
        },
    }
}

/// Application state: configuration, localization gateway, UI state and
/// the quit flag. The terminal itself lives with the caller; the state
/// machine only decides.
pub struct App {
    pub config: Config,
    pub localization: Localization,
    pub ui_state: UiState,
    pub should_quit: bool,
}

impl View for App {
    type V = AppModel;

    open spec fn view(&self) -> AppModel {
        AppModel {
            config: self.config@,
            lang: self.localization@,
            ui: self.ui_state@,
            should_quit: self.should_quit,
        }
    }
}

/// The main menu entries, localized through the gateway.
fn create_localized_menu_items(loc: &Localization) -> (r: Vec<MenuItem>)
    ensures
        r.deep_view() == spec_localized_menu_items(loc@),
{
    let items = vec![
        MenuItem {
            id: "install".to_owned(),
            title: get_text(loc, "LANG_INSTALL"),
            description: get_text(loc, "LANG_INSTALL_DESC"),
            menu_type: MenuType::Card,
        },
        MenuItem {
            id: "backup".to_owned(),
            title: get_text(loc, "LANG_BACKUP"),
            description: get_text(loc, "LANG_BACKUP_DESC"),
            menu_type: MenuType::Card,
        },
        MenuItem {
            id: "keys".to_owned(),
            title: get_text(loc, "LANG_KEYS"),
            description: get_text(loc, "LANG_KEYS_DESC"),
            menu_type: MenuType::Card,
        },
    ];
    proof {
        assert(items.deep_view() =~~= spec_localized_menu_items(loc@));
    }
    items
}

/// The first task whose step is the given one, if any.
fn find_task_with_step(tasks: &Vec<InstallationTaskItem>, step: Option<InstallationStep>) -> (r:
    Option<usize>)
    ensures
        match r {
            Some(k) => spec_find_task_with_step(tasks.deep_view(), step, 0) == Some(k as int) && k
                < tasks@.len(),
            None => spec_find_task_with_step(tasks.deep_view(), step, 0) is None,
        },
{
    let mut i: usize = 0;
    while i < tasks.len()
        invariant
            i <= tasks.len(),
            tasks.deep_view().len() == tasks@.len(),
            spec_find_task_with_step(tasks.deep_view(), step, 0) == spec_find_task_with_step(
                tasks.deep_view(),
                step,
                i as int,
            ),
        decreases tasks.len() - i,
    {
        let matches_step = match step {
            Some(s) => s == tasks[i].step,
            None => false,
        };
        if matches_step {
            return Some(i);
        }
        i = i + 1;
    }
    None
}

/// The first selectable row reached from `start` walking one direction
/// with wraparound, giving up after one full revolution.
fn seek_selectable(items: &Vec<DisplayListItem>, start: usize, up: bool) -> (r: Option<usize>)
    requires
        items@.len() > 0,
        start < items@.len(),
    ensures
        match r {
            Some(j) => spec_seek_selectable(items.deep_view(), start as int, up, items@.len() as nat)
                == Some(j as int) && j < items@.len() && items.deep_view()[j as int].selectable,
            None => spec_seek_selectable(items.deep_view(), start as int, up, items@.len() as nat)
                is None,
        },
{
    let n = items.len();
    let mut cur = start;
    let mut remaining = n;
    while remaining > 0
        invariant
            n == items@.len(),
            n > 0,
            cur < n,
            remaining <= n,
            items.deep_view().len() == n,
            spec_seek_selectable(items.deep_view(), start as int, up, n as nat)
                == spec_seek_selectable(items.deep_view(), cur as int, up, remaining as nat),
        decreases remaining,
    {
        if items[cur].selectable {
            return Some(cur);
        }
        if up {
            if cur > 0 {
                cur = cur - 1;
            } else {
                cur = n - 1;
            }
        } else {
            if cur < n - 1 {
                cur = cur + 1;
            } else {
                cur = 0;
            }
        }
        remaining = remaining - 1;
    }
    None
}

impl App {
    /// A fresh application over the given configuration: the configured
    /// language applied where supported, the menu localized, the sample
    /// disk snapshot loaded, and the keyboard candidates ordered by the
    /// configured language.
    pub fn new(config: Config) -> (r: App)
        ensures
            r@ == spec_new_app(config@),
            spec_app_wf(r@),
    {
        let mut localization = Localization::new();
        match load_language(&mut localization, config.current_lang.as_str()) {
            Ok(()) => {},
            Err(_) => {},
        }
        let menu_items = create_localized_menu_items(&localization);
        let mut ui_state = UiState::new(menu_items);
        ui_state.system_disk_info = Some(create_dummy_system_disk_info());
        let disks_present = match &ui_state.system_disk_info {
            Some(info) => !info.disks.is_empty(),
            None => false,
        };
        if disks_present {
            ui_state.disk_setup_list_selected = Some(0);
        }
        if str_eq(config.current_lang.as_str(), "en") {
            ui_state.keyboards = vec!["us".to_owned(), "de".to_owned()];
        } else {
            ui_state.keyboards = vec!["de".to_owned(), "us".to_owned()];
        }
        proof {
            assert(ui_state.keyboards.deep_view() =~~= if config.current_lang@ == "en"@ {
                seq!["us"@, "de"@]
            } else {
                seq!["de"@, "us"@]
            });
        }
        let app = App { config, localization, ui_state, should_quit: false };
        proof {
            assert(app@ =~~= spec_new_app(config@));
            crate::theme::lemma_default_theme_index_in_range();
            assert(app@.ui.menu_items.len() == 3);
            assert(app@.ui.languages.len() == 2);
            assert(app@.ui.keyboards.len() == 2);
            assert(app@.ui.themes.len() == 8);
            assert(0 <= app@.ui.active_theme_index < app@.ui.themes.len());
            assert(spec_cursor_ok_for(app@.ui, app@.ui.current_screen));
            assert(spec_disk_selection_ok(app@.ui));
            assert(spec_app_wf(app@));
        }
        app
    }

    /// Opens the exit-confirmation dialog, unless a dialog is already
    /// open, in which case nothing changes.
    fn confirm_exit(&mut self)
        ensures
            final(self)@ == spec_confirm_exit(old(self)@),
    {
        if self.ui_state.active_dialog.is_some() {
            return;
        }
        self.ui_state.active_dialog = Some(
            DialogType::YesNo {
                title_key: "LANG_CONFIRM_TITLE".to_owned(),
                message_key: "LANG_EXIT_CONFIRM".to_owned(),
            },
        );
        self.ui_state.dialog_selected_option = 1;
        proof {
            assert(self@ =~~= spec_confirm_exit(old(self)@));
        }
    }

    /// Confirms the open dialog (Yes/No semantics; see the model).
    fn handle_dialog_confirm(&mut self)
        ensures
            final(self)@ == spec_dialog_confirm(old(self)@),
    {
        let confirm_is_exit = match &self.ui_state.active_dialog {
            Some(DialogType::YesNo { title_key, .. }) => str_eq(
                title_key.as_str(),
                "LANG_CONFIRM_TITLE",
            ),
            _ => false,
        };
        let is_yesno = match &self.ui_state.active_dialog {
            Some(DialogType::YesNo { .. }) => true,
            _ => false,
        };
        if is_yesno {
            if confirm_is_exit {
                if self.ui_state.dialog_selected_option == 0 {
                    self.should_quit = true;
                } else {
                    self.ui_state.active_dialog = None;
                }
            } else {
                self.ui_state.active_dialog = None;
            }
        }
        proof {
            assert(self@ =~~= spec_dialog_confirm(old(self)@));
        }
    }

    /// Closes the open dialog with no other effect.
    fn handle_dialog_cancel(&mut self)
        ensures
            final(self)@ == spec_dialog_cancel(old(self)@),
    {
        self.ui_state.active_dialog = None;
        proof {
            assert(self@ =~~= spec_dialog_cancel(old(self)@));
        }
    }

    /// Commits the theme selector's selection and closes the dialog.
    fn handle_theme_dialog_confirm(&mut self)
        ensures
            final(self)@ == spec_theme_dialog_confirm(old(self)@),
    {
        let is_theme = match &self.ui_state.active_dialog {
            Some(DialogType::ThemeSelector) => true,
            _ => false,
        };
        if is_theme {
            if self.ui_state.dialog_selected_option < self.ui_state.themes.len() {
                self.ui_state.active_theme_index = self.ui_state.dialog_selected_option;
            }
        }
        self.ui_state.active_dialog = None;
        proof {
            assert(self@ =~~= spec_theme_dialog_confirm(old(self)@));
        }
    }

    /// The fresh wizard task list, localized through the gateway.
    fn initialize_installation_tasks(&self) -> (r: Vec<InstallationTaskItem>)
        ensures
            r.deep_view() == spec_initial_tasks(self.localization@),
    {
        let tasks = vec![
            InstallationTaskItem {
                id: "welcome".to_owned(),
                title: get_text(&self.localization, "TASK_WELCOME"),
                step: InstallationStep::Welcome,
                status: InstallationTaskStatus::Active,
            },
            InstallationTaskItem {
                id: "disk_setup".to_owned(),
                title: get_text(&self.localization, "TASK_DISK_SETUP"),
                step: InstallationStep::DiskSetup,
                status: InstallationTaskStatus::Pending,
            },
            InstallationTaskItem {
                id: "user_setup".to_owned(),
                title: get_text(&self.localization, "TASK_USER_SETUP"),
                step: InstallationStep::UserSetup,
                status: InstallationTaskStatus::Pending,
            },
            InstallationTaskItem {
                id: "summary".to_owned(),
                title: get_text(&self.localization, "TASK_SUMMARY"),
                step: InstallationStep::Summary,
                status: InstallationTaskStatus::Pending,
            },
        ];
        proof {
            assert(tasks.deep_view() =~~= spec_initial_tasks(self.localization@));
        }
        tasks
    }

    /// Starts the installation wizard: fresh task list, first task active,
    /// wizard screen showing.
    fn start_installation_wizard(&mut self)
        ensures
            final(self)@ == spec_start_wizard(old(self)@),
    {
        self.ui_state.installation_step = Some(InstallationStep::Welcome);
        self.ui_state.current_installation_task_index = 0;
        let tasks = self.initialize_installation_tasks();
        self.ui_state.installation_tasks = tasks;
        self.ui_state.installation_task_list_selected = Some(0);
        self.update_active_task_status();
        self.ui_state.set_current_screen(Screen::SystemInstallation);
        proof {
            assert(self@ =~~= spec_start_wizard(old(self)@));
        }
    }

    /// The self-healing pass keeping the task of the current step active.
    fn update_active_task_status(&mut self)
        ensures
            final(self)@ == (AppModel { ui: spec_update_active_task(old(self)@.ui), ..old(self)@ }),
    {
        let ghost old_tasks = self.ui_state.installation_tasks.deep_view();
        let n = self.ui_state.installation_tasks.len();
        let mut k: usize = 0;
        while k < n
            invariant
                n == self.ui_state.installation_tasks@.len(),
                k <= n,
                old_tasks.len() == n,
                forall|j: int|
                    0 <= j < k ==> self.ui_state.installation_tasks.deep_view()[j]
                        == spec_clear_active(old_tasks)[j],
                forall|j: int|
                    k <= j < n ==> self.ui_state.installation_tasks.deep_view()[j] == old_tasks[j],
                self.config == old(self).config,
                self.localization == old(self).localization,
                self.should_quit == old(self).should_quit,
                self.ui_state@ == (UiModel {
                    installation_tasks: self.ui_state.installation_tasks.deep_view(),
                    ..old(self)@.ui
                }),
            decreases n - k,
        {
            if self.ui_state.installation_tasks[k].status == InstallationTaskStatus::Active {
                self.ui_state.installation_tasks[k].status = InstallationTaskStatus::Pending;
            }
            k = k + 1;
        }
        proof {
            assert(self.ui_state.installation_tasks.deep_view() =~~= spec_clear_active(old_tasks));
        }
        let idx = self.ui_state.current_installation_task_index;
        if idx < self.ui_state.installation_tasks.len() {
            let step_matches = match self.ui_state.installation_step {
                Some(s) => s == self.ui_state.installation_tasks[idx].step,
                None => false,
            };
            if step_matches {
                self.ui_state.installation_tasks[idx].status = InstallationTaskStatus::Active;
                self.ui_state.installation_task_list_selected = Some(idx);
            } else {
                match find_task_with_step(
                    &self.ui_state.installation_tasks,
                    self.ui_state.installation_step,
                ) {
                    Some(found) => {
                        self.ui_state.installation_tasks[found].status =
                            InstallationTaskStatus::Active;
                        self.ui_state.current_installation_task_index = found;
                        self.ui_state.installation_task_list_selected = Some(found);
                    },
                    None => {},
                }
            }
        }
        proof {
            assert(self@ =~~= (AppModel {
                ui: spec_update_active_task(old(self)@.ui),
                ..old(self)@
            }));
        }
    }

    /// Advances the wizard by one step (see the model for the exact
    /// transition, including the disk-setup entry effects).
    fn handle_installation_next_step(&mut self)
        requires
            old(self).ui_state.installation_tasks@.len() > 0,
            old(self).ui_state.current_installation_task_index
                < old(self).ui_state.installation_tasks@.len(),
        ensures
            final(self)@ == (AppModel { ui: spec_next_step(old(self)@.ui), ..old(self)@ }),
    {
        broadcast use lemma_find_task_in_range;

        let idx = self.ui_state.current_installation_task_index;
        let len = self.ui_state.installation_tasks.len();
        if idx < len - 1 {
            self.ui_state.installation_tasks[idx].status = InstallationTaskStatus::Completed;
            let new_idx = idx + 1;
            self.ui_state.current_installation_task_index = new_idx;
            let step_to_set = self.ui_state.installation_tasks[new_idx].step;
            self.ui_state.installation_step = Some(step_to_set);
            self.update_active_task_status();
            if step_to_set == InstallationStep::DiskSetup {
                self.ui_state.disk_setup_list_selected = Some(0);
                self.ui_state.disk_setup_selected_item_path = None;
                let rebuilt: Option<Vec<DisplayListItem>> = match &self.ui_state.system_disk_info {
                    Some(info) => Some(build_disk_display_list(info)),
                    None => None,
                };
                if let Some(items) = rebuilt {
                    let first_path: Option<String> = if items.len() > 0 {
                        Some(items[0].id_path.clone())
                    } else {
                        None
                    };
                    self.ui_state.current_disk_display_items = items;
                    self.ui_state.disk_setup_selected_item_path = first_path;
                }
            }
        } else {
            self.ui_state.installation_tasks[idx].status = InstallationTaskStatus::Completed;
        }
        proof {
            assert(self@ =~~= (AppModel { ui: spec_next_step(old(self)@.ui), ..old(self)@ }));
        }
    }

    /// Steps the wizard back by one step, exiting to the main menu from
    /// the first task (see the model for the exact transition).
    fn handle_installation_previous_step(&mut self)
        requires
            old(self).ui_state.installation_tasks@.len() == 0 || old(
                self,
            ).ui_state.current_installation_task_index
                < old(self).ui_state.installation_tasks@.len(),
        ensures
            final(self)@ == (AppModel { ui: spec_previous_step(old(self)@.ui), ..old(self)@ }),
    {
        if self.ui_state.installation_tasks.is_empty() {
            self.ui_state.set_current_screen(Screen::MainMenu);
            self.ui_state.installation_step = None;
            self.ui_state.installation_task_list_selected = Some(0);
            proof {
                assert(self@ =~~= (AppModel {
                    ui: spec_previous_step(old(self)@.ui),
                    ..old(self)@
                }));
            }
            return;
        }
        let idx = self.ui_state.current_installation_task_index;
        if idx > 0 {
            self.ui_state.installation_tasks[idx].status = InstallationTaskStatus::Pending;
            let new_idx = idx - 1;
            self.ui_state.current_installation_task_index = new_idx;
            self.ui_state.installation_tasks[new_idx].status = InstallationTaskStatus::Active;
            let step = self.ui_state.installation_tasks[new_idx].step;
            self.ui_state.installation_step = Some(step);
            self.ui_state.installation_task_list_selected = Some(new_idx);
            self.ui_state.input_buffer = String::new();
        } else {
            self.ui_state.set_current_screen(Screen::MainMenu);
            self.ui_state.installation_step = None;
            self.ui_state.installation_tasks = Vec::new();
            self.ui_state.installation_task_list_selected = Some(0);
            proof {
                assert(self.ui_state.installation_tasks.deep_view() =~~= Seq::<
                    InstallationTaskItemModel,
                >::empty());
            }
        }
        proof {
            assert(self@ =~~= (AppModel { ui: spec_previous_step(old(self)@.ui), ..old(self)@ }));
        }
    }

    /// Per-step key handling inside the wizard (text input, disk-list
    /// navigation skipping non-selectable rows).
    #[verifier::rlimit(60)]
    fn handle_installation_input(&mut self, code: Key)
        requires
            spec_disk_selection_ok(old(self)@.ui),
        ensures
            final(self)@ == (AppModel {
                ui: spec_installation_input(old(self)@.ui, code),
                ..old(self)@
            }),
    {
        broadcast use lemma_seek_in_range;

        let step = self.ui_state.installation_step;
        match step {
            Some(InstallationStep::UserSetup) => {
                match code {
                    Key::Char(c) => {
                        string_push_char(&mut self.ui_state.input_buffer, c);
                    },
                    Key::Backspace => {
                        let _popped = string_pop_char(&mut self.ui_state.input_buffer);
                    },
                    _ => {},
                }
            },
            Some(InstallationStep::DiskSetup) => {
                if self.ui_state.current_disk_display_items.is_empty() {
                    let rebuilt: Option<Vec<DisplayListItem>> = match &self
                        .ui_state
                        .system_disk_info {
                        Some(info) => Some(build_disk_display_list(info)),
                        None => None,
                    };
                    if let Some(items) = rebuilt {
                        self.ui_state.current_disk_display_items = items;
                    }
                }
                let num_options = self.ui_state.current_disk_display_items.len();
                if num_options == 0 {
                    proof {
                        assert(self@ =~~= (AppModel {
                            ui: spec_installation_input(old(self)@.ui, code),
                            ..old(self)@
                        }));
                    }
                    return;
                }
                let cur: usize = match self.ui_state.disk_setup_list_selected {
                    Some(i) => i,
                    None => 0,
                };
                let is_up = code == Key::Up;
                let is_down = code == Key::Down;
                if is_up || is_down {
                    let start: usize = if is_up {
                        if cur > 0 {
                            cur - 1
                        } else {
                            num_options - 1
                        }
                    } else {
                        if cur < num_options - 1 {
                            cur + 1
                        } else {
                            0
                        }
                    };
                    match seek_selectable(&self.ui_state.current_disk_display_items, start, is_up) {
                        Some(j) => {
                            let path = self.ui_state.current_disk_display_items[j].id_path.clone();
                            self.ui_state.disk_setup_list_selected = Some(j);
                            self.ui_state.disk_setup_selected_item_path = Some(path);
                        },
                        None => {},
                    }
                }
            },
            _ => {},
        }
        proof {
            assert(self@ =~~= (AppModel {
                ui: spec_installation_input(old(self)@.ui, code),
                ..old(self)@
            }));
        }
    }

    /// Key handling while a dialog is open: the dialog owns the key.
    fn handle_dialog_key(&mut self, code: Key)
        requires
            spec_app_wf(old(self)@),
            old(self).ui_state.active_dialog is Some,
        ensures
            final(self)@ == spec_dialog_key(old(self)@, code),
            spec_app_wf(final(self)@),
    {
        let is_yesno = match &self.ui_state.active_dialog {
            Some(DialogType::YesNo { .. }) => true,
            _ => false,
        };
        if is_yesno {
            match code_char(code) {
                Some(c) => {
                    if c == 'h' {
                        if self.ui_state.dialog_selected_option == 1 {
                            self.ui_state.dialog_selected_option = 0;
                        }
                    } else if c == 'l' {
                        if self.ui_state.dialog_selected_option == 0 {
                            self.ui_state.dialog_selected_option = 1;
                        }
                    } else if c == 'y' || c == 'j' {
                        self.ui_state.dialog_selected_option = 0;
                    } else if c == 'n' {
                        self.ui_state.dialog_selected_option = 1;
                    }
                },
                None => {
                    match code {
                        Key::Left => {
                            if self.ui_state.dialog_selected_option == 1 {
                                self.ui_state.dialog_selected_option = 0;
                            }
                        },
                        Key::Right => {
                            if self.ui_state.dialog_selected_option == 0 {
                                self.ui_state.dialog_selected_option = 1;
                            }
                        },
                        Key::Enter => {
                            self.handle_dialog_confirm();
                        },
                        Key::Esc | Key::Backspace => {
                            self.handle_dialog_cancel();
                        },
                        _ => {},
                    }
                },
            }
        } else {
            match code_char(code) {
                Some(c) => {
                    if c == 'k' {
                        if self.ui_state.themes.len() > 0 {
                            if self.ui_state.dialog_selected_option > 0 {
                                self.ui_state.dialog_selected_option =
                                    self.ui_state.dialog_selected_option - 1;
                            } else {
                                self.ui_state.dialog_selected_option =
                                    self.ui_state.themes.len() - 1;
                            }
                        }
                    } else if c == 'j' {
                        if self.ui_state.themes.len() > 0 {
                            self.ui_state.dialog_selected_option = (
                            self.ui_state.dialog_selected_option + 1)
                                % self.ui_state.themes.len();
                        }
                    }
                },
                None => {
                    match code {
                        Key::Up => {
                            if self.ui_state.themes.len() > 0 {
                                if self.ui_state.dialog_selected_option > 0 {
                                    self.ui_state.dialog_selected_option =
                                        self.ui_state.dialog_selected_option - 1;
                                } else {
                                    self.ui_state.dialog_selected_option =
                                        self.ui_state.themes.len() - 1;
                                }
                            }
                        },
                        Key::Down => {
                            if self.ui_state.themes.len() > 0 {
                                self.ui_state.dialog_selected_option = (
                                self.ui_state.dialog_selected_option + 1)
                                    % self.ui_state.themes.len();
                            }
                        },
                        Key::Enter => {
                            self.handle_theme_dialog_confirm();
                        },
                        Key::Esc | Key::Backspace => {
                            self.handle_dialog_cancel();
                        },
                        _ => {},
                    }
                },
            }
        }
        proof {
            assert(self@ =~~= spec_dialog_key(old(self)@, code));
        }
    }

    /// Screen-specific key handling once the global keys are done with.
    #[verifier::rlimit(100)]
    fn handle_screen_key(&mut self, code: Key) -> (r: Option<String>)
        requires
            spec_app_wf(old(self)@),
        ensures
            (final(self)@, r.deep_view()) == spec_screen_key(old(self)@, code),
            spec_app_wf(final(self)@),
    {
        broadcast use lemma_find_task_in_range;
        broadcast use lemma_seek_in_range;

        let mut result: Option<String> = None;
        match self.ui_state.current_screen {
            Screen::MainMenu => {
                match code {
                    Key::Enter => {
                        let choice: u8 = match self.ui_state.selected_menu_item() {
                            Some(menu_item) => {
                                if str_eq(menu_item.id.as_str(), "install") {
                                    1
                                } else if str_eq(menu_item.id.as_str(), "backup") {
                                    2
                                } else if str_eq(menu_item.id.as_str(), "keys") {
                                    3
                                } else {
                                    0
                                }
                            },
                            None => 0,
                        };
                        if choice == 1 {
                            self.start_installation_wizard();
                        } else if choice == 2 {
                            let title = get_text(&self.localization, "LANG_BACKUP");
                            let content = get_text(&self.localization, "LANG_NOT_IMPLEMENTED");
                            self.ui_state.show_message(title.as_str(), content.as_str());
                        } else if choice == 3 {
                            let title = get_text(&self.localization, "LANG_KEYS");
                            let content = get_text(&self.localization, "LANG_NOT_IMPLEMENTED");
                            self.ui_state.show_message(title.as_str(), content.as_str());
                        }
                        proof {
                            assert(self@ =~~= spec_main_menu_enter(old(self)@));
                        }
                    },
                    Key::Down | Key::Right => {
                        self.ui_state.next_menu_item();
                    },
                    Key::Up | Key::Left => {
                        self.ui_state.previous_menu_item();
                    },
                    _ => {},
                }
            },
            Screen::LanguageSelect => {
                match code {
                    Key::Enter => {
                        if let Some(lang) = self.ui_state.selected_language() {
                            self.config.current_lang = lang.clone();
                            match load_language(&mut self.localization, lang.as_str()) {
                                Ok(()) => {
                                    let new_menu = create_localized_menu_items(&self.localization);
                                    self.ui_state.menu_items = new_menu;
                                    if str_eq(lang.as_str(), "en") {
                                        self.ui_state.keyboards = vec![
                                            "us".to_owned(),
                                            "de".to_owned(),
                                        ];
                                    } else {
                                        self.ui_state.keyboards = vec![
                                            "de".to_owned(),
                                            "us".to_owned(),
                                        ];
                                    }
                                    proof {
                                        assert(self.ui_state.keyboards.deep_view() =~~= if lang@
                                            == "en"@ {
                                            seq!["us"@, "de"@]
                                        } else {
                                            seq!["de"@, "us"@]
                                        });
                                    }
                                    self.ui_state.selected_index = 0;
                                    self.ui_state.current_screen = Screen::KeyboardSelect;
                                },
                                Err(e) => {
                                    let detail = match e {
                                        crate::error::LunitoolError::Language(d) => d,
                                        _ => String::new(),
                                    };
                                    let mut content = "Failed to load language: ".to_owned();
                                    content.append(detail.as_str());
                                    self.ui_state.show_error("Language Error", content.as_str());
                                },
                            }
                            proof {
                                assert(self@ =~~= spec_language_enter(old(self)@));
                            }
                        }
                    },
                    Key::Down => {
                        self.ui_state.next_language();
                    },
                    Key::Up => {
                        self.ui_state.previous_language();
                    },
                    _ => {},
                }
            },
            Screen::KeyboardSelect => {
                match code {
                    Key::Enter => {
                        if let Some(kb) = self.ui_state.selected_keyboard() {
                            self.config.keyboard = kb.clone();
                            result = Some(kb);
                        }
                    },
                    Key::Down => {
                        self.ui_state.next_keyboard();
                    },
                    Key::Up => {
                        self.ui_state.previous_keyboard();
                    },
                    _ => {},
                }
            },
            Screen::Message => {
                match code {
                    Key::Enter | Key::Esc | Key::Backspace => {
                        self.ui_state.clear_message();
                    },
                    _ => {},
                }
            },
            Screen::ConfirmExit => {},
            Screen::SystemInstallation => {
                match code {
                    Key::Enter => {
                        self.handle_installation_next_step();
                    },
                    Key::Char(c) => {
                        if c == 'd' || c == 'D' {
                            self.ui_state.active_dialog = Some(
                                DialogType::YesNo {
                                    title_key: "DIALOG_YESNO_EXAMPLE_TITLE".to_owned(),
                                    message_key: "DIALOG_YESNO_EXAMPLE_MESSAGE".to_owned(),
                                },
                            );
                            self.ui_state.dialog_selected_option = 0;
                        } else {
                            self.handle_installation_input(code);
                        }
                    },
                    _ => {
                        self.handle_installation_input(code);
                    },
                }
            },
        }
        proof {
            assert((self@, result.deep_view()) =~~= spec_screen_key(old(self)@, code));
        }
        result
    }

    /// Dispatches one key press. The returned value, if any, is the
    /// keyboard layout the caller must try to apply; the outcome goes
    /// back in through `keyboard_applied`.
    pub fn handle_key_event(&mut self, key: KeyInput) -> (r: Option<String>)
        requires
            spec_app_wf(old(self)@),
        ensures
            (final(self)@, r.deep_view()) == spec_handle_key(old(self)@, key),
            spec_app_wf(final(self)@),
    {
        let alt_log = key.alt && (key.code == Key::Char('l') || key.code == Key::Char('L'));
        let alt_theme = key.alt && (key.code == Key::Char('t') || key.code == Key::Char('T'));

        if alt_log && self.ui_state.current_screen == Screen::SystemInstallation {
            self.ui_state.show_log_panel = !self.ui_state.show_log_panel;
            proof {
                assert((self@, None::<Seq<char>>) =~~= spec_handle_key(old(self)@, key));
            }
            return None;
        }
        if alt_theme && self.ui_state.active_dialog.is_none() {
            self.ui_state.active_dialog = Some(DialogType::ThemeSelector);
            self.ui_state.dialog_selected_option = self.ui_state.active_theme_index;
            proof {
                assert((self@, None::<Seq<char>>) =~~= spec_handle_key(old(self)@, key));
            }
            return None;
        }
        if self.ui_state.active_dialog.is_some() {
            self.handle_dialog_key(key.code);
            proof {
                assert((self@, None::<Seq<char>>) =~~= spec_handle_key(old(self)@, key));
            }
            return None;
        }
        if key.code == Key::Esc && self.ui_state.current_screen != Screen::ConfirmExit
            && self.ui_state.current_screen != Screen::Message {
            self.confirm_exit();
            proof {
                assert((self@, None::<Seq<char>>) =~~= spec_handle_key(old(self)@, key));
            }
            return None;
        }
        if key.code == Key::Backspace && self.ui_state.current_screen != Screen::Message
            && self.ui_state.current_screen != Screen::ConfirmExit {
            match self.ui_state.current_screen {
                Screen::SystemInstallation => {
                    self.handle_installation_previous_step();
                },
                Screen::KeyboardSelect => {
                    self.ui_state.set_current_screen(Screen::LanguageSelect);
                },
                Screen::MainMenu => {
                    self.ui_state.set_current_screen(Screen::KeyboardSelect);
                },
                _ => {
                    if self.ui_state.previous_screen != self.ui_state.current_screen {
                        if self.ui_state.current_screen == Screen::LanguageSelect
                            && self.ui_state.previous_screen == Screen::KeyboardSelect {
                            self.confirm_exit();
                        } else {
                            let prev = self.ui_state.previous_screen;
                            self.ui_state.set_current_screen(prev);
                        }
                    } else {
                        self.confirm_exit();
                    }
                },
            }
            proof {
                assert((self@, None::<Seq<char>>) =~~= spec_handle_key(old(self)@, key));
            }
            return None;
        }
        let result = self.handle_screen_key(key.code);
        proof {
            assert((self@, result.deep_view()) =~~= spec_handle_key(old(self)@, key));
        }
        result
    }

    /// Feeds back the outcome of applying a keyboard layout: success
    /// moves on to the main menu, failure shows an error message. The
    /// detail text is the failure's description.
    pub fn keyboard_applied(&mut self, ok: bool, err_detail: &str)
        requires
            spec_app_wf(old(self)@),
        ensures
            final(self)@ == spec_keyboard_applied(old(self)@, ok, err_detail@),
            spec_app_wf(final(self)@),
    {
        if ok {
            self.ui_state.selected_index = 0;
            self.ui_state.current_screen = Screen::MainMenu;
        } else {
            let mut content = "Failed to set keyboard layout: ".to_owned();
            content.append(err_detail);
            self.ui_state.show_error("Keyboard Error", content.as_str());
        }
        proof {
            assert(self@ =~~= spec_keyboard_applied(old(self)@, ok, err_detail@));
        }
    }
}

/// The character of a `Char` key, if it is one.
fn code_char(code: Key) -> (r: Option<char>)
    ensures
        r == match code {
            Key::Char(c) => Some(c),
            _ => None::<char>,
        },
{
    match code {
        Key::Char(c) => Some(c),
        _ => None,
    }
}

/// The complete key dispatch: the Alt shortcuts (log panel on the wizard
/// screen, theme selector when no dialog is open) act first; an open
/// dialog then owns the key; the global escape opens the exit
/// confirmation; the global back key walks the screen chain (and exits
/// the wizard stepwise); everything else is screen-specific. The second
/// component is the keyboard layout whose application is requested.
pub open spec fn spec_handle_key(m: AppModel, key: KeyInput) -> (AppModel, Option<Seq<char>>) {
    if key.alt && (key.code == Key::Char('l') || key.code == Key::Char('L')) && m.ui.current_screen
        == Screen::SystemInstallation {
        (
            AppModel { ui: UiModel { show_log_panel: !m.ui.show_log_panel, ..m.ui }, ..m },
            None,
        )
    } else if key.alt && (key.code == Key::Char('t') || key.code == Key::Char('T'))
        && m.ui.active_dialog is None {
        (
            AppModel {
                ui: UiModel {
                    active_dialog: Some(DialogModel::ThemeSelector),
                    dialog_selected_option: m.ui.active_theme_index,
                    ..m.ui
                },
                ..m
            },
            None,
        )
    } else if m.ui.active_dialog is Some {
        (spec_dialog_key(m, key.code), None)
    } else if key.code == Key::Esc && m.ui.current_screen != Screen::ConfirmExit
        && m.ui.current_screen != Screen::Message {
        (spec_confirm_exit(m), None)
    } else if key.code == Key::Backspace && m.ui.current_screen != Screen::Message
        && m.ui.current_screen != Screen::ConfirmExit {
        match m.ui.current_screen {
            Screen::SystemInstallation => (AppModel { ui: spec_previous_step(m.ui), ..m }, None),
            Screen::KeyboardSelect => (
                AppModel { ui: spec_set_current_screen(m.ui, Screen::LanguageSelect), ..m },
                None,
            ),
            Screen::MainMenu => (
                AppModel { ui: spec_set_current_screen(m.ui, Screen::KeyboardSelect), ..m },
                None,
            ),
            _ => {
                if m.ui.previous_screen != m.ui.current_screen {
                    if m.ui.current_screen == Screen::LanguageSelect && m.ui.previous_screen
                        == Screen::KeyboardSelect {
                        (spec_confirm_exit(m), None)
                    } else {
                        (
                            AppModel {
                                ui: spec_set_current_screen(m.ui, m.ui.previous_screen),
                                ..m
                            },
                            None,
                        )
                    }
                } else {
                    (spec_confirm_exit(m), None)
                }
            },
        }
    } else {
        spec_screen_key(m, key.code)
    }
}


/// Exactly one task is active — the task of the current step, at the
/// current index.
pub open spec fn spec_one_active_task(ui: UiModel) -> bool {
    &&& 0 <= ui.current_installation_task_index < ui.installation_tasks.len()
    &&& ui.installation_step == Some(
        ui.installation_tasks[ui.current_installation_task_index].step,
    )
    &&& forall|k: int|
        0 <= k < ui.installation_tasks.len() ==> ((#[trigger] ui.installation_tasks[k].status)
            == InstallationTaskStatus::Active <==> k == ui.current_installation_task_index)
}

/// Law: starting the wizard establishes exactly one active task, whose
/// step is the current installation step.
pub proof fn lemma_start_wizard_one_active(m: AppModel)
    ensures
        spec_one_active_task(spec_start_wizard(m).ui),
{
    let tasks = spec_initial_tasks(m.lang);
    let cleared = spec_clear_active(tasks);
    assert(cleared[0].step == InstallationStep::Welcome);
    let r = spec_start_wizard(m).ui;
    assert(r.installation_tasks =~= cleared.update(
        0,
        InstallationTaskItemModel { status: InstallationTaskStatus::Active, ..cleared[0] },
    ));
    assert forall|k: int| 0 <= k < r.installation_tasks.len() implies ((
    #[trigger] r.installation_tasks[k].status) == InstallationTaskStatus::Active <==> k == 0) by {
        assert(tasks[k].status == InstallationTaskStatus::Active <==> k == 0);
    }
}

/// Law: advancing the wizard below the last task keeps exactly one task
/// active, and its step stays in lock-step with the current installation
/// step. (Completing the last task is the designed exception: the wizard
/// stays put and the completed last task leaves no task active.)
pub proof fn lemma_next_step_one_active(ui: UiModel)
    requires
        spec_one_active_task(ui),
        ui.current_installation_task_index < ui.installation_tasks.len() - 1,
    ensures
        spec_one_active_task(spec_next_step(ui)),
{
    let idx = ui.current_installation_task_index;
    let tasks = ui.installation_tasks;
    let t1 = tasks.update(
        idx,
        InstallationTaskItemModel { status: InstallationTaskStatus::Completed, ..tasks[idx] },
    );
    let cleared = spec_clear_active(t1);
    assert forall|k: int| 0 <= k < t1.len() implies #[trigger] cleared[k] == t1[k] by {
        assert(t1[k].status != InstallationTaskStatus::Active);
    }
    assert(cleared =~= t1);
    let new_idx = idx + 1;
    let mid = UiModel {
        installation_tasks: t1,
        current_installation_task_index: new_idx,
        installation_step: Some(t1[new_idx].step),
        ..ui
    };
    let upd = spec_update_active_task(mid);
    assert(Some(cleared[new_idx].step) == mid.installation_step);
    let r = spec_next_step(ui);
    assert(r.installation_tasks =~= cleared.update(
        new_idx,
        InstallationTaskItemModel { status: InstallationTaskStatus::Active, ..cleared[new_idx] },
    ));
    assert(r.current_installation_task_index == new_idx);
    assert forall|k: int| 0 <= k < r.installation_tasks.len() implies ((
    #[trigger] r.installation_tasks[k].status) == InstallationTaskStatus::Active <==> k
        == new_idx) by {
        assert(tasks[k].status == InstallationTaskStatus::Active <==> k == idx);
    }
}

/// Law: stepping back above the first task keeps exactly one task active,
/// in lock-step with the current step; stepping back from the first task
/// exits the wizard with the task list cleared and no step set.
pub proof fn lemma_previous_step_one_active(ui: UiModel)
    requires
        spec_one_active_task(ui),
    ensures
        ui.current_installation_task_index > 0 ==> spec_one_active_task(spec_previous_step(ui)),
        ui.current_installation_task_index == 0 ==> spec_previous_step(
            ui,
        ).installation_tasks.len() == 0 && spec_previous_step(ui).installation_step is None,
{
    if ui.current_installation_task_index > 0 {
        let idx = ui.current_installation_task_index;
        let tasks = ui.installation_tasks;
        let r = spec_previous_step(ui);
        assert forall|k: int| 0 <= k < r.installation_tasks.len() implies ((
        #[trigger] r.installation_tasks[k].status) == InstallationTaskStatus::Active <==> k == idx
            - 1) by {
            assert(tasks[k].status == InstallationTaskStatus::Active <==> k == idx);
        }
    }
}

/// Law: opening a dialog while one is already open changes nothing — the
/// exit-confirmation guard, the theme-selector shortcut and the sample
/// dialog key all leave the state exactly as it was.
pub proof fn lemma_dialog_open_is_exclusive(m: AppModel)
    requires
        m.ui.active_dialog is Some,
    ensures
        spec_confirm_exit(m) == m,
        spec_handle_key(m, KeyInput { code: Key::Char('t'), alt: true }).0 == m,
        spec_handle_key(m, KeyInput { code: Key::Char('d'), alt: false }).0 == m,
{
}

/// Law: confirming the exit dialog sets the quit flag exactly when "Yes"
/// (the first option) is selected; confirming with "No" never sets it.
pub proof fn lemma_exit_dialog_confirm(m: AppModel)
    requires
        m.ui.active_dialog matches Some(d) && d matches DialogModel::YesNo { title_key, .. }
            && title_key == "LANG_CONFIRM_TITLE"@,
    ensures
        m.ui.dialog_selected_option == 0 ==> spec_dialog_confirm(m).should_quit,
        m.ui.dialog_selected_option != 0 ==> spec_dialog_confirm(m).should_quit == m.should_quit,
{
}

} // verus!

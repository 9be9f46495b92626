//! The UI state aggregate: current screen, cursors, dialog, wizard
//! bookkeeping and the disk display list, with a mathematical model of
//! every transition. The renderer reads this state; only the transition
//! functions here mutate it.
use vstd::prelude::*;
use vstd::string::StringExecFns;

use crate::app::{
    InstallationConfig, InstallationConfigModel, InstallationStep, InstallationTaskItem,
    InstallationTaskItemModel,
};
use crate::disk_info::{SystemDiskInfo, SystemDiskInfoModel};
use crate::lang::{get_text, spec_get_text, Localization};
use crate::theme::{default_theme_index, spec_default_theme_index, spec_theme_catalog, ThemeName};
use crate::widgets::{
    DialogModel, DialogType, DisplayListItem, DisplayListItemModel, MenuItem, MenuItemModel, Screen,
};

verus! {

/// UI state of the application.
#[derive(Debug)]
pub struct UiState {
    pub current_screen: Screen,
    pub menu_items: Vec<MenuItem>,
    pub selected_index: usize,
    pub languages: Vec<String>,
    pub keyboards: Vec<String>,
    pub message: Option<(String, String)>,
    pub previous_screen: Screen,
    pub installation_step: Option<InstallationStep>,
    pub installation_config: InstallationConfig,
    pub installation_tasks: Vec<InstallationTaskItem>,
    pub current_installation_task_index: usize,
    pub show_log_panel: bool,
    pub input_buffer: String,
    pub installation_task_list_selected: Option<usize>,
    pub system_disk_info: Option<SystemDiskInfo>,
    pub disk_setup_selected_item_path: Option<String>,
    pub disk_setup_list_selected: Option<usize>,
    pub current_disk_display_items: Vec<DisplayListItem>,
    pub is_loading_disks: bool,
    pub log_buffer: Vec<String>,
    pub task_description_scroll_offset: usize,
    pub task_description_total_lines: usize,
    pub active_dialog: Option<DialogType>,
    pub dialog_selected_option: usize,
    pub themes: Vec<ThemeName>,
    pub active_theme_index: usize,
}

/// Model of the whole UI state.
#[verifier::ext_equal]
pub struct UiModel {
    pub current_screen: Screen,
    pub menu_items: Seq<MenuItemModel>,
    pub selected_index: int,
    pub languages: Seq<Seq<char>>,
    pub keyboards: Seq<Seq<char>>,
    pub message: Option<(Seq<char>, Seq<char>)>,
    pub previous_screen: Screen,
    pub installation_step: Option<InstallationStep>,
    pub installation_config: InstallationConfigModel,
    pub installation_tasks: Seq<InstallationTaskItemModel>,
    pub current_installation_task_index: int,
    pub show_log_panel: bool,
    pub input_buffer: Seq<char>,
    pub installation_task_list_selected: Option<int>,
    pub system_disk_info: Option<SystemDiskInfoModel>,
    pub disk_setup_selected_item_path: Option<Seq<char>>,
    pub disk_setup_list_selected: Option<int>,
    pub current_disk_display_items: Seq<DisplayListItemModel>,
    pub is_loading_disks: bool,
    pub log_buffer: Seq<Seq<char>>,
    pub task_description_scroll_offset: int,
    pub task_description_total_lines: int,
    pub active_dialog: Option<DialogModel>,
    pub dialog_selected_option: int,
    pub themes: Seq<ThemeName>,
    pub active_theme_index: int,
}

impl View for UiState {
    type V = UiModel;

    open spec fn view(&self) -> UiModel {
        UiModel {
            current_screen: self.current_screen,
            menu_items: self.menu_items.deep_view(),
            selected_index: self.selected_index as int,
            languages: self.languages.deep_view(),
            keyboards: self.keyboards.deep_view(),
            message: self.message.deep_view(),
            previous_screen: self.previous_screen,
            installation_step: self.installation_step,
            installation_config: self.installation_config@,
            installation_tasks: self.installation_tasks.deep_view(),
            current_installation_task_index: self.current_installation_task_index as int,
            show_log_panel: self.show_log_panel,
            input_buffer: self.input_buffer@,
            installation_task_list_selected: match self.installation_task_list_selected {
                Some(i) => Some(i as int),
                None => None,
            },
            system_disk_info: self.system_disk_info.deep_view(),
            disk_setup_selected_item_path: self.disk_setup_selected_item_path.deep_view(),
            disk_setup_list_selected: match self.disk_setup_list_selected {
                Some(i) => Some(i as int),
                None => None,
            },
            current_disk_display_items: self.current_disk_display_items.deep_view(),
            is_loading_disks: self.is_loading_disks,
            log_buffer: self.log_buffer.deep_view(),
            task_description_scroll_offset: self.task_description_scroll_offset as int,
            task_description_total_lines: self.task_description_total_lines as int,
            active_dialog: self.active_dialog.deep_view(),
            dialog_selected_option: self.dialog_selected_option as int,
            themes: self.themes@,
            active_theme_index: self.active_theme_index as int,
        }
    }
}

/// The state a fresh UI starts in: language selection, German-first
/// candidate lists, no dialog, no wizard, the default palette active.
pub open spec fn spec_initial_ui(menu_items: Seq<MenuItemModel>) -> UiModel {
    UiModel {
        current_screen: Screen::LanguageSelect,
        menu_items,
        selected_index: 0,
        languages: seq!["de"@, "en"@],
        keyboards: seq!["de"@, "us"@],
        message: None,
        previous_screen: Screen::LanguageSelect,
        installation_step: None,
        installation_config: crate::app::spec_empty_installation_config(),
        installation_tasks: Seq::empty(),
        current_installation_task_index: 0,
        show_log_panel: false,
        input_buffer: Seq::empty(),
        installation_task_list_selected: Some(0),
        system_disk_info: None,
        disk_setup_selected_item_path: None,
        disk_setup_list_selected: None,
        current_disk_display_items: Seq::empty(),
        is_loading_disks: false,
        log_buffer: Seq::empty(),
        task_description_scroll_offset: 0,
        task_description_total_lines: 0,
        active_dialog: None,
        dialog_selected_option: 0,
        themes: spec_theme_catalog(),
        active_theme_index: spec_default_theme_index(spec_theme_catalog()),
    }
}

/// The cursor one step forward, wrapping past the end.
pub open spec fn spec_next_index(i: int, n: int) -> int
    recommends
        n > 0,
{
    (i + 1) % n
}

/// The cursor one step back, wrapping at the start.
pub open spec fn spec_prev_index(i: int, n: int) -> int
    recommends
        n > 0,
{
    if i > 0 {
        i - 1
    } else {
        n - 1
    }
}

/// Entering a screen: the old screen is remembered, and screens with a
/// list or menu get their cursor reset.
pub open spec fn spec_set_current_screen(m: UiModel, new_screen: Screen) -> UiModel {
    let reset = match new_screen {
        Screen::MainMenu | Screen::LanguageSelect | Screen::KeyboardSelect | Screen::ConfirmExit => true,
        Screen::Message | Screen::SystemInstallation => false,
    };
    UiModel {
        previous_screen: m.current_screen,
        current_screen: new_screen,
        selected_index: if reset {
            0
        } else {
            m.selected_index
        },
        ..m
    }
}

/// Showing a message: the old screen is remembered for return.
pub open spec fn spec_show_message(m: UiModel, title: Seq<char>, content: Seq<char>) -> UiModel {
    UiModel {
        previous_screen: m.current_screen,
        message: Some((title, content)),
        current_screen: Screen::Message,
        ..m
    }
}

/// Dismissing the message returns to the remembered screen.
pub open spec fn spec_clear_message(m: UiModel) -> UiModel {
    UiModel { message: None, current_screen: m.previous_screen, ..m }
}

/// The scroll bookkeeping of the task-description pane after a redraw:
/// the line count is recorded and the offset clamped to what can scroll,
/// or reset when everything fits.
pub open spec fn spec_clamp_scroll(m: UiModel, total_lines: int, visible_height: int) -> UiModel {
    if total_lines > visible_height {
        let limit = total_lines - visible_height;
        UiModel {
            task_description_total_lines: total_lines,
            task_description_scroll_offset: if m.task_description_scroll_offset > limit {
                limit
            } else {
                m.task_description_scroll_offset
            },
            ..m
        }
    } else {
        UiModel {
            task_description_total_lines: total_lines,
            task_description_scroll_offset: 0,
            ..m
        }
    }
}

impl UiState {
    /// A fresh UI state holding the given menu.
    pub fn new(menu_items: Vec<MenuItem>) -> (r: Self)
        ensures
            r@ == spec_initial_ui(menu_items.deep_view()),
    {
        let themes = ThemeName::all();
        let active_theme_index = default_theme_index(&themes);
        let languages = vec!["de".to_owned(), "en".to_owned()];
        let keyboards = vec!["de".to_owned(), "us".to_owned()];
        let r = UiState {
            current_screen: Screen::LanguageSelect,
            menu_items,
            selected_index: 0,
            languages,
            keyboards,
            message: None,
            previous_screen: Screen::LanguageSelect,
            installation_step: None,
            installation_config: InstallationConfig::default(),
            installation_tasks: Vec::new(),
            current_installation_task_index: 0,
            show_log_panel: false,
            input_buffer: String::new(),
            installation_task_list_selected: Some(0),
            system_disk_info: None,
            disk_setup_selected_item_path: None,
            disk_setup_list_selected: None,
            current_disk_display_items: Vec::new(),
            is_loading_disks: false,
            log_buffer: Vec::new(),
            task_description_scroll_offset: 0,
            task_description_total_lines: 0,
            active_dialog: None,
            dialog_selected_option: 0,
            themes,
            active_theme_index,
        };
        proof {
            assert(r.languages.deep_view() =~~= seq!["de"@, "en"@]);
            assert(r.keyboards.deep_view() =~~= seq!["de"@, "us"@]);
            assert(r.installation_tasks.deep_view() =~~= Seq::<InstallationTaskItemModel>::empty());
            assert(r.current_disk_display_items.deep_view() =~~= Seq::<
                DisplayListItemModel,
            >::empty());
            assert(r.log_buffer.deep_view() =~~= Seq::<Seq<char>>::empty());
            assert(r@ =~~= spec_initial_ui(r.menu_items.deep_view()));
        }
        r
    }

    /// Sets the current screen, remembering the old one and resetting the
    /// cursor on screens with list or menu structures.
    pub fn set_current_screen(&mut self, new_screen: Screen)
        ensures
            final(self)@ == spec_set_current_screen(old(self)@, new_screen),
    {
        self.previous_screen = self.current_screen;
        self.current_screen = new_screen;
        match new_screen {
            Screen::MainMenu | Screen::LanguageSelect | Screen::KeyboardSelect
            | Screen::ConfirmExit => {
                self.selected_index = 0;
            },
            Screen::Message => {},
            Screen::SystemInstallation => {},
        }
        proof {
            assert(self@ =~~= spec_set_current_screen(old(self)@, new_screen));
        }
    }

    /// The menu entry under the cursor, if the cursor is in range.
    pub fn selected_menu_item(&self) -> (r: Option<&MenuItem>)
        ensures
            self.selected_index < self.menu_items@.len() ==> (r matches Some(mi) && *mi
                == self.menu_items@[self.selected_index as int]),
            self.selected_index >= self.menu_items@.len() ==> r is None,
    {
        if self.selected_index < self.menu_items.len() {
            Some(&self.menu_items[self.selected_index])
        } else {
            None
        }
    }

    /// Moves the menu cursor one entry forward, wrapping past the end.
    pub fn next_menu_item(&mut self)
        requires
            old(self).menu_items@.len() > 0,
            old(self).selected_index < old(self).menu_items@.len(),
        ensures
            final(self)@ == (UiModel {
                selected_index: spec_next_index(
                    old(self)@.selected_index,
                    old(self)@.menu_items.len() as int,
                ),
                ..old(self)@
            }),
    {
        let n = self.menu_items.len();
        self.selected_index = (self.selected_index + 1) % n;
        proof {
            assert(self@ =~~= (UiModel {
                selected_index: spec_next_index(
                    old(self)@.selected_index,
                    old(self)@.menu_items.len() as int,
                ),
                ..old(self)@
            }));
        }
    }

    /// Moves the menu cursor one entry back, wrapping at the start.
    pub fn previous_menu_item(&mut self)
        requires
            old(self).menu_items@.len() > 0,
        ensures
            final(self)@ == (UiModel {
                selected_index: spec_prev_index(
                    old(self)@.selected_index,
                    old(self)@.menu_items.len() as int,
                ),
                ..old(self)@
            }),
    {
        if self.selected_index > 0 {
            self.selected_index = self.selected_index - 1;
        } else {
            self.selected_index = self.menu_items.len() - 1;
        }
        proof {
            assert(self@ =~~= (UiModel {
                selected_index: spec_prev_index(
                    old(self)@.selected_index,
                    old(self)@.menu_items.len() as int,
                ),
                ..old(self)@
            }));
        }
    }

    /// The language code under the cursor, if the cursor is in range.
    pub fn selected_language(&self) -> (r: Option<String>)
        ensures
            r.deep_view() == if self.selected_index < self.languages@.len() {
                Some(self@.languages[self.selected_index as int])
            } else {
                None::<Seq<char>>
            },
    {
        if self.selected_index < self.languages.len() {
            Some(self.languages[self.selected_index].clone())
        } else {
            None
        }
    }

    /// Moves the language cursor one entry forward, wrapping past the end.
    pub fn next_language(&mut self)
        requires
            old(self).languages@.len() > 0,
            old(self).selected_index < old(self).languages@.len(),
        ensures
            final(self)@ == (UiModel {
                selected_index: spec_next_index(
                    old(self)@.selected_index,
                    old(self)@.languages.len() as int,
                ),
                ..old(self)@
            }),
    {
        let n = self.languages.len();
        self.selected_index = (self.selected_index + 1) % n;
        proof {
            assert(self@ =~~= (UiModel {
                selected_index: spec_next_index(
                    old(self)@.selected_index,
                    old(self)@.languages.len() as int,
                ),
                ..old(self)@
            }));
        }
    }

    /// Moves the language cursor one entry back, wrapping at the start.
    pub fn previous_language(&mut self)
        requires
            old(self).languages@.len() > 0,
        ensures
            final(self)@ == (UiModel {
                selected_index: spec_prev_index(
                    old(self)@.selected_index,
                    old(self)@.languages.len() as int,
                ),
                ..old(self)@
            }),
    {
        if self.selected_index > 0 {
            self.selected_index = self.selected_index - 1;
        } else {
            self.selected_index = self.languages.len() - 1;
        }
        proof {
            assert(self@ =~~= (UiModel {
                selected_index: spec_prev_index(
                    old(self)@.selected_index,
                    old(self)@.languages.len() as int,
                ),
                ..old(self)@
            }));
        }
    }

    /// The keyboard layout under the cursor, if the cursor is in range.
    pub fn selected_keyboard(&self) -> (r: Option<String>)
        ensures
            r.deep_view() == if self.selected_index < self.keyboards@.len() {
                Some(self@.keyboards[self.selected_index as int])
            } else {
                None::<Seq<char>>
            },
    {
        if self.selected_index < self.keyboards.len() {
            Some(self.keyboards[self.selected_index].clone())
        } else {
            None
        }
    }

    /// Moves the keyboard cursor one entry forward, wrapping past the end.
    pub fn next_keyboard(&mut self)
        requires
            old(self).keyboards@.len() > 0,
            old(self).selected_index < old(self).keyboards@.len(),
        ensures
            final(self)@ == (UiModel {
                selected_index: spec_next_index(
                    old(self)@.selected_index,
                    old(self)@.keyboards.len() as int,
                ),
                ..old(self)@
            }),
    {
        let n = self.keyboards.len();
        self.selected_index = (self.selected_index + 1) % n;
        proof {
            assert(self@ =~~= (UiModel {
                selected_index: spec_next_index(
                    old(self)@.selected_index,
                    old(self)@.keyboards.len() as int,
                ),
                ..old(self)@
            }));
        }
    }

    /// Moves the keyboard cursor one entry back, wrapping at the start.
    pub fn previous_keyboard(&mut self)
        requires
            old(self).keyboards@.len() > 0,
        ensures
            final(self)@ == (UiModel {
                selected_index: spec_prev_index(
                    old(self)@.selected_index,
                    old(self)@.keyboards.len() as int,
                ),
                ..old(self)@
            }),
    {
        if self.selected_index > 0 {
            self.selected_index = self.selected_index - 1;
        } else {
            self.selected_index = self.keyboards.len() - 1;
        }
        proof {
            assert(self@ =~~= (UiModel {
                selected_index: spec_prev_index(
                    old(self)@.selected_index,
                    old(self)@.keyboards.len() as int,
                ),
                ..old(self)@
            }));
        }
    }

    /// Shows a message screen, remembering the current screen for return.
    pub fn show_message(&mut self, title: &str, content: &str)
        ensures
            final(self)@ == spec_show_message(old(self)@, title@, content@),
    {
        self.previous_screen = self.current_screen;
        self.message = Some((title.to_owned(), content.to_owned()));
        self.current_screen = Screen::Message;
        proof {
            assert(self@ =~~= spec_show_message(old(self)@, title@, content@));
        }
    }

    /// Shows an error message screen; the title gets an `Error: ` prefix.
    pub fn show_error(&mut self, title: &str, content: &str)
        ensures
            final(self)@ == spec_show_message(old(self)@, "Error: "@ + title@, content@),
    {
        let mut full_title = "Error: ".to_owned();
        full_title.append(title);
        self.previous_screen = self.current_screen;
        self.message = Some((full_title, content.to_owned()));
        self.current_screen = Screen::Message;
        proof {
            assert(self@ =~~= spec_show_message(old(self)@, "Error: "@ + title@, content@));
        }
    }

    /// Clears the message and returns to the remembered screen.
    pub fn clear_message(&mut self)
        ensures
            final(self)@ == spec_clear_message(old(self)@),
    {
        self.message = None;
        self.current_screen = self.previous_screen;
        proof {
            assert(self@ =~~= spec_clear_message(old(self)@));
        }
    }

    /// Whether the current wizard step takes free-text input.
    pub fn installation_step_requires_text_input(&self) -> (r: bool)
        ensures
            r == (self.installation_step == Some(InstallationStep::UserSetup)),
    {
        match self.installation_step {
            Some(InstallationStep::UserSetup) => true,
            _ => false,
        }
    }

    /// The title of the current wizard task, or the localized unknown-task
    /// text when the index is out of range.
    pub fn current_installation_task_name(&self, loc: &Localization) -> (r: String)
        ensures
            r@ == if self.current_installation_task_index < self.installation_tasks@.len() {
                self@.installation_tasks[self.current_installation_task_index as int].title
            } else {
                spec_get_text(loc@, "UNKNOWN_TASK"@)
            },
    {
        if self.current_installation_task_index < self.installation_tasks.len() {
            self.installation_tasks[self.current_installation_task_index].title.clone()
        } else {
            get_text(loc, "UNKNOWN_TASK")
        }
    }

    /// Records the task-description line count and clamps the scroll
    /// offset into what can actually scroll; the renderer calls this and
    /// must change no other state.
    pub fn update_task_description_scroll(&mut self, total_lines: usize, visible_height: usize)
        ensures
            final(self)@ == spec_clamp_scroll(old(self)@, total_lines as int, visible_height as int),
    {
        self.task_description_total_lines = total_lines;
        if total_lines > visible_height {
            let limit = total_lines - visible_height;
            if self.task_description_scroll_offset > limit {
                self.task_description_scroll_offset = limit;
            }
        } else {
            self.task_description_scroll_offset = 0;
        }
        proof {
            assert(self@ =~~= spec_clamp_scroll(
                old(self)@,
                total_lines as int,
                visible_height as int,
            ));
        }
    }
}

/// Law: from a cursor inside the list, one step in either direction stays
/// inside the list, and the steps wrap exactly at the boundaries: forward
/// from the last entry lands on the first, back from the first lands on
/// the last.
pub proof fn lemma_cursor_wraps(i: int, n: int)
    requires
        n > 0,
        0 <= i < n,
    ensures
        0 <= spec_next_index(i, n) < n,
        0 <= spec_prev_index(i, n) < n,
        i < n - 1 ==> spec_next_index(i, n) == i + 1,
        i == n - 1 ==> spec_next_index(i, n) == 0,
        i > 0 ==> spec_prev_index(i, n) == i - 1,
        i == 0 ==> spec_prev_index(i, n) == n - 1,
{
    if i < n - 1 {
        vstd::arithmetic::div_mod::lemma_small_mod((i + 1) as nat, n as nat);
    } else {
        vstd::arithmetic::div_mod::lemma_mod_self_0(n);
    }
}


/// The header breadcrumb's subtitle key for a screen.
pub open spec fn spec_header_subtitle_key(screen: Screen) -> Seq<char> {
    match screen {
        Screen::LanguageSelect => "LANG_LANGUAGE_SELECT"@,
        Screen::KeyboardSelect => "LANG_KEYBOARD_SELECT"@,
        Screen::MainMenu => "LANG_MAIN_MENU"@,
        Screen::SystemInstallation => "INSTALL_HEADER_LINE2"@,
        Screen::Message => "LANG_SUBTITLE"@,
        Screen::ConfirmExit => "LANG_SUBTITLE"@,
    }
}

/// The localization key of the header breadcrumb's subtitle, keyed by the
/// current screen.
pub fn header_subtitle_key(screen: Screen) -> (r: String)
    ensures
        r@ == spec_header_subtitle_key(screen),
{
    match screen {
        Screen::LanguageSelect => "LANG_LANGUAGE_SELECT".to_owned(),
        Screen::KeyboardSelect => "LANG_KEYBOARD_SELECT".to_owned(),
        Screen::MainMenu => "LANG_MAIN_MENU".to_owned(),
        Screen::SystemInstallation => "INSTALL_HEADER_LINE2".to_owned(),
        Screen::Message => "LANG_SUBTITLE".to_owned(),
        Screen::ConfirmExit => "LANG_SUBTITLE".to_owned(),
    }
}

/// The progress gauge percentage: zero with no tasks and while the
/// welcome task is current; else the task index's share of the total,
/// rounded to the nearest percent and capped at one hundred.
pub open spec fn spec_progress_percent(
    total: int,
    idx: int,
    step: Option<InstallationStep>,
) -> int {
    if total == 0 {
        0
    } else if step == Some(InstallationStep::Welcome) && idx == 0 {
        0
    } else {
        let p = (idx * 200 + total) / (2 * total);
        if p > 100 {
            100
        } else {
            p
        }
    }
}

/// The wizard progress percentage shown in the gauge.
pub fn progress_percent(
    total_tasks: usize,
    current_task_index: usize,
    step: Option<InstallationStep>,
) -> (r: u16)
    ensures
        r as int == spec_progress_percent(total_tasks as int, current_task_index as int, step),
{
    if total_tasks == 0 {
        return 0;
    }
    let on_welcome = match step {
        Some(InstallationStep::Welcome) => true,
        _ => false,
    };
    if on_welcome && current_task_index == 0 {
        return 0;
    }
    let p: u128 = ((current_task_index as u128) * 200 + (total_tasks as u128)) / (2 * (
    total_tasks as u128));
    if p > 100 {
        100
    } else {
        p as u16
    }
}

} // verus!

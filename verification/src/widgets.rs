//! UI building blocks: screens, dialogs, menu entries, and the rows of
//! the disk display list, together with their mathematical models.
use vstd::prelude::*;

verus! {

/// Type of menu item.
#[derive(Debug, Clone, Copy, PartialEq, Eq, Structural)]
pub enum MenuType {
    Simple,
    Card,
}

/// Menu entry: identity is the `id` string, stable across re-localization.
#[derive(Debug, Clone)]
pub struct MenuItem {
    pub id: String,
    pub title: String,
    pub description: String,
    pub menu_type: MenuType,
}

/// Model of a menu entry.
#[verifier::ext_equal]
pub struct MenuItemModel {
    pub id: Seq<char>,
    pub title: Seq<char>,
    pub description: Seq<char>,
    pub menu_type: MenuType,
}

impl View for MenuItem {
    type V = MenuItemModel;

    open spec fn view(&self) -> MenuItemModel {
        MenuItemModel {
            id: self.id@,
            title: self.title@,
            description: self.description@,
            menu_type: self.menu_type,
        }
    }
}

impl DeepView for MenuItem {
    type V = MenuItemModel;

    open spec fn deep_view(&self) -> MenuItemModel {
        self.view()
    }
}

/// The mutually exclusive top-level UI modes.
#[derive(Debug, Clone, Copy, PartialEq, Eq, Structural)]
pub enum Screen {
    MainMenu,
    LanguageSelect,
    KeyboardSelect,
    SystemInstallation,
    Message,
    ConfirmExit,
}

/// A modal overlay layered on top of a screen; at most one is active and
/// it captures all key input while open.
#[derive(Debug, Clone, PartialEq)]
pub enum DialogType {
    YesNo { title_key: String, message_key: String },
    ThemeSelector,
}

/// Model of a dialog.
#[verifier::ext_equal]
pub enum DialogModel {
    YesNo { title_key: Seq<char>, message_key: Seq<char> },
    ThemeSelector,
}

impl View for DialogType {
    type V = DialogModel;

    open spec fn view(&self) -> DialogModel {
        match self {
            DialogType::YesNo { title_key, message_key } => DialogModel::YesNo {
                title_key: title_key@,
                message_key: message_key@,
            },
            DialogType::ThemeSelector => DialogModel::ThemeSelector,
        }
    }
}

impl DeepView for DialogType {
    type V = DialogModel;

    open spec fn deep_view(&self) -> DialogModel {
        self.view()
    }
}

/// What a display-list row stands for.
#[derive(Debug, Clone, Copy, PartialEq, Eq, Structural, Hash)]
pub enum DisplayItemType {
    Disk,
    Partition,
    LuksContainer,
    LuksMappedContent,
    LvmVolumeGroup,
    LvmLogicalVolume,
    LvmPhysicalVolume,
    VeraCryptContainer,
    UnallocatedSpace,
    FileSystemItem,
    Label,
    Unknown,
}

/// One row of the flattened disk display list. `id_path` is hierarchical
/// and unique within one list; non-selectable rows exist for display only.
#[derive(Debug, Clone)]
pub struct DisplayListItem {
    pub id_path: String,
    pub display_text: String,
    pub indent_level: usize,
    pub item_type: DisplayItemType,
    pub selectable: bool,
    pub size_bytes: Option<u64>,
}

/// Model of a display-list row.
#[verifier::ext_equal]
pub struct DisplayListItemModel {
    pub id_path: Seq<char>,
    pub display_text: Seq<char>,
    pub indent_level: int,
    pub item_type: DisplayItemType,
    pub selectable: bool,
    pub size_bytes: Option<u64>,
}

impl View for DisplayListItem {
    type V = DisplayListItemModel;

    open spec fn view(&self) -> DisplayListItemModel {
        DisplayListItemModel {
            id_path: self.id_path@,
            display_text: self.display_text@,
            indent_level: self.indent_level as int,
            item_type: self.item_type,
            selectable: self.selectable,
            size_bytes: self.size_bytes,
        }
    }
}

impl DeepView for DisplayListItem {
    type V = DisplayListItemModel;

    open spec fn deep_view(&self) -> DisplayListItemModel {
        self.view()
    }
}

} // verus!

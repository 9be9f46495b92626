//! Localization gateway: maps symbolic keys to display strings for the
//! active language. The string tables are embedded; a key missing from
//! both the active and the English table resolves to the key itself, so
//! lookups never fail. The gateway is an explicit value handed to the
//! state machine, not process-global state.
use vstd::prelude::*;
use vstd::string::StringExecFns;

use crate::config::Config;
use crate::error::LunitoolError;
use crate::strutil::str_eq;

verus! {

/// The active language of the localization gateway.
#[derive(Debug, Clone)]
pub struct Localization {
    pub current_lang: String,
}

impl View for Localization {
    type V = Seq<char>;

    open spec fn view(&self) -> Seq<char> {
        self.current_lang@
    }
}

/// Whether the language code is in the supported set.
pub open spec fn is_supported_language(lang: Seq<char>) -> bool {
    lang == "de"@ || lang == "en"@
}

/// The German string table.
pub open spec fn text_de(key: Seq<char>) -> Option<Seq<char>> {
    if key == "LANG_TITLE"@ {
        Some("Linux Universal Tool"@)
    } else if key == "LANG_SUBTITLE"@ {
        Some("Zentrale Verwaltungsumgebung"@)
    } else if key == "LANG_LANGUAGE_SELECT"@ {
        Some("Sprache / Language"@)
    } else if key == "LANG_KEYBOARD_SELECT"@ {
        Some("Tastaturlayout"@)
    } else if key == "LANG_NAVIGATION"@ {
        Some("↑/↓: Navigation   Enter: Auswählen   Backspace: Zurück   ESC: Beenden"@)
    } else if key == "LANG_MAIN_MENU"@ {
        Some("Hauptmenü"@)
    } else if key == "LANG_INSTALL"@ {
        Some("System-Installation"@)
    } else if key == "LANG_INSTALL_DESC"@ {
        Some(
            "Neues Linux-System einrichten und konfigurieren. Partitionierung, Bootloader-Installation und Grundeinrichtung."@,
        )
    } else if key == "LANG_BACKUP"@ {
        Some("Sicherung & Wiederherstellung"@)
    } else if key == "LANG_BACKUP_DESC"@ {
        Some(
            "Systemsicherungen erstellen und verwalten. Daten wiederherstellen und Systemzustände sichern."@,
        )
    } else if key == "LANG_KEYS"@ {
        Some("Schlüssel-Verwaltung"@)
    } else if key == "LANG_KEYS_DESC"@ {
        Some(
            "Kryptografische Schlüssel für Boot-USB und Systemverschlüsselung erstellen und verwalten."@,
        )
    } else if key == "LANG_EXIT_CONFIRM"@ {
        Some("Möchtest du lunitool wirklich beenden?"@)
    } else if key == "LANG_YES"@ {
        Some("Ja"@)
    } else if key == "LANG_NO"@ {
        Some("Nein"@)
    } else if key == "LANG_INVALID_SELECTION"@ {
        Some("Ungültige Auswahl"@)
    } else if key == "LANG_NOT_IMPLEMENTED"@ {
        Some(
            "Diese Funktion ist noch nicht implementiert und wird in einer zukünftigen Version verfügbar sein."@,
        )
    } else {
        None
    }
}

/// The English string table.
pub open spec fn text_en(key: Seq<char>) -> Option<Seq<char>> {
    if key == "LANG_TITLE"@ {
        Some("Linux Universal Tool"@)
    } else if key == "LANG_SUBTITLE"@ {
        Some("Central Management Environment"@)
    } else if key == "LANG_LANGUAGE_SELECT"@ {
        Some("Language / Sprache"@)
    } else if key == "LANG_KEYBOARD_SELECT"@ {
        Some("Keyboard Layout"@)
    } else if key == "LANG_NAVIGATION"@ {
        Some("↑/↓: Navigation   Enter: Select   Backspace: Back   ESC: Exit"@)
    } else if key == "LANG_MAIN_MENU"@ {
        Some("Main Menu"@)
    } else if key == "LANG_INSTALL"@ {
        Some("System Installation"@)
    } else if key == "LANG_INSTALL_DESC"@ {
        Some(
            "Set up and configure a new Linux system. Partitioning, bootloader installation and basic configuration."@,
        )
    } else if key == "LANG_BACKUP"@ {
        Some("Backup & Restore"@)
    } else if key == "LANG_BACKUP_DESC"@ {
        Some("Create and manage system backups. Restore data and preserve system states."@)
    } else if key == "LANG_KEYS"@ {
        Some("Key Management"@)
    } else if key == "LANG_KEYS_DESC"@ {
        Some("Create and manage cryptographic keys for boot USB drives and system encryption."@)
    } else if key == "LANG_EXIT_CONFIRM"@ {
        Some("Do you really want to exit lunitool?"@)
    } else if key == "LANG_YES"@ {
        Some("Yes"@)
    } else if key == "LANG_NO"@ {
        Some("No"@)
    } else if key == "LANG_INVALID_SELECTION"@ {
        Some("Invalid selection"@)
    } else if key == "LANG_NOT_IMPLEMENTED"@ {
        Some("This feature is not yet implemented and will be available in a future version."@)
    } else {
        None
    }
}

/// The table of the given language, `None` for an unsupported language.
pub open spec fn lang_table(lang: Seq<char>, key: Seq<char>) -> Option<Seq<char>> {
    if lang == "de"@ {
        text_de(key)
    } else if lang == "en"@ {
        text_en(key)
    } else {
        None
    }
}

/// What a key resolves to under the active language: the active table's
/// entry, else the English table's entry, else the key itself.
pub open spec fn spec_get_text(current: Seq<char>, key: Seq<char>) -> Seq<char> {
    match lang_table(current, key) {
        Some(t) => t,
        None => match text_en(key) {
            Some(t) => t,
            None => key,
        },
    }
}

impl Localization {
    /// A gateway starting in the default language (German).
    pub fn new() -> (r: Self)
        ensures
            r@ == "de"@,
    {
        Localization { current_lang: "de".to_owned() }
    }
}

fn lookup_de(key: &str) -> (r: Option<String>)
    ensures
        r.deep_view() == text_de(key@),
{
    if str_eq(key, "LANG_TITLE") {
        Some("Linux Universal Tool".to_owned())
    } else if str_eq(key, "LANG_SUBTITLE") {
        Some("Zentrale Verwaltungsumgebung".to_owned())
    } else if str_eq(key, "LANG_LANGUAGE_SELECT") {
        Some("Sprache / Language".to_owned())
    } else if str_eq(key, "LANG_KEYBOARD_SELECT") {
        Some("Tastaturlayout".to_owned())
    } else if str_eq(key, "LANG_NAVIGATION") {
        Some("↑/↓: Navigation   Enter: Auswählen   Backspace: Zurück   ESC: Beenden".to_owned())
    } else if str_eq(key, "LANG_MAIN_MENU") {
        Some("Hauptmenü".to_owned())
    } else if str_eq(key, "LANG_INSTALL") {
        Some("System-Installation".to_owned())
    } else if str_eq(key, "LANG_INSTALL_DESC") {
        Some(
            "Neues Linux-System einrichten und konfigurieren. Partitionierung, Bootloader-Installation und Grundeinrichtung.".to_owned(),
        )
    } else if str_eq(key, "LANG_BACKUP") {
        Some("Sicherung & Wiederherstellung".to_owned())
    } else if str_eq(key, "LANG_BACKUP_DESC") {
        Some(
            "Systemsicherungen erstellen und verwalten. Daten wiederherstellen und Systemzustände sichern.".to_owned(),
        )
    } else if str_eq(key, "LANG_KEYS") {
        Some("Schlüssel-Verwaltung".to_owned())
    } else if str_eq(key, "LANG_KEYS_DESC") {
        Some(
            "Kryptografische Schlüssel für Boot-USB und Systemverschlüsselung erstellen und verwalten.".to_owned(),
        )
    } else if str_eq(key, "LANG_EXIT_CONFIRM") {
        Some("Möchtest du lunitool wirklich beenden?".to_owned())
    } else if str_eq(key, "LANG_YES") {
        Some("Ja".to_owned())
    } else if str_eq(key, "LANG_NO") {
        Some("Nein".to_owned())
    } else if str_eq(key, "LANG_INVALID_SELECTION") {
        Some("Ungültige Auswahl".to_owned())
    } else if str_eq(key, "LANG_NOT_IMPLEMENTED") {
        Some(
            "Diese Funktion ist noch nicht implementiert und wird in einer zukünftigen Version verfügbar sein.".to_owned(),
        )
    } else {
        None
    }
}

fn lookup_en(key: &str) -> (r: Option<String>)
    ensures
        r.deep_view() == text_en(key@),
{
    if str_eq(key, "LANG_TITLE") {
        Some("Linux Universal Tool".to_owned())
    } else if str_eq(key, "LANG_SUBTITLE") {
        Some("Central Management Environment".to_owned())
    } else if str_eq(key, "LANG_LANGUAGE_SELECT") {
        Some("Language / Sprache".to_owned())
    } else if str_eq(key, "LANG_KEYBOARD_SELECT") {
        Some("Keyboard Layout".to_owned())
    } else if str_eq(key, "LANG_NAVIGATION") {
        Some("↑/↓: Navigation   Enter: Select   Backspace: Back   ESC: Exit".to_owned())
    } else if str_eq(key, "LANG_MAIN_MENU") {
        Some("Main Menu".to_owned())
    } else if str_eq(key, "LANG_INSTALL") {
        Some("System Installation".to_owned())
    } else if str_eq(key, "LANG_INSTALL_DESC") {
        Some(
            "Set up and configure a new Linux system. Partitioning, bootloader installation and basic configuration.".to_owned(),
        )
    } else if str_eq(key, "LANG_BACKUP") {
        Some("Backup & Restore".to_owned())
    } else if str_eq(key, "LANG_BACKUP_DESC") {
        Some("Create and manage system backups. Restore data and preserve system states.".to_owned())
    } else if str_eq(key, "LANG_KEYS") {
        Some("Key Management".to_owned())
    } else if str_eq(key, "LANG_KEYS_DESC") {
        Some(
            "Create and manage cryptographic keys for boot USB drives and system encryption.".to_owned(),
        )
    } else if str_eq(key, "LANG_EXIT_CONFIRM") {
        Some("Do you really want to exit lunitool?".to_owned())
    } else if str_eq(key, "LANG_YES") {
        Some("Yes".to_owned())
    } else if str_eq(key, "LANG_NO") {
        Some("No".to_owned())
    } else if str_eq(key, "LANG_INVALID_SELECTION") {
        Some("Invalid selection".to_owned())
    } else if str_eq(key, "LANG_NOT_IMPLEMENTED") {
        Some(
            "This feature is not yet implemented and will be available in a future version.".to_owned(),
        )
    } else {
        None
    }
}

/// Sets the current language. Fails, leaving the gateway unchanged, if
/// and only if the language is not in the supported set.
pub fn set_language(loc: &mut Localization, lang: &str) -> (r: Result<(), LunitoolError>)
    ensures
        is_supported_language(lang@) ==> r is Ok && final(loc)@ == lang@,
        !is_supported_language(lang@) ==> *final(loc) == *old(loc) && (r matches Err(e) && e
            matches LunitoolError::Language(m) && m@ == "Unsupported language: "@ + lang@),
{
    if str_eq(lang, "de") || str_eq(lang, "en") {
        loc.current_lang = lang.to_owned();
        Ok(())
    } else {
        let mut msg = "Unsupported language: ".to_owned();
        msg.append(lang);
        Err(LunitoolError::Language(msg))
    }
}

/// Switches the gateway to the given language; the language-file handling
/// of earlier versions is gone, so this is the whole of loading.
pub fn load_language(loc: &mut Localization, lang: &str) -> (r: Result<(), LunitoolError>)
    ensures
        is_supported_language(lang@) ==> r is Ok && final(loc)@ == lang@,
        !is_supported_language(lang@) ==> *final(loc) == *old(loc) && (r matches Err(e) && e
            matches LunitoolError::Language(m) && m@ == "Unsupported language: "@ + lang@),
{
    set_language(loc, lang)
}

/// Applies the configured startup language to the gateway.
pub fn initialize_language(loc: &mut Localization, config: &Config) -> (r: Result<
    (),
    LunitoolError,
>)
    ensures
        is_supported_language(config.current_lang@) ==> r is Ok && final(loc)@
            == config.current_lang@,
        !is_supported_language(config.current_lang@) ==> r is Err && *final(loc) == *old(loc),
{
    set_language(loc, config.current_lang.as_str())
}

/// Resolves a key to its display string under the active language,
/// falling back to English, then to the key itself.
pub fn get_text(loc: &Localization, key: &str) -> (r: String)
    ensures
        r@ == spec_get_text(loc@, key@),
{
    let from_current: Option<String> = if str_eq(loc.current_lang.as_str(), "de") {
        lookup_de(key)
    } else if str_eq(loc.current_lang.as_str(), "en") {
        lookup_en(key)
    } else {
        None
    };
    match from_current {
        Some(t) => t,
        None => match lookup_en(key) {
            Some(t) => t,
            None => key.to_owned(),
        },
    }
}

} // verus!

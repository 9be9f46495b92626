//! Application configuration data. Reading and writing the configuration
//! file is done outside the library; the library holds the plain values.
use vstd::prelude::*;
use vstd::string::StringExecFns;

verus! {

/// Application configuration.
#[derive(Debug, Clone)]
pub struct Config {
    pub current_lang: String,
    pub keyboard: String,
    pub debug_mode: bool,
    pub log_file: String,
    pub ui: UiConfig,
}

/// UI-specific configuration.
#[derive(Debug, Clone)]
pub struct UiConfig {
    pub theme: String,
    pub auto_size: bool,
}

/// Model of the configuration.
#[verifier::ext_equal]
pub struct ConfigModel {
    pub current_lang: Seq<char>,
    pub keyboard: Seq<char>,
    pub debug_mode: bool,
    pub log_file: Seq<char>,
    pub ui_theme: Seq<char>,
    pub ui_auto_size: bool,
}

impl View for Config {
    type V = ConfigModel;

    open spec fn view(&self) -> ConfigModel {
        ConfigModel {
            current_lang: self.current_lang@,
            keyboard: self.keyboard@,
            debug_mode: self.debug_mode,
            log_file: self.log_file@,
            ui_theme: self.ui.theme@,
            ui_auto_size: self.ui.auto_size,
        }
    }
}

impl Default for Config {
    /// The configuration used when no configuration file exists: German
    /// language and keyboard, debug logging into `lunitool.log`.
    fn default() -> (c: Self)
        ensures
            c.current_lang@ == "de"@,
            c.keyboard@ == "de"@,
            c.debug_mode == true,
            c.log_file@ == "lunitool.log"@,
            c.ui.theme@ == "default"@,
            c.ui.auto_size == true,
    {
        Config {
            current_lang: "de".to_owned(),
            keyboard: "de".to_owned(),
            debug_mode: true,
            log_file: "lunitool.log".to_owned(),
            ui: UiConfig { theme: "default".to_owned(), auto_size: true },
        }
    }
}

} // verus!

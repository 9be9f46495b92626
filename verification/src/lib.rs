//! Interactive terminal installer/management shell: UI state machine,
//! input dispatch, installation wizard, and disk display-list building.
//!
//! The library holds the verified core: navigation state, key handling,
//! localization tables, and the pure projection of disk topology into a
//! selectable display list. Terminal rendering and operating-system calls
//! live outside the library.
use vstd::prelude::*;
use vstd::string::StringExecFns;

pub mod config;
pub mod disk_info;
pub mod display;
pub mod error;
pub mod widgets;
pub mod lang;
pub mod app;
pub mod strutil;
pub mod tui;
pub mod system_info;
pub mod theme;
pub mod tools;

verus! {

/// Directory holding core components, relative to the installation base.
pub fn get_core_dir(base: &str) -> (r: String)
    ensures
        r@ == base@ + "/core"@,
{
    let mut s = base.to_owned();
    s.append("/core");
    s
}

/// Directory holding the tool modules, relative to the installation base.
pub fn get_tools_dir(base: &str) -> (r: String)
    ensures
        r@ == base@ + "/tools"@,
{
    let mut s = base.to_owned();
    s.append("/tools");
    s
}

/// Directory holding helper scripts, relative to the installation base.
pub fn get_scripts_dir(base: &str) -> (r: String)
    ensures
        r@ == base@ + "/scripts"@,
{
    let mut s = base.to_owned();
    s.append("/scripts");
    s
}

/// Directory holding configuration files, relative to the installation base.
pub fn get_config_dir(base: &str) -> (r: String)
    ensures
        r@ == base@ + "/configs"@,
{
    let mut s = base.to_owned();
    s.append("/configs");
    s
}

/// Directory holding bundled resources, relative to the installation base.
pub fn get_resources_dir(base: &str) -> (r: String)
    ensures
        r@ == base@ + "/resources"@,
{
    let mut s = base.to_owned();
    s.append("/resources");
    s
}

} // verus!

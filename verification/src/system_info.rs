//! System information as plain values. Collecting it (hardware probes,
//! live-environment and package-manager detection) happens outside the
//! library; the library holds the collected record.
use vstd::prelude::*;

verus! {

/// System information.
#[derive(Debug)]
pub struct SystemInfo {
    /// Operating system name and version
    pub os_info: String,
    /// Kernel version
    pub kernel: String,
    /// System architecture
    pub architecture: String,
    /// Available disk space
    pub disk_space: String,
    /// Available RAM
    pub ram: String,
    /// Is this a live environment
    pub is_live: bool,
    /// Package manager
    pub package_manager: String,
    /// Additional system properties
    pub properties: Vec<(String, String)>,
}

} // verus!

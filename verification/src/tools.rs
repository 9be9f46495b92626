//! Entry points of the tool modules. The real work — backups over rsync,
//! disk partitioning, bootloader installation, key generation — runs
//! through operating-system commands outside the library; these entry
//! points hold what the library owns of them, which is currently the
//! successful hand-off into each module.
use vstd::prelude::*;

use crate::error::LunitoolError;

verus! {

/// Starts the backup module.
pub fn start_backup() -> (r: Result<(), LunitoolError>)
    ensures
        r is Ok,
{
    Ok(())
}

/// Starts the installation module.
pub fn start_installation() -> (r: Result<(), LunitoolError>)
    ensures
        r is Ok,
{
    Ok(())
}

/// Starts the key-management module.
pub fn start_key_config() -> (r: Result<(), LunitoolError>)
    ensures
        r is Ok,
{
    Ok(())
}

} // verus!

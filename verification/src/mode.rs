//! Run mode: packaged bundle or development checkout.

use vstd::prelude::*;

verus! {

/// The execution context of the shell, decided once at startup.
#[derive(Clone, Copy, Debug, PartialEq, Eq, Structural)]
pub enum RunMode {
    /// Running from a packaged bundle that carries the server files.
    Production,
    /// Running from a source checkout.
    Development,
}

/// The run mode that follows from whether the bundled server directory exists.
pub open spec fn run_mode_of(server_dir_exists: bool) -> RunMode {
    if server_dir_exists {
        RunMode::Production
    } else {
        RunMode::Development
    }
}

/// Resolves the run mode from the outcome of the existence check on the
/// bundled server directory. Never fails: without the directory the shell
/// runs in development mode.
pub fn resolve_run_mode(server_dir_exists: bool) -> (mode: RunMode)
    ensures
        mode == run_mode_of(server_dir_exists),
{
    if server_dir_exists {
        RunMode::Production
    } else {
        RunMode::Development
    }
}

} // verus!

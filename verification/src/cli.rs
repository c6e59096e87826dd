//! The commands of the `entropy` program.
use vstd::prelude::*;

use crate::poacher::cli::PoachCmd;

verus! {

/// The `web` sub-commands.
#[derive(Clone, Copy, Debug, PartialEq, Eq, Structural)]
pub enum WebCmd {
    /// Run development server
    Dev,
    /// Build the public static site
    Build,
}

/// The top-level commands.
#[derive(Clone, Copy, Debug, PartialEq, Eq, Structural)]
pub enum CliCmd {
    /// Manage scrappers for aggregating content from web
    Poach(PoachCmd),
    /// Manage entropy web apps
    Web(WebCmd),
}

/// The command line: a verbosity level and a command.
#[derive(Clone, Copy, Debug, PartialEq, Eq, Structural)]
pub struct CliOpts {
    pub verbosity: i32,
    pub cmd: CliCmd,
}

/// The log level for the number of `-v` flags: info, then debug, then trace.
pub fn log_level(verbosity: i32) -> (level: &'static str)
    ensures
        verbosity == 0 ==> level@ == "info"@,
        verbosity == 1 ==> level@ == "debug"@,
        verbosity != 0 && verbosity != 1 ==> level@ == "trace"@,
{
    if verbosity == 0 {
        "info"
    } else if verbosity == 1 {
        "debug"
    } else {
        "trace"
    }
}

} // verus!

//! The commands, as parsed from the command line.
use vstd::prelude::*;

verus! {

/// A parsed command line.
pub struct Cli {
    pub command: Commands,
    /// Only errors are shown.
    pub silent: bool,
    /// Detailed messages are shown too.
    pub verbose: bool,
}

pub enum Commands {
    /// Make a selection and store it.
    Select {
        items: Vec<String>,
        regex: Option<String>,
        interactive: bool,
        path: Option<String>,
        dry_run: bool,
    },
    /// Copy the stored selection into the current directory.
    Copy { force: bool },
    /// Move the stored selection into the current directory.
    Move { force: bool },
}

} // verus!

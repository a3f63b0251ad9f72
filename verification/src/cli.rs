//! The command line: global options and the command to run.

use crate::commands::Commands;
use vstd::prelude::*;

verus! {

/// The parsed command line.
pub struct Cli {
    /// How many times `-v` was given.
    pub verbose: u8,
    /// Whether non-essential output is suppressed.
    pub quiet: bool,
    /// Whether colour is turned off.
    pub no_color: bool,
    pub command: Commands,
}

/// The arguments of the command that checks a file in the compact format.
pub struct Validate {
    pub path: String,
}

} // verus!

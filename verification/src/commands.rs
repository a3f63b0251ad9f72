//! The commands of the tool.

use vstd::prelude::*;

verus! {

/// The shells completion scripts can be generated for.
#[derive(Debug, Clone, Copy, PartialEq, Eq, Structural)]
pub enum Completions {
    Bash,
    Elvish,
    Fish,
    PowerShell,
    Zsh,
}

/// The commands on deployed laboratories.
pub enum Laboratories {
    List,
    Start { name: String },
    Stop { name: String },
    Destroy { name: String },
}

/// The commands of the tool.
pub enum Commands {
    /// Prints a completion script.
    Completions(Completions),
    /// Checks a configuration file.
    Validate { path: String },
    /// Deploys a laboratory from a configuration file.
    Deploy { path: String },
    /// Checks the host's readiness.
    Doctor,
    /// Diagnoses a failed or partial deployment.
    Diagnose { name: String },
    /// Manages deployed laboratories.
    Laboratories(Laboratories),
}

} // verus!

//! Errors of the first-boot configuration builders.

use crate::errors::template::Template;
use vstd::prelude::*;

verus! {

/// A first-boot configuration that could not be built.
pub enum Seeders {
    /// A declared script could not be read.
    ScriptReadFailed { path: String, reason: String },
    /// A seed template could not be rendered.
    Template { source: Template },
    /// The package manager gave no install command.
    PackageInstallCommandUnavailable { manager: String },
    /// The seed image could not be built or is not valid.
    IsoCreationFailed { reason: String },
}

} // verus!

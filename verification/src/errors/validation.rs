//! Errors found while reading or checking a laboratory configuration.

use vstd::prelude::*;

verus! {

/// A region of the configuration text: a byte offset and a byte length.
#[derive(Debug, Clone, Copy, PartialEq, Eq, Structural)]
pub struct SourceSpan {
    pub offset: usize,
    pub length: usize,
}

/// A problem found in a laboratory configuration. Spans locate the offending
/// value in the configuration text.
pub enum Validation {
    /// No file at the configuration path.
    ConfigurationNotFound { path: String },
    /// The configuration text is not valid TOML or does not fit the schema.
    InvalidConfiguration { message: String, span: Option<SourceSpan> },
    /// The configuration file could not be read.
    ConfigurationReadError { path: String, reason: String },
    /// The configuration path names a directory.
    ConfigurationPathIsDirectory { path: String },
    /// The configuration file is not UTF-8 text.
    ConfigurationInvalidUtf8 { path: String },
    /// A machine asks for no CPU at all.
    InsufficientCpu { span: SourceSpan, machine_identifier: String, actual: u32 },
    /// A machine asks for less memory than the minimum.
    InsufficientMemory { span: SourceSpan, machine_identifier: String, actual: u32, minimum: u32 },
    /// A machine asks for more CPUs than the host has.
    ExcessiveCpu { span: SourceSpan, machine_identifier: String, requested: u32, host_cpus: usize },
    /// A machine asks for more memory than the host has.
    ExcessiveMemory { span: SourceSpan, machine_identifier: String, requested: u32, host_memory_megabyte: u64 },
    /// A machine image has no extension or one the provider does not support.
    InvalidImageExtension { span: SourceSpan, machine_identifier: String, actual: String, supported: String },
    /// A machine image path is blank.
    EmptyImagePath { span: SourceSpan, machine_identifier: String },
    /// A machine image does not exist.
    ImageNotFound { span: SourceSpan, machine_identifier: String, path: String },
    /// A machine image is not a regular file.
    ImageIsNotAFile { span: SourceSpan, machine_identifier: String, path: String },
    /// A user has a blank name.
    EmptyUsername { span: SourceSpan, machine_identifier: String },
    /// A user has a blank password.
    EmptyPassword { span: SourceSpan, machine_identifier: String },
    /// A machine declares no user.
    EmptyUsers { span: SourceSpan, machine_identifier: String },
    /// A machine declares the same (trimmed) user name twice.
    DuplicateUsername { span: SourceSpan, machine_identifier: String, username: String },
    /// The package list is empty or holds a blank name.
    EmptyPackageName { span: SourceSpan, machine_identifier: String },
    /// A package name starts with a hyphen.
    InvalidPackageName { span: SourceSpan, machine_identifier: String, package: String },
    /// The package manager does not serve the operating system.
    IncompatibleManager { span: SourceSpan, machine_identifier: String, manager: String, distribution: String, compatible_managers: String },
    /// A script path is blank.
    EmptyScriptPath { span: SourceSpan, machine_identifier: String },
    /// A script timeout lies outside 1 to 3600 seconds.
    InvalidScriptTimeout { span: SourceSpan, machine_identifier: String, actual: u32 },
    /// A script does not exist.
    ScriptNotFound { span: SourceSpan, machine_identifier: String, path: String },
    /// A script is not a regular file.
    ScriptIsNotAFile { span: SourceSpan, machine_identifier: String, path: String },
    /// A script of a Windows machine is not a PowerShell (`ps1`) file.
    InvalidWindowsScriptExtension { span: SourceSpan, machine_identifier: String, actual: String },
    /// Two scripts of a machine share a (trimmed) file name.
    DuplicateScriptFilename { span: SourceSpan, machine_identifier: String, filename: String },
    /// The configuration declares no machine.
    EmptyMachines { span: SourceSpan },
    /// Two machines share an identifier.
    DuplicateMachineIdentifier { span: SourceSpan, identifier: String, indices: String },
    /// The configuration format version is not the supported one.
    FormatVersionMismatch { span: SourceSpan, actual: u64, expected: u64 },
}

/// `Validation` with its texts taken as character sequences.
pub enum ValidationView {
    ConfigurationNotFound { path: Seq<char> },
    InvalidConfiguration { message: Seq<char>, span: Option<SourceSpan> },
    ConfigurationReadError { path: Seq<char>, reason: Seq<char> },
    ConfigurationPathIsDirectory { path: Seq<char> },
    ConfigurationInvalidUtf8 { path: Seq<char> },
    InsufficientCpu { span: SourceSpan, machine_identifier: Seq<char>, actual: u32 },
    InsufficientMemory { span: SourceSpan, machine_identifier: Seq<char>, actual: u32, minimum: u32 },
    ExcessiveCpu { span: SourceSpan, machine_identifier: Seq<char>, requested: u32, host_cpus: usize },
    ExcessiveMemory { span: SourceSpan, machine_identifier: Seq<char>, requested: u32, host_memory_megabyte: u64 },
    InvalidImageExtension { span: SourceSpan, machine_identifier: Seq<char>, actual: Seq<char>, supported: Seq<char> },
    EmptyImagePath { span: SourceSpan, machine_identifier: Seq<char> },
    ImageNotFound { span: SourceSpan, machine_identifier: Seq<char>, path: Seq<char> },
    ImageIsNotAFile { span: SourceSpan, machine_identifier: Seq<char>, path: Seq<char> },
    EmptyUsername { span: SourceSpan, machine_identifier: Seq<char> },
    EmptyPassword { span: SourceSpan, machine_identifier: Seq<char> },
    EmptyUsers { span: SourceSpan, machine_identifier: Seq<char> },
    DuplicateUsername { span: SourceSpan, machine_identifier: Seq<char>, username: Seq<char> },
    EmptyPackageName { span: SourceSpan, machine_identifier: Seq<char> },
    InvalidPackageName { span: SourceSpan, machine_identifier: Seq<char>, package: Seq<char> },
    IncompatibleManager { span: SourceSpan, machine_identifier: Seq<char>, manager: Seq<char>, distribution: Seq<char>, compatible_managers: Seq<char> },
    EmptyScriptPath { span: SourceSpan, machine_identifier: Seq<char> },
    InvalidScriptTimeout { span: SourceSpan, machine_identifier: Seq<char>, actual: u32 },
    ScriptNotFound { span: SourceSpan, machine_identifier: Seq<char>, path: Seq<char> },
    ScriptIsNotAFile { span: SourceSpan, machine_identifier: Seq<char>, path: Seq<char> },
    InvalidWindowsScriptExtension { span: SourceSpan, machine_identifier: Seq<char>, actual: Seq<char> },
    DuplicateScriptFilename { span: SourceSpan, machine_identifier: Seq<char>, filename: Seq<char> },
    EmptyMachines { span: SourceSpan },
    DuplicateMachineIdentifier { span: SourceSpan, identifier: Seq<char>, indices: Seq<char> },
    FormatVersionMismatch { span: SourceSpan, actual: u64, expected: u64 },
}

impl View for Validation {
    type V = ValidationView;

    open spec fn view(&self) -> ValidationView {
        match self {
            Validation::ConfigurationNotFound { path } => ValidationView::ConfigurationNotFound { path: path@ },
            Validation::InvalidConfiguration { message, span } => ValidationView::InvalidConfiguration { message: message@, span: *span },
            Validation::ConfigurationReadError { path, reason } => ValidationView::ConfigurationReadError { path: path@, reason: reason@ },
            Validation::ConfigurationPathIsDirectory { path } => ValidationView::ConfigurationPathIsDirectory { path: path@ },
            Validation::ConfigurationInvalidUtf8 { path } => ValidationView::ConfigurationInvalidUtf8 { path: path@ },
            Validation::InsufficientCpu { span, machine_identifier, actual } => ValidationView::InsufficientCpu { span: *span, machine_identifier: machine_identifier@, actual: *actual },
            Validation::InsufficientMemory { span, machine_identifier, actual, minimum } => ValidationView::InsufficientMemory { span: *span, machine_identifier: machine_identifier@, actual: *actual, minimum: *minimum },
            Validation::ExcessiveCpu { span, machine_identifier, requested, host_cpus } => ValidationView::ExcessiveCpu { span: *span, machine_identifier: machine_identifier@, requested: *requested, host_cpus: *host_cpus },
            Validation::ExcessiveMemory { span, machine_identifier, requested, host_memory_megabyte } => ValidationView::ExcessiveMemory { span: *span, machine_identifier: machine_identifier@, requested: *requested, host_memory_megabyte: *host_memory_megabyte },
            Validation::InvalidImageExtension { span, machine_identifier, actual, supported } => ValidationView::InvalidImageExtension { span: *span, machine_identifier: machine_identifier@, actual: actual@, supported: supported@ },
            Validation::EmptyImagePath { span, machine_identifier } => ValidationView::EmptyImagePath { span: *span, machine_identifier: machine_identifier@ },
            Validation::ImageNotFound { span, machine_identifier, path } => ValidationView::ImageNotFound { span: *span, machine_identifier: machine_identifier@, path: path@ },
            Validation::ImageIsNotAFile { span, machine_identifier, path } => ValidationView::ImageIsNotAFile { span: *span, machine_identifier: machine_identifier@, path: path@ },
            Validation::EmptyUsername { span, machine_identifier } => ValidationView::EmptyUsername { span: *span, machine_identifier: machine_identifier@ },
            Validation::EmptyPassword { span, machine_identifier } => ValidationView::EmptyPassword { span: *span, machine_identifier: machine_identifier@ },
            Validation::EmptyUsers { span, machine_identifier } => ValidationView::EmptyUsers { span: *span, machine_identifier: machine_identifier@ },
            Validation::DuplicateUsername { span, machine_identifier, username } => ValidationView::DuplicateUsername { span: *span, machine_identifier: machine_identifier@, username: username@ },
            Validation::EmptyPackageName { span, machine_identifier } => ValidationView::EmptyPackageName { span: *span, machine_identifier: machine_identifier@ },
            Validation::InvalidPackageName { span, machine_identifier, package } => ValidationView::InvalidPackageName { span: *span, machine_identifier: machine_identifier@, package: package@ },
            Validation::IncompatibleManager { span, machine_identifier, manager, distribution, compatible_managers } => ValidationView::IncompatibleManager { span: *span, machine_identifier: machine_identifier@, manager: manager@, distribution: distribution@, compatible_managers: compatible_managers@ },
            Validation::EmptyScriptPath { span, machine_identifier } => ValidationView::EmptyScriptPath { span: *span, machine_identifier: machine_identifier@ },
            Validation::InvalidScriptTimeout { span, machine_identifier, actual } => ValidationView::InvalidScriptTimeout { span: *span, machine_identifier: machine_identifier@, actual: *actual },
            Validation::ScriptNotFound { span, machine_identifier, path } => ValidationView::ScriptNotFound { span: *span, machine_identifier: machine_identifier@, path: path@ },
            Validation::ScriptIsNotAFile { span, machine_identifier, path } => ValidationView::ScriptIsNotAFile { span: *span, machine_identifier: machine_identifier@, path: path@ },
            Validation::InvalidWindowsScriptExtension { span, machine_identifier, actual } => ValidationView::InvalidWindowsScriptExtension { span: *span, machine_identifier: machine_identifier@, actual: actual@ },
            Validation::DuplicateScriptFilename { span, machine_identifier, filename } => ValidationView::DuplicateScriptFilename { span: *span, machine_identifier: machine_identifier@, filename: filename@ },
            Validation::EmptyMachines { span } => ValidationView::EmptyMachines { span: *span },
            Validation::DuplicateMachineIdentifier { span, identifier, indices } => ValidationView::DuplicateMachineIdentifier { span: *span, identifier: identifier@, indices: indices@ },
            Validation::FormatVersionMismatch { span, actual, expected } => ValidationView::FormatVersionMismatch { span: *span, actual: *actual, expected: *expected },
        }
    }
}

/// The outcome of a check, with the error (if any) taken by its view.
pub open spec fn verdict(outcome: Result<(), Validation>) -> Option<ValidationView> {
    match outcome {
        Ok(()) => None,
        Err(error) => Some(error@),
    }
}

} // verus!

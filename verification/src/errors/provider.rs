//! Errors of the virtualization provider.

use crate::errors::template::Template;
use vstd::prelude::*;

verus! {

/// A failed provider operation.
pub enum Provider {
    /// The back end cannot be reached.
    Unavailable { provider: String, diagnostics: String, remediation: String },
    /// No machine has the identifier.
    MachineNotFound { identifier: String },
    /// A machine with the identifier exists already.
    MachineAlreadyExists { identifier: String },
    /// Something went wrong inside the provider.
    Internal { reason: String },
    /// The drive to attach does not exist.
    DriveNotFound { path: String },
    /// The drive to attach is not a regular file.
    DriveInvalid { path: String },
    /// An operation of the back end failed.
    OperationFailed { operation: String, identifier: String, reason: String, remediation: String },
    /// A provider template could not be rendered.
    Template { source: Template },
    /// The host lacks a resource.
    ResourceExhausted { resource_type: String, available: u64, required: u64 },
}

} // verus!

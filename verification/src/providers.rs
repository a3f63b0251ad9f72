//! Virtualization providers: what they are handed, and the decisions of the
//! libvirt back end.

pub mod kvm;
pub mod libvirt;
pub mod definitions;

use crate::laboratories::identifier::Identifier;
use crate::laboratories::laboratory::Laboratory;
use crate::laboratories::machines::machine::Machine;
use vstd::prelude::*;

verus! {

/// What a provider needs to create a machine: its laboratory, its
/// configuration and the disk image prepared for it.
pub struct MachineDefinition {
    pub laboratory: Laboratory,
    pub machine: Machine,
    pub image: String,
}

/// A drive to attach to a machine: the machine and the image file.
pub struct Drive {
    pub identifier: Identifier,
    pub path: String,
}

} // verus!

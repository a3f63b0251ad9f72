//! A virtual machine of the compact format.

pub mod hardware;
pub mod operating_system;

use crate::laboratory::virtual_machine::hardware::Hardware;
use crate::laboratory::virtual_machine::operating_system::OperatingSystem;
use vstd::prelude::*;

verus! {

/// A virtual machine: its names, package and script files, hardware and
/// operating system.
pub struct VirtualMachine {
    pub id: String,
    pub name: String,
    pub packages: Vec<String>,
    pub scripts: Vec<String>,
    pub hardware: Hardware,
    pub operating_system: OperatingSystem,
}

} // verus!

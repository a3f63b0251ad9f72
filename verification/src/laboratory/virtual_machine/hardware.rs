//! The hardware of a virtual machine in the compact format.

use vstd::prelude::*;

verus! {

/// CPUs, memory and disk of a virtual machine.
#[derive(Debug, Clone, Copy, PartialEq, Eq, Structural)]
pub struct Hardware {
    pub cpus: u16,
    pub memory_megabyte: u32,
    pub disk_gigabyte: u32,
}

} // verus!

//! The compact laboratory file format: a provider, a network policy and a
//! list of virtual machines.

pub mod network;
pub mod provider;
pub mod virtual_machine;

use crate::laboratory::network::Network;
use crate::laboratory::provider::Provider;
use crate::laboratory::virtual_machine::VirtualMachine;
use vstd::prelude::*;

verus! {

/// A laboratory in the compact file format.
pub struct Laboratory {
    pub version: u16,
    pub provider: Provider,
    pub network: Network,
    pub virtual_machines: Vec<VirtualMachine>,
}

} // verus!

//! The network section of the compact format.

use vstd::prelude::*;

verus! {

/// What becomes of the laboratory network.
#[derive(Debug, Clone, Copy, PartialEq, Eq, Structural)]
pub enum Policy {
    Keep,
    Remove,
}

/// The network section.
pub struct Network {
    pub policy: Policy,
}

} // verus!

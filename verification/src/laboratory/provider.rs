//! The provider section of the compact format.

use vstd::prelude::*;

verus! {

/// The kinds of provider.
#[derive(Debug, Clone, Copy, PartialEq, Eq, Structural)]
pub enum Type {
    Kvm,
}

/// The provider section.
pub struct Provider {
    pub kind: Type,
}

} // verus!

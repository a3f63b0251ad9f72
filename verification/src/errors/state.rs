//! Errors of the machine lifecycle.

use crate::state::Machine;
use vstd::prelude::*;

verus! {

/// A refused lifecycle operation.
pub enum State {
    /// The lifecycle does not lead from `current` to `attempted`;
    /// `valid_transitions` lists the states it does lead to.
    InvalidTransition { current: Machine, attempted: Machine, valid_transitions: String },
    /// A text that names no lifecycle state.
    UnknownState { value: String },
}

} // verus!

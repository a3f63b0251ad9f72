//! Errors of the template engine.

use vstd::prelude::*;

verus! {

/// A template that could not be registered or rendered.
pub enum Template {
    Registration { name: String, reason: String },
    Render { name: String, reason: String },
}

} // verus!

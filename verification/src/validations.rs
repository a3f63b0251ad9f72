//! Checks of a parsed laboratory that stand apart from its own validation.

pub mod hardware;

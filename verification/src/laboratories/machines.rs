//! The parts of a machine declaration.

pub mod hardware;
pub mod machine;
pub mod operating_system;
pub mod packages;
pub mod script;
pub mod user;

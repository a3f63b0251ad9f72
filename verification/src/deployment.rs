//! Deploying a laboratory: the record kept of it, and the decisions taken
//! between the provider operations.

pub mod driver;
pub mod naming;
pub mod summary;

//! Error types reported by the library, one enum per concern.

pub mod provider;
pub mod reading;
pub mod seeders;
pub mod state;
pub mod template;
pub mod validation;

//! First-boot configuration images: the files that a guest's initialisation
//! agent reads from an attached drive at its first start.

pub mod cloudbase_init;
pub mod cloudbase_documents;

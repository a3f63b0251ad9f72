//! Verified core of a tool that deploys reproducible malware-analysis
//! laboratories from configuration files.

pub mod cli;
pub mod commands;
pub mod deployment;
pub mod document;
pub mod errors;
pub mod laboratories;
pub mod laboratory;
pub mod package_managers;
pub mod paths;
pub mod providers;
pub mod seeders;
pub mod sequences;
pub mod span;
pub mod state;
pub mod template;
pub mod text;
pub mod validations;

//! Composition data for a desktop application shell.
//!
//! The shell itself — plugin registration, the window, the run loop — is
//! unverified plumbing that lives outside this crate. What the shell feeds
//! to its persistence plugin is data, and that data is modelled and proved
//! here: the versioned schema-migration records, the database location, and
//! the one fatal diagnostic the shell may emit.

pub mod bootstrap;
pub mod migration;

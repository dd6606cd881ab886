//! Boot-entry selection: reading the boot configuration store, resolving
//! entry names, matching a requested entry, and deciding on the default
//! change and the restart.

pub mod store;
pub mod catalog;
pub mod matcher;
pub mod session;
pub mod laws;

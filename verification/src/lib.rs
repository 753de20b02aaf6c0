//! Plugins and a registry of trait implementations, with their contracts.
pub mod expansion;
pub mod loader;
pub mod plugin;
pub mod registry;

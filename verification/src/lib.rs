//! The transport phase of a GraphQL router's request lifecycle: the service that requests meet
//! first, the plugins that wrap it, and the builder that brings both together.
//!
//! The services themselves, and the work that a build waits for, are the host's. It hands in what
//! came of them, or a function that does the work, and the contracts here say what is done with it.

pub mod builder;
pub mod endpoints;
pub mod laws;
pub mod limit;
pub mod plugin;
pub mod plugins;
pub mod router;
pub mod service;
pub mod settings;

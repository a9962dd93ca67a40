//! Startup logic of a desktop shell that launches a bundled backend process.

pub mod child_env;
pub mod command;
pub mod config;
pub mod notify;
pub mod sidecar;
pub mod startup;
pub mod text;

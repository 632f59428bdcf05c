//! Executes source snippets of mainstream languages in short-lived sandboxes: the language
//! registry, the checks on an execution request, the sandbox's command line, output capture,
//! configuration and the error answers of the HTTP API.

pub mod api;
pub mod config;
pub mod error;
pub mod models;
pub mod runtimes;
pub mod sandbox;
pub mod text;
pub mod timeout;

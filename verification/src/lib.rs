//! Verified core of a small HTTP(S) webhook daemon.
//!
//! The daemon runs commands when a POST request arrives for a configured URL.
//! This crate holds the parts of it that decide things: the configuration
//! model with its defaults, the per-hook job scheduler, the request routing
//! and `X-Hub-Signature-256` checking, the plan for each command that a hook
//! runs, and the reload schedule of the TLS certificate.

pub mod types;
pub mod scheduler;
pub mod logging;
pub mod config;
pub mod hooks;
pub mod signature;
pub mod request;
pub mod job;
pub mod tls_reload;

//! Core of a small reactive-automation service: user-declared health checks
//! (HTTP probes) are evaluated against configured targets, their pass/fail
//! outcomes are aggregated per probe group, and shell-command handlers fire
//! when the aggregate outcome matches their declared trigger state.
//!
//! This crate holds the verified scheduling-and-dispatch logic: outcome
//! classification, result aggregation, and handler selection. The surrounding
//! binary supplies the unverified edges (network requests, process spawning,
//! file reading, logging).

pub mod check_config;
pub mod cli;
pub mod config;
pub mod handyman;
pub mod healthcheck;
pub mod http;
pub mod loader;

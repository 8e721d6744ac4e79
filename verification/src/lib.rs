//! Core of a programmable HTTP reverse-proxy gateway: live configuration
//! reload, the outbound forwarding step and the backend-health status filter.
//!
//! Everything here computes on plain values. Network and cache traffic is
//! performed by the caller, which hands results back as events.
pub mod basic;
pub mod config;
pub mod functions;
pub mod plugins;

//! Errors and text helpers shared by the gateway modules.
pub mod error;
pub mod text;

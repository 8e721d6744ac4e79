//! Filters and the per-request context they work on.
pub mod context;
pub mod filters;

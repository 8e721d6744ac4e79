//! Functions of the gateway runtime.
pub mod http_client;

//! What every filter shares: where it may be attached and what it is told at
//! start.
use crate::config::http_route_dto::SgHttpRouteRule;
use vstd::prelude::*;

pub mod status;

verus! {

/// The level of the configuration that a filter is attached to.
#[derive(Debug, Clone, Copy, PartialEq, Eq, Structural)]
pub enum SgAttachedLevel {
    Gateway,
    HttpRoute,
    Rule,
    Backend,
}

/// The kind of traffic that a filter takes.
#[derive(Debug, Clone, Copy, PartialEq, Eq, Structural)]
pub enum SgPluginFilterKind {
    Http,
    Grpc,
    Ws,
}

/// What a filter accepts.
#[derive(Debug)]
pub struct SgPluginFilterAccept {
    /// The kinds of traffic that the filter is called for.
    pub kind: Vec<SgPluginFilterKind>,
    /// Whether the filter is also called on a response that stands for an
    /// error.
    pub accept_error_response: bool,
}

/// What a filter is told when it starts.
#[derive(Debug)]
pub struct SgPluginFilterInitDto {
    /// The gateway that the filter serves.
    pub gateway_name: String,
    /// The rules of the routes of that gateway.
    pub http_route_rules: Vec<SgHttpRouteRule>,
    /// Where the filter is attached.
    pub attached_level: SgAttachedLevel,
}

} // verus!

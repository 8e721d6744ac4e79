//! Gateway configuration: the descriptors and their live reload.
pub mod config_by_redis;
pub mod gateway_dto;
pub mod http_route_dto;

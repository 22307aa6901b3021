//! Caching gateway logic for content-addressed `ipfs://` resources.

pub mod caching;
pub mod cleanup;
mod clock;
pub mod config;
pub mod error;
pub mod fetch;
pub mod gateway_pool;
pub mod http_frontend;
pub mod ipfs_client;
pub mod ipfs_object;
pub mod listing;
pub mod number;
pub mod stream_write;
pub mod telemetry;
pub mod transcoder;
pub mod text;

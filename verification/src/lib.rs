//! A transport-agnostic JSON-RPC client layer: callers hand in raw JSON text
//! and get raw payloads back, whatever client does the network work.

pub mod error;
pub mod json;
pub mod params;
pub mod payload;
pub mod request;
pub mod subscription;

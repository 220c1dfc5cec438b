//! Dynamic DNS update gateway: decides from a static whitelist whether a caller
//! may update a DNS record, and plans and classifies the upstream REST calls
//! that carry the update out.
//!
//! The library performs no I/O. It hands its caller the request to send and
//! takes back what the transport observed.

pub mod api;
pub mod cli;
pub mod config;
pub mod engine;
pub mod gateway;
pub mod text;

pub use api::domains;
pub use api::records;
pub use api::Api;
pub use engine::Endpoint;

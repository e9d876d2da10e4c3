//! Bindings for Twirp-style RPC services: a generator that turns a service
//! description into Rust source text, a path-keyed router, the protocol's
//! error model, and the client's reading of a response.
pub mod service;
pub mod generator;
pub mod error;
pub mod router;
pub mod fixture;
pub mod client;

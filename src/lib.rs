//! The failure taxonomy of an IRC client library: one error type for every
//! operation, the configuration and protocol failures nested in it, and the
//! conversions from lower-layer failures into it.

pub mod config;
pub mod error;
pub mod laws;
pub mod foreign;
pub mod negotiation;
pub mod proto;

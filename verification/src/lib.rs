//! Typed binding for the SignalWire REST API, without the transport.
//!
//! The library builds each request as a plain value, and turns what came back
//! (a status and a body, or a failure of the transport) into a typed result.
//! Sending the request is left to the caller.

pub mod address;
pub mod client;
pub mod errors;
pub mod http;
pub mod json;
pub mod query;
pub mod status;
pub mod text;
pub mod types;

//! Core of a transparent HTTP reverse proxy.
//!
//! The library holds the per-request forwarding pipeline: translating one
//! inbound request into one outbound request aimed at a configured upstream
//! target, and translating the upstream's outcome back into exactly one
//! response for the original caller. Transport (listening, HTTP framing,
//! the upstream client) lives outside the library and hands it plain values.

pub mod laws;
pub mod message;
pub mod pipeline;
pub mod uri;

//! Standardized HTTP API response envelopes.
//!
//! The crate classifies numeric HTTP status codes into a small category
//! enumeration with canonical lowercase labels, holds outgoing responses in a
//! fixed envelope value, and computes what a transport layer needs to emit an
//! envelope on the wire: the status line code, the stringified code for the
//! body, and the JSON content negotiation headers.

pub mod json_payload;
pub mod response;
pub mod transport;

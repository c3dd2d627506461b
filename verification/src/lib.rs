//! A GitHub sponsorship webhook relay, verified.
//!
//! The library holds the whole request-handling pipeline: HMAC signature
//! verification, event classification and parsing, and notification
//! formatting. The surrounding process (request transport, environment
//! configuration, outbound delivery) stays outside and hands the handler
//! plain values.

pub mod errors;
pub mod event;
pub mod handler;
pub mod notify;
pub mod signature;

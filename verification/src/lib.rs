//! Verified core of an interactions webhook endpoint.
//!
//! An inbound request is authenticated by an Ed25519 signature over its
//! timestamp and raw body, classified by the kind of interaction it carries,
//! and answered either at once or after one hand-off to a workflow backend.

pub mod config;
pub mod decision;
pub mod hex;
pub mod interaction;
pub mod json;
pub mod pipeline;
pub mod response;
pub mod signature;

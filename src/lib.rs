//! Fulfillment pipeline of a VRF oracle bridge: decoding of request records,
//! exactly-once tracking, proof gating, transaction building and retrying
//! submission, each with a contract proved by Verus.

pub mod bytes;
pub mod hex_text;
pub mod request;
pub mod dedup;
pub mod cli_integration;
pub mod tx;
pub mod submit;
pub mod cycle;

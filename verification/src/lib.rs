//! Typed client for the Hume AI APIs: text-to-speech, expression measurement and
//! the empathic voice interface.
//!
//! The crate holds the transport logic: credentials and their wire encodings,
//! failure classification and backoff, the decisions of the unary request engine,
//! and the message protocol and lifecycle of a duplex chat session. Performing
//! the network exchange itself is left to the caller.

use vstd::prelude::*;

pub mod common;
pub mod evi;
pub mod expression_measurement;
pub mod tts;

verus! {

/// The version of this SDK.
pub const SDK_VERSION: &'static str = "0.9.0";

/// The default base URL of the Hume API.
pub const DEFAULT_BASE_URL: &'static str = "https://api.hume.ai";

} // verus!

//! Core functionality: credentials, errors, request options, retry policy and
//! the request engine.

pub mod text;
pub mod collections;
pub mod time;
pub mod error;
pub mod json;
pub mod validation;
pub mod request;
pub mod response;
pub mod auth;
pub mod retry;
pub mod http;
pub mod encoding;
pub mod client;

//! Expression Measurement: data models, batch jobs and the streaming session.

pub mod models;
pub mod batch;
pub mod stream;

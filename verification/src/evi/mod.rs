//! Empathic Voice Interface (EVI): data models and the chat session.

pub mod models;
pub mod prompts;
pub mod codec;
pub mod chat;
pub mod tools;

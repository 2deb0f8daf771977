//! Text-to-Speech: data models.

pub mod models;

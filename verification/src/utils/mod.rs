//! Text helpers and the persisted configuration.

pub mod config;
pub mod icon;
pub mod laws;
pub mod text;

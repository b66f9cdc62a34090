//! Backends per platform.

pub mod linux;
pub mod macos;

//! Audio sessions of the operating system's mixer.

pub mod backend;
pub mod laws;
pub mod platform;
pub mod reconcile;
pub mod session;
pub mod tracker;

pub use backend::{AudioBackend, AudioError, AudioUpdate};
pub use session::AudioSession;

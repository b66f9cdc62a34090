//! State of the single screens.

pub mod no_devices;
pub mod scanning;

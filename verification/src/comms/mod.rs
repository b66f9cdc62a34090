//! Serial link: wire frames, device records, discovery and liveness.

pub mod device_info;
pub mod handshake;
pub mod protocol;
pub mod scanner;
pub mod watchdog;

//! The core of FaderFlow: a bridge between the desktop's audio mixer and a
//! fader device on a serial port.
//!
//! The crate decides and computes; it opens no port, starts no thread and
//! reads no clock. Its callers perform what it asks for and report back:
//!
//! - [`comms::protocol`] holds the frames of the wire protocol.
//! - [`comms::handshake`] is the probe that tells a fader device from any
//!   other serial device, [`comms::scanner`] the order of a scan's events,
//!   and [`comms::watchdog`] the liveness check of a connected device.
//! - [`audio::tracker`] decides which audio sessions are listed and which
//!   native handles are kept, [`audio::reconcile`] merges the user's writes
//!   with what the operating system reports.
//! - [`ui::app`] is the application as a state machine, [`ui::step`] its
//!   transitions as a function.
//! - [`utils::config`] reads and writes what is kept between runs.
//!
//! The modules named `laws` state what holds of these parts whatever their
//! inputs are.

pub mod audio;
pub mod comms;
pub mod ui;
pub mod utils;

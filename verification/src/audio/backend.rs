//! What an audio backend of a platform offers, and what it reports.

use std::sync::mpsc::Sender;
use vstd::prelude::*;

use super::session::AudioSession;

verus! {

/// `std::sync::mpsc::Sender`: the sending half of a channel. Nothing is
/// known of it here: a backend only keeps it and hands notifications to it.
#[verifier::external_type_specification]
#[verifier::external_body]
#[verifier::reject_recursive_types(T)]
pub struct ExSender<T>(Sender<T>);

/// A change that the operating system reported.
#[derive(Debug, PartialEq, Eq)]
pub enum AudioUpdate {
    VolumeChanged(String, u16),
    MuteChanged(String, bool),
    SessionAdded(AudioSession),
    SessionRemoved(String),
    /// Name of the new default output device.
    DefaultDeviceChanged(String),
}

/// Why a backend could not do what was asked.
#[derive(Debug, PartialEq, Eq)]
pub enum AudioError {
    /// The platform has no backend yet.
    Unsupported(String),
    /// The sessions of the output device could not be enumerated.
    EnumerationFailure(String),
    /// A native handle could not be obtained or used.
    NativeResourceFailure(String),
}

impl AudioError {
    /// The error's text.
    pub fn message(&self) -> (text: &str)
        ensures
            text@ == match *self {
                AudioError::Unsupported(t) => t@,
                AudioError::EnumerationFailure(t) => t@,
                AudioError::NativeResourceFailure(t) => t@,
            },
    {
        match self {
            AudioError::Unsupported(t) => t.as_str(),
            AudioError::EnumerationFailure(t) => t.as_str(),
            AudioError::NativeResourceFailure(t) => t.as_str(),
        }
    }
}

pub trait AudioBackend: Send + Sync {
    /// Prepares the backend for use.
    fn initialize(&mut self) -> Result<(), AudioError>;

    /// All current sessions of the default output device.
    fn get_sessions(&self) -> Result<Vec<AudioSession>, AudioError>;

    /// Sets a session's volume, in ten-thousandths of full scale.
    fn set_volume(&mut self, session_id: &str, volume: u16) -> Result<(), AudioError>;

    /// Sets a session's mute state.
    fn set_mute(&mut self, session_id: &str, muted: bool) -> Result<(), AudioError>;

    /// Starts handing change notifications to `sender`.
    fn start_listening(&mut self, sender: Sender<AudioUpdate>) -> Result<(), AudioError>;

    /// Stops handing out change notifications.
    fn stop_listening(&mut self) -> Result<(), AudioError>;

    /// The active output devices, by name.
    fn get_output_devices(&self) -> Result<Vec<String>, AudioError>;

    /// The name of the current default output device.
    fn get_default_output_device(&self) -> Option<String>;
}

} // verus!

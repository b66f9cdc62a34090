//! Linux: no mixer integration yet.

use std::sync::mpsc::Sender;
use vstd::prelude::*;
use vstd::string::*;

use crate::audio::backend::{AudioBackend, AudioError, AudioUpdate};
use crate::audio::session::AudioSession;

verus! {

/// A backend that reports no sessions and accepts every write.
#[derive(Debug)]
pub struct LinuxAudioBackend;

impl LinuxAudioBackend {
    pub fn new() -> (backend: Self) {
        Self
    }
}

impl AudioBackend for LinuxAudioBackend {
    fn initialize(&mut self) -> (result: Result<(), AudioError>)
        ensures
            result matches Err(AudioError::Unsupported(text)) && text@
                == "Linux support not yet implemented"@,
    {
        Err(AudioError::Unsupported(String::from_str("Linux support not yet implemented")))
    }

    fn get_sessions(&self) -> (result: Result<Vec<AudioSession>, AudioError>)
        ensures
            result matches Ok(sessions) && sessions@.len() == 0,
    {
        Ok(Vec::new())
    }

    fn set_volume(&mut self, _session_id: &str, _volume: u16) -> (result: Result<(), AudioError>)
        ensures
            result is Ok,
    {
        Ok(())
    }

    fn set_mute(&mut self, _session_id: &str, _muted: bool) -> (result: Result<(), AudioError>)
        ensures
            result is Ok,
    {
        Ok(())
    }

    fn start_listening(&mut self, _sender: Sender<AudioUpdate>) -> (result: Result<
        (),
        AudioError,
    >)
        ensures
            result is Ok,
    {
        Ok(())
    }

    fn stop_listening(&mut self) -> (result: Result<(), AudioError>)
        ensures
            result is Ok,
    {
        Ok(())
    }

    fn get_output_devices(&self) -> (result: Result<Vec<String>, AudioError>)
        ensures
            result matches Ok(names) && names@.len() == 0,
    {
        Ok(Vec::new())
    }

    fn get_default_output_device(&self) -> (name: Option<String>)
        ensures
            name is None,
    {
        None
    }
}

} // verus!

//! One application's audio session on the default output device.

use vstd::prelude::*;

verus! {

/// Full volume. A volume is held in ten-thousandths of full scale.
pub const VOLUME_FULL: u16 = 10_000;

/// A moment on the caller's monotonic clock, in milliseconds.
pub type Millis = u64;

/// An audio session as last seen, with the moments of the last change made
/// here and of the last change reported from outside.
#[derive(Debug, PartialEq, Eq)]
pub struct AudioSession {
    /// Stable key of the session: its resolved display name.
    pub id: String,
    pub display_name: String,
    /// Volume in ten-thousandths of full scale.
    pub volume: u16,
    pub is_muted: bool,
    pub process_id: u32,
    /// Key of the session's icon where one was found.
    pub icon_handle: Option<u64>,
    pub last_local_change: Option<Millis>,
    pub last_external_change: Option<Millis>,
}

/// A volume as the whole percentage a device display shows, before the
/// display's own limit: `floor(volume / 100)`, at most 255.
pub open spec fn percent_of_volume(volume: u16) -> u8 {
    if volume / 100 > 255 {
        255u8
    } else {
        (volume / 100) as u8
    }
}

impl Clone for AudioSession {
    fn clone(&self) -> (copy: Self)
        ensures
            copy == *self,
    {
        AudioSession {
            id: self.id.clone(),
            display_name: self.display_name.clone(),
            volume: self.volume,
            is_muted: self.is_muted,
            process_id: self.process_id,
            icon_handle: self.icon_handle,
            last_local_change: self.last_local_change,
            last_external_change: self.last_external_change,
        }
    }
}

impl AudioSession {
    /// A session just enumerated: no icon yet and no change on record.
    pub fn new(
        id: String,
        display_name: String,
        volume: u16,
        is_muted: bool,
        process_id: u32,
    ) -> (session: Self)
        ensures
            session == (AudioSession {
                id,
                display_name,
                volume,
                is_muted,
                process_id,
                icon_handle: None,
                last_local_change: None,
                last_external_change: None,
            }),
    {
        Self {
            id,
            display_name,
            volume,
            is_muted,
            process_id,
            icon_handle: None,
            last_local_change: None,
            last_external_change: None,
        }
    }

    /// The volume as a device display shows it.
    pub fn volume_percent(&self) -> (percent: u8)
        ensures
            percent == percent_of_volume(self.volume),
    {
        let percent: u16 = self.volume / 100;
        if percent > 255 {
            255
        } else {
            percent as u8
        }
    }
}

} // verus!

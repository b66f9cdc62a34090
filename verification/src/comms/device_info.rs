//! A connected fader device as the rest of the system sees it.

use vstd::prelude::*;
use vstd::string::*;

use crate::utils::text::{decimal, decimal_text, hex_text, push_hex, text_of};

verus! {

#[derive(Debug, Clone, Copy, PartialEq, Eq, Structural)]
pub enum DeviceStatus {
    Connected,
    Lost,
}

/// A device that answered the handshake. The serial port itself stays with
/// whoever opened it and is found again by `port_name`.
#[derive(Debug, PartialEq, Eq)]
pub struct DeviceInfo {
    pub port_name: String,
    pub uuid: [u8; 16],
    pub version: (u8, u8),
    pub rename: Option<String>,
    pub status: DeviceStatus,
    /// Session key per channel; an empty key leaves the channel unassigned.
    pub channel_assignments: [String; 5],
}

/// A device as a plain value.
pub struct DeviceView {
    pub port_name: Seq<char>,
    pub uuid: [u8; 16],
    pub version: (u8, u8),
    pub rename: Option<Seq<char>>,
    pub status: DeviceStatus,
    /// Five session keys.
    pub channel_assignments: Seq<Seq<char>>,
}

impl View for DeviceInfo {
    type V = DeviceView;

    open spec fn view(&self) -> DeviceView {
        DeviceView {
            port_name: self.port_name@,
            uuid: self.uuid,
            version: self.version,
            rename: text_of(self.rename),
            status: self.status,
            channel_assignments: Seq::new(5, |i: int| self.channel_assignments[i]@),
        }
    }
}

/// The devices of a list as plain values.
pub open spec fn device_views(devices: Seq<DeviceInfo>) -> Seq<DeviceView> {
    Seq::new(devices.len(), |i: int| devices[i]@)
}

/// A device after the user committed `name` as its name: an empty name
/// takes the user's name away.
pub open spec fn renamed(device: DeviceView, name: Seq<char>) -> DeviceView {
    DeviceView {
        rename: if name.len() == 0 {
            None
        } else {
            Some(name)
        },
        ..device
    }
}

/// A device after `session` was assigned to `channel`.
pub open spec fn assigned(device: DeviceView, channel: int, session: Seq<char>) -> DeviceView {
    DeviceView {
        channel_assignments: device.channel_assignments.update(channel, session),
        ..device
    }
}

/// Four bytes of a UUID, from `at` on, as eight hexadecimal digits.
pub open spec fn uuid_group(uuid: Seq<u8>, at: int) -> Seq<char> {
    hex_text(uuid[at]) + hex_text(uuid[at + 1]) + hex_text(uuid[at + 2]) + hex_text(uuid[at + 3])
}

/// A 16-byte UUID as four groups of eight upper-case hexadecimal digits,
/// joined by hyphens.
pub open spec fn uuid_text(uuid: Seq<u8>) -> Seq<char> {
    uuid_group(uuid, 0) + seq!['-'] + uuid_group(uuid, 4) + seq!['-'] + uuid_group(uuid, 8)
        + seq!['-'] + uuid_group(uuid, 12)
}

/// A firmware version as `v<major>.<minor>`.
pub open spec fn version_text(version: (u8, u8)) -> Seq<char> {
    seq!['v'] + decimal_text(version.0 as nat) + seq!['.'] + decimal_text(version.1 as nat)
}

impl DeviceInfo {
    /// The user's name for the device if there is one, else the port's name.
    pub fn display_name(&self) -> (name: &str)
        ensures
            name@ == match self.rename {
                Some(rename) => rename@,
                None => self.port_name@,
            },
    {
        match &self.rename {
            Some(rename) => rename.as_str(),
            None => self.port_name.as_str(),
        }
    }

    /// Formats a UUID as `AABBCCDD-EEFF0011-...`.
    pub fn uuid_str(uuid: &[u8; 16]) -> (text: String)
        ensures
            text@ == uuid_text(uuid@),
    {
        let mut text = String::new();
        let mut group: usize = 0;
        while group < 4
            invariant
                group <= 4,
                group == 0 ==> text@ == Seq::<char>::empty(),
                group == 1 ==> text@ == uuid_group(uuid@, 0),
                group == 2 ==> text@ == uuid_group(uuid@, 0) + seq!['-'] + uuid_group(uuid@, 4),
                group == 3 ==> text@ == uuid_group(uuid@, 0) + seq!['-'] + uuid_group(uuid@, 4)
                    + seq!['-'] + uuid_group(uuid@, 8),
                group == 4 ==> text@ == uuid_text(uuid@),
            decreases 4 - group,
        {
            if group > 0 {
                proof {
                    reveal_strlit("-");
                }
                text.append("-");
            }
            let at: usize = group * 4;
            push_hex(&mut text, uuid[at]);
            push_hex(&mut text, uuid[at + 1]);
            push_hex(&mut text, uuid[at + 2]);
            push_hex(&mut text, uuid[at + 3]);
            group += 1;
        }
        text
    }

    /// Takes `name` as the user's name for the device; an empty name takes
    /// the user's name away.
    pub fn commit_rename(&mut self, name: String)
        ensures
            final(self)@ == renamed(old(self)@, name@),
    {
        if name.as_str().is_empty() {
            self.rename = None;
        } else {
            self.rename = Some(name);
        }
    }

    /// Assigns the session `session` to `channel`; an empty key leaves the
    /// channel unassigned.
    pub fn assign_channel(&mut self, channel: usize, session: String)
        requires
            channel < 5,
        ensures
            final(self)@ == assigned(old(self)@, channel as int, session@),
    {
        self.channel_assignments[channel] = session;
        assert(final(self)@.channel_assignments =~= old(self)@.channel_assignments.update(
            channel as int,
            session@,
        ));
    }

    pub fn uuid_string(&self) -> (text: String)
        ensures
            text@ == uuid_text(self.uuid@),
    {
        Self::uuid_str(&self.uuid)
    }

    pub fn version_string(&self) -> (text: String)
        ensures
            text@ == version_text(self.version),
    {
        proof {
            reveal_strlit("v");
            reveal_strlit(".");
        }
        let major = decimal(self.version.0 as u64);
        let minor = decimal(self.version.1 as u64);
        let text = String::from_str("v").concat(major.as_str()).concat(".").concat(minor.as_str());
        text
    }
}

} // verus!

//! Binary frames exchanged with the fader device.
//!
//! Every frame has a fixed size and carries no length prefix, so a reader
//! must collect exactly the frame's byte count before decoding it.

use vstd::prelude::*;
use vstd::string::StringSliceAdditionalSpecFns;

verus! {

pub const CMD_HANDSHAKE_REQUEST: u8 = 0x01;

pub const CMD_ECHO_UUID: u8 = 0x02;

pub const CMD_DISPLAY_UPDATE_APP_NAME: u8 = 0x03;

pub const CMD_DISPLAY_UPDATE_APP_VOLUME: u8 = 0x04;

pub const CMD_DISPLAY_UPDATE_ICON: u8 = 0x05;

/// Acknowledges a handshake response; the device stops beaconing on it.
pub const CMD_HANDSHAKE_ACK: u8 = 0x06;

pub const CMD_FADER_UPDATE: u8 = 0x10;

/// Opens a handshake response. It is the first byte of the identifier, so a
/// response is recognised on the wire by the byte that starts its magic.
pub const CMD_HANDSHAKE_RESPONSE: u8 = 0x46;

/// The ASCII identifier `FADERFLOW`.
pub const MAGIC_STRING: [u8; 9] = [0x46, 0x41, 0x44, 0x45, 0x52, 0x46, 0x4C, 0x4F, 0x57];

pub const UUID_SIZE: usize = 16;

pub const HANDSHAKE_FRAME_SIZE: usize = 29;

pub const FADER_FRAME_SIZE: usize = 3;

pub const DISPLAY_APP_FRAME_SIZE: usize = 66;

pub const DISPLAY_VOLUME_FRAME_SIZE: usize = 3;

/// Most bytes of a name that a display-name frame carries; the buffer always
/// ends in at least one zero.
pub const APP_NAME_MAX: usize = 63;

/// Largest volume a display-volume frame carries.
pub const DISPLAY_VOLUME_MAX: u8 = 100;

/// The identifier as a sequence of bytes.
pub open spec fn magic() -> Seq<u8> {
    seq![0x46u8, 0x41u8, 0x44u8, 0x45u8, 0x52u8, 0x46u8, 0x4Cu8, 0x4Fu8, 0x57u8]
}

/// Whether a buffer starts with the identifier.
pub open spec fn starts_with_magic(bytes: Seq<u8>) -> bool {
    bytes.len() >= 9 && bytes.take(9) == magic()
}

/// Handshake response of the device: identifier, device type, UUID and
/// firmware version.
#[derive(Debug, Copy, Clone)]
pub struct HandshakeResponse {
    pub magic: [u8; 10],
    pub device_type: u8,
    pub uuid: [u8; UUID_SIZE],
    pub version_major: u8,
    pub version_minor: u8,
}

/// A fader movement reported by the device.
#[derive(Debug, Copy, Clone)]
pub struct FaderMessage {
    pub cmd: u8,
    pub channel: u8,
    pub position: u8,
}

/// Sets the application name shown on a channel's display.
#[derive(Debug, Copy, Clone)]
pub struct DisplayUpdateAppCommand {
    pub cmd: u8,
    pub channel: u8,
    pub name: [u8; 64],
}

/// Sets the volume shown on a channel's display.
#[derive(Debug, Copy, Clone)]
pub struct DisplayUpdateVolumeCommand {
    pub cmd: u8,
    pub channel: u8,
    pub volume: u8,
}

/// Header of an icon upload; the icon's pixel data follows it on the wire.
#[derive(Debug, Copy, Clone)]
pub struct DisplayUpdateIconCommand {
    pub cmd: u8,
    pub channel: u8,
}

/// The wire image of a handshake response.
pub open spec fn handshake_bytes(frame: HandshakeResponse) -> Seq<u8> {
    frame.magic@ + seq![frame.device_type] + frame.uuid@ + seq![
        frame.version_major,
        frame.version_minor,
    ]
}

/// Fader travel as a whole percentage: `floor(position / 255 * 100)`.
pub open spec fn percent_of_position(position: int) -> int {
    position * 100 / 255
}

/// The name buffer of a display-name frame: at most 63 bytes of the name,
/// then zeros up to 64 bytes.
pub open spec fn name_buffer(name: Seq<u8>) -> Seq<u8> {
    Seq::new(64, |i: int| if i < name.len() && i < 63 { name[i] } else { 0u8 })
}

/// A display volume, limited to 100.
pub open spec fn clamp_volume(volume: u8) -> u8 {
    if volume > 100 { 100u8 } else { volume }
}

impl HandshakeResponse {
    /// Decodes a response from exactly 29 bytes.
    pub fn from_bytes(bytes: &[u8]) -> (frame: Option<HandshakeResponse>)
        ensures
            frame is Some <==> bytes@.len() == 29,
            frame matches Some(f) ==> handshake_bytes(f) == bytes@,
    {
        if bytes.len() != HANDSHAKE_FRAME_SIZE {
            return None;
        }
        let mut magic = [0u8; 10];
        let mut uuid = [0u8; UUID_SIZE];
        let mut i: usize = 0;
        while i < 10
            invariant
                i <= 10,
                bytes@.len() == 29,
                forall|j: int| 0 <= j < i ==> magic@[j] == bytes@[j],
            decreases 10 - i,
        {
            magic[i] = bytes[i];
            i += 1;
        }
        let mut k: usize = 0;
        while k < 16
            invariant
                k <= 16,
                bytes@.len() == 29,
                forall|j: int| 0 <= j < k ==> uuid@[j] == bytes@[11 + j],
            decreases 16 - k,
        {
            uuid[k] = bytes[11 + k];
            k += 1;
        }
        let frame = HandshakeResponse {
            magic,
            device_type: bytes[10],
            uuid,
            version_major: bytes[27],
            version_minor: bytes[28],
        };
        Some(frame)
    }

    /// Encodes the response into its 29 bytes.
    pub fn to_bytes(&self) -> (bytes: Vec<u8>)
        ensures
            bytes@ == handshake_bytes(*self),
            bytes@.len() == 29,
    {
        let mut bytes: Vec<u8> = Vec::new();
        let mut i: usize = 0;
        while i < 10
            invariant
                i <= 10,
                bytes@ == self.magic@.take(i as int),
            decreases 10 - i,
        {
            bytes.push(self.magic[i]);
            i += 1;
        }
        bytes.push(self.device_type);
        let mut k: usize = 0;
        while k < 16
            invariant
                k <= 16,
                bytes@ == self.magic@ + seq![self.device_type] + self.uuid@.take(k as int),
            decreases 16 - k,
        {
            bytes.push(self.uuid[k]);
            k += 1;
        }
        bytes.push(self.version_major);
        bytes.push(self.version_minor);
        bytes
    }

    /// Checks the identifier and nothing else: any device type, UUID and
    /// firmware version pairs.
    pub fn is_valid(&self) -> (valid: bool)
        ensures
            valid == starts_with_magic(self.magic@),
    {
        let mut i: usize = 0;
        while i < 9
            invariant
                i <= 9,
                forall|j: int| 0 <= j < i ==> self.magic@[j] == magic()[j],
            decreases 9 - i,
        {
            if self.magic[i] != MAGIC_STRING[i] {
                return false;
            }
            i += 1;
        }
        assert(self.magic@.take(9) =~= magic());
        true
    }
}

impl FaderMessage {
    /// Decodes a fader frame from exactly 3 bytes.
    pub fn from_bytes(bytes: &[u8]) -> (frame: Option<FaderMessage>)
        ensures
            frame is Some <==> bytes@.len() == 3,
            frame matches Some(f) ==> seq![f.cmd, f.channel, f.position] == bytes@,
    {
        if bytes.len() != FADER_FRAME_SIZE {
            return None;
        }
        let frame = FaderMessage { cmd: bytes[0], channel: bytes[1], position: bytes[2] };
        Some(frame)
    }

    pub fn position_percent(&self) -> (percent: u8)
        ensures
            percent as int == percent_of_position(self.position as int),
            percent <= 100,
    {
        let scaled: u16 = self.position as u16 * 100;
        (scaled / 255) as u8
    }
}

impl DisplayUpdateAppCommand {
    /// The frame that shows `name` on `channel`. A name longer than 63 bytes
    /// is cut at the 63rd byte, wherever that falls.
    pub fn new(channel: u8, name: &str) -> (frame: DisplayUpdateAppCommand)
        ensures
            frame.cmd == CMD_DISPLAY_UPDATE_APP_NAME,
            frame.channel == channel,
            frame.name@ == name_buffer(name.spec_bytes()),
    {
        let bytes = name.as_bytes();
        let len: usize = if bytes.len() < APP_NAME_MAX { bytes.len() } else { APP_NAME_MAX };
        let mut buffer = [0u8; 64];
        let mut i: usize = 0;
        while i < len
            invariant
                i <= len,
                len <= 63,
                len <= bytes@.len(),
                forall|j: int| 0 <= j < i ==> buffer@[j] == bytes@[j],
                forall|j: int| i <= j < 64 ==> buffer@[j] == 0,
            decreases len - i,
        {
            buffer[i] = bytes[i];
            i += 1;
        }
        DisplayUpdateAppCommand { cmd: CMD_DISPLAY_UPDATE_APP_NAME, channel, name: buffer }
    }

    /// Encodes the frame into its 66 bytes.
    pub fn to_bytes(&self) -> (bytes: Vec<u8>)
        ensures
            bytes@ == seq![self.cmd, self.channel] + self.name@,
            bytes@.len() == 66,
    {
        let mut bytes: Vec<u8> = Vec::new();
        bytes.push(self.cmd);
        bytes.push(self.channel);
        let mut i: usize = 0;
        while i < 64
            invariant
                i <= 64,
                bytes@ == seq![self.cmd, self.channel] + self.name@.take(i as int),
            decreases 64 - i,
        {
            bytes.push(self.name[i]);
            i += 1;
        }
        bytes
    }
}

impl DisplayUpdateVolumeCommand {
    /// The frame that shows `volume` on `channel`, limited to 100.
    pub fn new(channel: u8, volume: u8) -> (frame: DisplayUpdateVolumeCommand)
        ensures
            frame.cmd == CMD_DISPLAY_UPDATE_APP_VOLUME,
            frame.channel == channel,
            frame.volume == clamp_volume(volume),
    {
        let shown: u8 = if volume > DISPLAY_VOLUME_MAX { DISPLAY_VOLUME_MAX } else { volume };
        DisplayUpdateVolumeCommand { cmd: CMD_DISPLAY_UPDATE_APP_VOLUME, channel, volume: shown }
    }

    /// Encodes the frame into its 3 bytes.
    pub fn to_bytes(&self) -> (bytes: Vec<u8>)
        ensures
            bytes@ == seq![self.cmd, self.channel, self.volume],
    {
        let mut bytes: Vec<u8> = Vec::new();
        bytes.push(self.cmd);
        bytes.push(self.channel);
        bytes.push(self.volume);
        bytes
    }
}

/// A decoded response passes the identifier check exactly when the buffer it
/// was decoded from starts with the identifier.
pub proof fn lemma_valid_iff_buffer_starts_with_magic(bytes: Seq<u8>, frame: HandshakeResponse)
    requires
        handshake_bytes(frame) == bytes,
    ensures
        starts_with_magic(frame.magic@) <==> starts_with_magic(bytes),
{
    assert(frame.magic@.take(9) =~= bytes.take(9));
}

/// Changing any one of the nine identifier bytes of a buffer that starts with
/// the identifier gives a buffer that does not.
pub proof fn lemma_magic_mutation_invalidates(bytes: Seq<u8>, at: int, byte: u8)
    requires
        starts_with_magic(bytes),
        0 <= at < 9,
        byte != bytes[at],
    ensures
        !starts_with_magic(bytes.update(at, byte)),
{
}

/// The percentage never falls as the fader position rises.
pub proof fn lemma_position_percent_monotonic(low: int, high: int)
    requires
        0 <= low <= high,
    ensures
        percent_of_position(low) <= percent_of_position(high),
{
}

} // verus!

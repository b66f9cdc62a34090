//! The handshake that tells a fader device from any other serial device.
//!
//! The caller owns the port and the clock. It performs the action that the
//! probe asks for and reports the outcome as an event, with the time at which
//! it is ready for the next action; the probe decides what follows.

use vstd::prelude::*;
use vstd::string::*;

use super::protocol::{
    handshake_bytes, starts_with_magic, HandshakeResponse, CMD_HANDSHAKE_ACK,
    CMD_HANDSHAKE_REQUEST, CMD_HANDSHAKE_RESPONSE,
};

verus! {

/// Line speed of the device.
pub const BAUD_RATE: u32 = 115_200;

/// Timeout of a single read on the port.
pub const READ_TIMEOUT_MS: u64 = 20;

/// Time given to a board that resets when its port is opened.
pub const ARDUINO_BOOT_WAIT_MS: u64 = 500;

/// Time after the request within which a valid response must arrive.
pub const HANDSHAKE_TIMEOUT_SECS: u64 = 8;

/// Bytes of a response that follow its first byte.
pub const HANDSHAKE_BODY_SIZE: usize = 28;

/// Why a port was given up.
#[derive(Debug, PartialEq, Eq)]
pub enum ProbeFailure {
    /// The port could not be opened; the text is the system's.
    PortOpenFailure(String),
    /// The handshake request could not be written.
    RequestFailure(String),
    /// No valid response arrived in time.
    HandshakeTimeout,
    /// A read failed with something other than a timeout.
    ReadFailure(String),
    /// The acknowledgment could not be written.
    AckFailure(String),
}

/// Where a probe stands.
#[derive(Debug, PartialEq, Eq)]
pub enum ProbeState {
    Idle,
    Opening,
    AwaitingBoot,
    RequestingHandshake,
    /// Reading byte by byte for the start of a response.
    Syncing { deadline: u64 },
    /// The start of a response was seen; the rest of the frame is awaited.
    ReadingBody { deadline: u64 },
    /// A frame passed validation; its acknowledgment is being written.
    Validating { uuid: [u8; 16], version: (u8, u8) },
    Found { uuid: [u8; 16], version: (u8, u8) },
    Failed { failure: ProbeFailure },
}

/// The outcome of the action that the probe asked for.
#[derive(Debug, PartialEq, Eq)]
pub enum ProbeEvent {
    /// The probe is to begin.
    Start,
    Opened,
    OpenFailed(String),
    BootWaited,
    RequestSent,
    RequestFailed(String),
    /// A read returned; the byte is what the one-byte buffer then held.
    ByteRead(u8),
    ReadTimedOut,
    ReadFailed(String),
    /// All bytes of the body arrived.
    BodyRead(Vec<u8>),
    /// The body did not arrive whole.
    BodyIncomplete,
    AckSent,
    AckFailed(String),
}

/// What the caller does next.
#[derive(Debug, Clone, Copy, PartialEq, Eq, Structural)]
pub enum ProbeAction {
    /// Nothing: the probe has not begun.
    Rest,
    /// Open the port without flow control.
    Open { baud_rate: u32, read_timeout_ms: u64 },
    Wait { millis: u64 },
    /// Write the byte, then flush; a failed flush is no failure.
    Send { byte: u8 },
    /// Read one byte.
    ReadByte,
    /// Read exactly `len` bytes.
    ReadBody { len: usize },
    /// The probe is over: read the result from its state.
    Finish,
}

/// The moment after which a probe that asked for its handshake at `now`
/// gives up.
pub open spec fn deadline_after(now: u64) -> u64 {
    if now + 8000 > u64::MAX {
        u64::MAX
    } else {
        (now + 8000) as u64
    }
}

/// The state of a probe that is about to read a byte: it gives up if the
/// deadline has passed, and goes on scanning if not.
pub open spec fn resync(deadline: u64, now: u64) -> ProbeState {
    if now > deadline {
        ProbeState::Failed { failure: ProbeFailure::HandshakeTimeout }
    } else {
        ProbeState::Syncing { deadline }
    }
}

/// The frame that a body completes: the response's first byte, then the body.
pub open spec fn framed(body: Seq<u8>) -> Seq<u8> {
    seq![CMD_HANDSHAKE_RESPONSE] + body
}

/// The UUID of a frame.
pub open spec fn frame_uuid(frame: Seq<u8>) -> [u8; 16] {
    [
        frame[11],
        frame[12],
        frame[13],
        frame[14],
        frame[15],
        frame[16],
        frame[17],
        frame[18],
        frame[19],
        frame[20],
        frame[21],
        frame[22],
        frame[23],
        frame[24],
        frame[25],
        frame[26],
    ]
}

/// The state after a body was read.
pub open spec fn after_body(body: Seq<u8>, deadline: u64, now: u64) -> ProbeState {
    let frame = framed(body);
    if body.len() == 28 && starts_with_magic(frame) {
        ProbeState::Validating { uuid: frame_uuid(frame), version: (frame[27], frame[28]) }
    } else {
        resync(deadline, now)
    }
}

/// The transition of the probe. An event that the state does not await
/// leaves the state as it is.
pub open spec fn next_state(state: ProbeState, event: ProbeEvent, now: u64) -> ProbeState {
    match (state, event) {
        (ProbeState::Idle, ProbeEvent::Start) => ProbeState::Opening,
        (ProbeState::Opening, ProbeEvent::Opened) => ProbeState::AwaitingBoot,
        (ProbeState::Opening, ProbeEvent::OpenFailed(text)) => ProbeState::Failed {
            failure: ProbeFailure::PortOpenFailure(text),
        },
        (ProbeState::AwaitingBoot, ProbeEvent::BootWaited) => ProbeState::RequestingHandshake,
        (ProbeState::RequestingHandshake, ProbeEvent::RequestSent) => ProbeState::Syncing {
            deadline: deadline_after(now),
        },
        (ProbeState::RequestingHandshake, ProbeEvent::RequestFailed(text)) => ProbeState::Failed {
            failure: ProbeFailure::RequestFailure(text),
        },
        (ProbeState::Syncing { deadline }, ProbeEvent::ByteRead(byte)) => if byte
            == CMD_HANDSHAKE_RESPONSE {
            ProbeState::ReadingBody { deadline }
        } else {
            resync(deadline, now)
        },
        (ProbeState::Syncing { deadline }, ProbeEvent::ReadTimedOut) => resync(deadline, now),
        (ProbeState::Syncing { deadline }, ProbeEvent::ReadFailed(text)) => ProbeState::Failed {
            failure: ProbeFailure::ReadFailure(text),
        },
        (ProbeState::ReadingBody { deadline }, ProbeEvent::BodyRead(body)) => after_body(
            body@,
            deadline,
            now,
        ),
        (ProbeState::ReadingBody { deadline }, ProbeEvent::BodyIncomplete) => resync(
            deadline,
            now,
        ),
        (ProbeState::Validating { uuid, version }, ProbeEvent::AckSent) => ProbeState::Found {
            uuid,
            version,
        },
        (ProbeState::Validating { uuid, version }, ProbeEvent::AckFailed(text)) => {
            ProbeState::Failed { failure: ProbeFailure::AckFailure(text) }
        },
        (state, _) => state,
    }
}

/// The action that a state awaits the outcome of.
pub open spec fn action_of(state: ProbeState) -> ProbeAction {
    match state {
        ProbeState::Idle => ProbeAction::Rest,
        ProbeState::Opening => ProbeAction::Open { baud_rate: 115_200, read_timeout_ms: 20 },
        ProbeState::AwaitingBoot => ProbeAction::Wait { millis: 500 },
        ProbeState::RequestingHandshake => ProbeAction::Send { byte: CMD_HANDSHAKE_REQUEST },
        ProbeState::Syncing { .. } => ProbeAction::ReadByte,
        ProbeState::ReadingBody { .. } => ProbeAction::ReadBody { len: 28 },
        ProbeState::Validating { .. } => ProbeAction::Send { byte: CMD_HANDSHAKE_ACK },
        ProbeState::Found { .. } => ProbeAction::Finish,
        ProbeState::Failed { .. } => ProbeAction::Finish,
    }
}

/// The text of a failure, as a scan reports it.
pub open spec fn failure_text(failure: ProbeFailure) -> Seq<char> {
    match failure {
        ProbeFailure::PortOpenFailure(text) => "Cannot open: "@ + text@,
        ProbeFailure::RequestFailure(text) => "Failed to send handshake request: "@ + text@,
        ProbeFailure::HandshakeTimeout => "Handshake timeout"@,
        ProbeFailure::ReadFailure(text) => "Read error: "@ + text@,
        ProbeFailure::AckFailure(text) => "ACK failed: "@ + text@,
    }
}

impl ProbeFailure {
    /// The failure as text.
    pub fn reason(&self) -> (text: String)
        ensures
            text@ == failure_text(*self),
    {
        match self {
            ProbeFailure::PortOpenFailure(text) => String::from_str("Cannot open: ").concat(
                text.as_str(),
            ),
            ProbeFailure::RequestFailure(text) => String::from_str(
                "Failed to send handshake request: ",
            ).concat(text.as_str()),
            ProbeFailure::HandshakeTimeout => String::from_str("Handshake timeout"),
            ProbeFailure::ReadFailure(text) => String::from_str("Read error: ").concat(
                text.as_str(),
            ),
            ProbeFailure::AckFailure(text) => String::from_str("ACK failed: ").concat(
                text.as_str(),
            ),
        }
    }
}

/// The state of a probe that is about to read a byte.
fn resync_at(deadline: u64, now: u64) -> (state: ProbeState)
    ensures
        state == resync(deadline, now),
{
    if now > deadline {
        ProbeState::Failed { failure: ProbeFailure::HandshakeTimeout }
    } else {
        ProbeState::Syncing { deadline }
    }
}

impl ProbeState {
    /// A probe that has not begun.
    pub fn new() -> (state: Self)
        ensures
            state == ProbeState::Idle,
    {
        ProbeState::Idle
    }

    /// The action whose outcome this state awaits.
    pub fn action(&self) -> (action: ProbeAction)
        ensures
            action == action_of(*self),
    {
        match self {
            ProbeState::Idle => ProbeAction::Rest,
            ProbeState::Opening => ProbeAction::Open {
                baud_rate: BAUD_RATE,
                read_timeout_ms: READ_TIMEOUT_MS,
            },
            ProbeState::AwaitingBoot => ProbeAction::Wait { millis: ARDUINO_BOOT_WAIT_MS },
            ProbeState::RequestingHandshake => ProbeAction::Send { byte: CMD_HANDSHAKE_REQUEST },
            ProbeState::Syncing { .. } => ProbeAction::ReadByte,
            ProbeState::ReadingBody { .. } => ProbeAction::ReadBody { len: HANDSHAKE_BODY_SIZE },
            ProbeState::Validating { .. } => ProbeAction::Send { byte: CMD_HANDSHAKE_ACK },
            ProbeState::Found { .. } => ProbeAction::Finish,
            ProbeState::Failed { .. } => ProbeAction::Finish,
        }
    }

    /// Whether the probe is over.
    pub fn is_finished(&self) -> (finished: bool)
        ensures
            finished == (*self is Found || *self is Failed),
    {
        match self {
            ProbeState::Found { .. } => true,
            ProbeState::Failed { .. } => true,
            _ => false,
        }
    }

    /// How the probe ended, for the scan's record: the device's UUID and
    /// firmware version, or the failure as text. A probe that is not over
    /// has no outcome.
    pub fn outcome(&self) -> (outcome: Option<Result<([u8; 16], (u8, u8)), String>>)
        ensures
            match *self {
                ProbeState::Found { uuid, version } => outcome == Some(
                    Ok::<([u8; 16], (u8, u8)), String>((uuid, version)),
                ),
                ProbeState::Failed { failure } => outcome matches Some(Err(text)) && text@
                    == failure_text(failure),
                _ => outcome is None,
            },
    {
        match self {
            ProbeState::Found { uuid, version } => Some(Ok((*uuid, *version))),
            ProbeState::Failed { failure } => Some(Err(failure.reason())),
            _ => None,
        }
    }

    /// Takes in the outcome of the last action, at time `now`, and gives the
    /// state that follows.
    ///
    /// Noise before a response, a response that arrives in part and a frame
    /// with a wrong identifier all lead back to scanning, as long as the
    /// deadline has not passed; only a valid frame is acknowledged.
    pub fn step(self, event: ProbeEvent, now: u64) -> (next: ProbeState)
        ensures
            next == next_state(self, event, now),
    {
        match (self, event) {
            (ProbeState::Idle, ProbeEvent::Start) => ProbeState::Opening,
            (ProbeState::Opening, ProbeEvent::Opened) => ProbeState::AwaitingBoot,
            (ProbeState::Opening, ProbeEvent::OpenFailed(text)) => ProbeState::Failed {
                failure: ProbeFailure::PortOpenFailure(text),
            },
            (ProbeState::AwaitingBoot, ProbeEvent::BootWaited) => ProbeState::RequestingHandshake,
            (ProbeState::RequestingHandshake, ProbeEvent::RequestSent) => {
                let timeout: u64 = HANDSHAKE_TIMEOUT_SECS * 1000;
                let deadline: u64 = if now > u64::MAX - timeout {
                    u64::MAX
                } else {
                    now + timeout
                };
                ProbeState::Syncing { deadline }
            },
            (ProbeState::RequestingHandshake, ProbeEvent::RequestFailed(text)) => {
                ProbeState::Failed { failure: ProbeFailure::RequestFailure(text) }
            },
            (ProbeState::Syncing { deadline }, ProbeEvent::ByteRead(byte)) => {
                if byte == CMD_HANDSHAKE_RESPONSE {
                    ProbeState::ReadingBody { deadline }
                } else {
                    resync_at(deadline, now)
                }
            },
            (ProbeState::Syncing { deadline }, ProbeEvent::ReadTimedOut) => resync_at(
                deadline,
                now,
            ),
            (ProbeState::Syncing { deadline }, ProbeEvent::ReadFailed(text)) => {
                ProbeState::Failed { failure: ProbeFailure::ReadFailure(text) }
            },
            (ProbeState::ReadingBody { deadline }, ProbeEvent::BodyRead(body)) => {
                if body.len() != HANDSHAKE_BODY_SIZE {
                    return resync_at(deadline, now);
                }
                let mut frame: Vec<u8> = Vec::new();
                frame.push(CMD_HANDSHAKE_RESPONSE);
                let mut i: usize = 0;
                while i < 28
                    invariant
                        i <= 28,
                        body@.len() == 28,
                        frame@ == seq![CMD_HANDSHAKE_RESPONSE] + body@.take(i as int),
                    decreases 28 - i,
                {
                    frame.push(body[i]);
                    i += 1;
                }
                assert(frame@ =~= framed(body@));
                match HandshakeResponse::from_bytes(frame.as_slice()) {
                    Some(response) => {
                        proof {
                            super::protocol::lemma_valid_iff_buffer_starts_with_magic(
                                frame@,
                                response,
                            );
                            assert(handshake_bytes(response) == frame@);
                            assert(response.uuid@ =~= frame_uuid(frame@)@) by {
                                assert forall|j: int| 0 <= j < 16 implies response.uuid@[j]
                                    == frame@[11 + j] by {
                                    assert(handshake_bytes(response)[11 + j]
                                        == response.uuid@[j]);
                                }
                            }
                            assert(response.uuid =~= frame_uuid(frame@));
                            assert(handshake_bytes(response)[27] == response.version_major);
                            assert(handshake_bytes(response)[28] == response.version_minor);
                        }
                        if response.is_valid() {
                            ProbeState::Validating {
                                uuid: response.uuid,
                                version: (response.version_major, response.version_minor),
                            }
                        } else {
                            resync_at(deadline, now)
                        }
                    },
                    None => resync_at(deadline, now),
                }
            },
            (ProbeState::ReadingBody { deadline }, ProbeEvent::BodyIncomplete) => resync_at(
                deadline,
                now,
            ),
            (ProbeState::Validating { uuid, version }, ProbeEvent::AckSent) => ProbeState::Found {
                uuid,
                version,
            },
            (ProbeState::Validating { uuid, version }, ProbeEvent::AckFailed(text)) => {
                ProbeState::Failed { failure: ProbeFailure::AckFailure(text) }
            },
            (state, _) => state,
        }
    }
}

/// An event with the time at which it was handed in.
pub struct Timed {
    pub event: ProbeEvent,
    pub at: u64,
}

/// The state of a probe after a run of events, from its start.
pub open spec fn after_events(events: Seq<Timed>) -> ProbeState
    decreases events.len(),
{
    if events.len() == 0 {
        ProbeState::Idle
    } else {
        next_state(after_events(events.drop_last()), events.last().event, events.last().at)
    }
}

/// Whether a body completes a frame that carries the identifier, this UUID
/// and this version.
pub open spec fn is_handshake_of(body: Seq<u8>, uuid: [u8; 16], version: (u8, u8)) -> bool {
    let frame = framed(body);
    &&& body.len() == 28
    &&& starts_with_magic(frame)
    &&& uuid == frame_uuid(frame)
    &&& version == (frame[27], frame[28])
}

/// Whether event `body_at` of a run is a body that completes a valid frame
/// with this UUID and this version.
pub open spec fn read_at(events: Seq<Timed>, body_at: int, uuid: [u8; 16], version: (u8, u8)) -> bool {
    &&& 0 <= body_at < events.len()
    &&& events[body_at].event matches ProbeEvent::BodyRead(body) && is_handshake_of(
        body@,
        uuid,
        version,
    )
}

/// A probe that has a valid frame in hand, or has found a device, has read
/// the frame from the port: the UUID and the version are those of a body
/// that completed a frame with the identifier; and a device is found only
/// after the acknowledgment of that frame was written.
pub proof fn lemma_found_only_on_valid_frame(events: Seq<Timed>)
    ensures
        after_events(events) matches ProbeState::Validating { uuid, version } ==> exists|
            body_at: int,
        | read_at(events, body_at, uuid, version),
        after_events(events) matches ProbeState::Found { uuid, version } ==> exists|
            body_at: int,
            ack_at: int,
        |
            read_at(events, body_at, uuid, version) && body_at < ack_at < events.len()
                && events[ack_at].event is AckSent,
    decreases events.len(),
{
    if events.len() > 0 {
        let before = events.drop_last();
        let last = events.len() - 1;
        lemma_found_only_on_valid_frame(before);
        match after_events(events) {
            ProbeState::Validating { uuid, version } => {
                if after_events(before) is Validating {
                    let body_at = choose|body_at: int| read_at(before, body_at, uuid, version);
                    assert(read_at(events, body_at, uuid, version));
                } else {
                    assert(read_at(events, last, uuid, version));
                }
            },
            ProbeState::Found { uuid, version } => {
                if after_events(before) is Found {
                    let (body_at, ack_at) = choose|body_at: int, ack_at: int|
                        read_at(before, body_at, uuid, version) && body_at < ack_at < before.len()
                            && before[ack_at].event is AckSent;
                    assert(read_at(events, body_at, uuid, version) && body_at < ack_at
                        < events.len() && events[ack_at].event is AckSent);
                } else {
                    let body_at = choose|body_at: int| read_at(before, body_at, uuid, version);
                    assert(read_at(events, body_at, uuid, version) && body_at < last
                        < events.len() && events[last].event is AckSent);
                }
            },
            _ => {},
        }
    }
}

/// The deadline of a probe is set once, when the request has been sent, and
/// stays: a probe that is reading has the deadline of 8 seconds after some
/// event that reported the request as sent.
pub proof fn lemma_deadline_is_fixed(events: Seq<Timed>)
    ensures
        after_events(events) matches ProbeState::Syncing { deadline } ==> exists|sent_at: int|
            0 <= sent_at < events.len() && #[trigger] events[sent_at].event is RequestSent
                && deadline == deadline_after(events[sent_at].at),
        after_events(events) matches ProbeState::ReadingBody { deadline } ==> exists|sent_at: int|
            0 <= sent_at < events.len() && #[trigger] events[sent_at].event is RequestSent
                && deadline == deadline_after(events[sent_at].at),
    decreases events.len(),
{
    if events.len() > 0 {
        let before = events.drop_last();
        let last = events.len() - 1;
        lemma_found_only_on_valid_frame(before);
        lemma_deadline_is_fixed(before);
        let deadline = match after_events(events) {
            ProbeState::Syncing { deadline } => Some(deadline),
            ProbeState::ReadingBody { deadline } => Some(deadline),
            _ => None,
        };
        if let Some(deadline) = deadline {
            let carried = match after_events(before) {
                ProbeState::Syncing { deadline } => Some(deadline),
                ProbeState::ReadingBody { deadline } => Some(deadline),
                _ => None,
            };
            if carried is Some {
                let sent_at = choose|sent_at: int|
                    0 <= sent_at < before.len() && #[trigger] before[sent_at].event is RequestSent
                        && deadline == deadline_after(before[sent_at].at);
                assert(before[sent_at] == events[sent_at]);
                assert(events[sent_at].event is RequestSent);
            } else {
                assert(events[last].event is RequestSent);
            }
        }
    }
}

/// A probe that is over stays as it ended, whatever is handed in.
pub proof fn lemma_finished_is_final(state: ProbeState, event: ProbeEvent, now: u64)
    requires
        state is Found || state is Failed,
    ensures
        next_state(state, event, now) == state,
{
}

/// A read that ends after the deadline, without a valid frame in hand, ends
/// the probe with a timeout.
pub proof fn lemma_deadline_ends_the_probe(state: ProbeState, event: ProbeEvent, now: u64)
    requires
        match state {
            ProbeState::Syncing { deadline } => now > deadline && (event is ReadTimedOut || (
            event matches ProbeEvent::ByteRead(byte) && byte != CMD_HANDSHAKE_RESPONSE)),
            ProbeState::ReadingBody { deadline } => now > deadline && (event is BodyIncomplete || (
            event matches ProbeEvent::BodyRead(body) && !(body@.len() == 28 && starts_with_magic(
                framed(body@),
            )))),
            _ => false,
        },
    ensures
        next_state(state, event, now) == (ProbeState::Failed {
            failure: ProbeFailure::HandshakeTimeout,
        }),
{
}

} // verus!

use faderflow::comms::handshake::{
    ProbeAction, ProbeEvent, ProbeFailure, ProbeState, HANDSHAKE_TIMEOUT_SECS,
};
use faderflow::comms::protocol::{CMD_HANDSHAKE_ACK, CMD_HANDSHAKE_REQUEST, CMD_HANDSHAKE_RESPONSE};

fn body(magic_tail: &[u8; 8]) -> Vec<u8> {
    let mut body = Vec::new();
    body.extend_from_slice(magic_tail);
    body.push(0);
    body.push(1);
    for i in 0..16u8 {
        body.push(i + 1);
    }
    body.push(3);
    body.push(4);
    body
}

fn syncing_at(now: u64) -> ProbeState {
    let mut state = ProbeState::new();
    state = state.step(ProbeEvent::Start, 0);
    state = state.step(ProbeEvent::Opened, 0);
    state = state.step(ProbeEvent::BootWaited, now);
    state.step(ProbeEvent::RequestSent, now)
}

#[test]
fn a_probe_walks_through_its_actions() {
    let mut state = ProbeState::new();
    assert_eq!(state.action(), ProbeAction::Rest);
    state = state.step(ProbeEvent::Start, 0);
    assert_eq!(state, ProbeState::Opening);
    assert_eq!(state.action(), ProbeAction::Open { baud_rate: 115_200, read_timeout_ms: 20 });
    state = state.step(ProbeEvent::Opened, 10);
    assert_eq!(state, ProbeState::AwaitingBoot);
    assert_eq!(state.action(), ProbeAction::Wait { millis: 500 });
    state = state.step(ProbeEvent::BootWaited, 510);
    assert_eq!(state, ProbeState::RequestingHandshake);
    assert_eq!(state.action(), ProbeAction::Send { byte: CMD_HANDSHAKE_REQUEST });
    state = state.step(ProbeEvent::RequestSent, 512);
    assert_eq!(state, ProbeState::Syncing { deadline: 8512 });
    assert_eq!(state.action(), ProbeAction::ReadByte);
    state = state.step(ProbeEvent::ByteRead(CMD_HANDSHAKE_RESPONSE), 600);
    assert_eq!(state, ProbeState::ReadingBody { deadline: 8512 });
    assert_eq!(state.action(), ProbeAction::ReadBody { len: 28 });
    state = state.step(ProbeEvent::BodyRead(body(b"ADERFLOW")), 640);
    let uuid: [u8; 16] = [1, 2, 3, 4, 5, 6, 7, 8, 9, 10, 11, 12, 13, 14, 15, 16];
    assert_eq!(state, ProbeState::Validating { uuid, version: (3, 4) });
    assert_eq!(state.action(), ProbeAction::Send { byte: CMD_HANDSHAKE_ACK });
    assert!(!state.is_finished());
    state = state.step(ProbeEvent::AckSent, 641);
    assert_eq!(state, ProbeState::Found { uuid, version: (3, 4) });
    assert_eq!(state.action(), ProbeAction::Finish);
    assert!(state.is_finished());
    assert_eq!(state.outcome(), Some(Ok((uuid, (3, 4)))));
}

#[test]
fn the_timeout_is_eight_seconds() {
    assert_eq!(HANDSHAKE_TIMEOUT_SECS, 8);
    assert_eq!(syncing_at(1000), ProbeState::Syncing { deadline: 9000 });
    assert_eq!(syncing_at(u64::MAX - 5), ProbeState::Syncing { deadline: u64::MAX });
}

#[test]
fn noise_before_the_response_is_skipped() {
    let mut state = syncing_at(0);
    for byte in [0x00u8, 0xFF, 0x01, 0x10, b'A', b'f'] {
        state = state.step(ProbeEvent::ByteRead(byte), 100);
        assert_eq!(state, ProbeState::Syncing { deadline: 8000 });
    }
    state = state.step(ProbeEvent::ReadTimedOut, 120);
    assert_eq!(state, ProbeState::Syncing { deadline: 8000 });
    state = state.step(ProbeEvent::ByteRead(b'F'), 130);
    assert_eq!(state, ProbeState::ReadingBody { deadline: 8000 });
}

#[test]
fn a_partial_body_resumes_the_scan() {
    let state = syncing_at(0).step(ProbeEvent::ByteRead(b'F'), 10);
    let state = state.step(ProbeEvent::BodyIncomplete, 40);
    assert_eq!(state, ProbeState::Syncing { deadline: 8000 });

    let state = state.step(ProbeEvent::ByteRead(b'F'), 50);
    let short = body(b"ADERFLOW")[..20].to_vec();
    let state = state.step(ProbeEvent::BodyRead(short), 60);
    assert_eq!(state, ProbeState::Syncing { deadline: 8000 });
}

#[test]
fn a_wrong_identifier_resumes_the_scan() {
    let state = syncing_at(0).step(ProbeEvent::ByteRead(b'F'), 10);
    let state = state.step(ProbeEvent::BodyRead(body(b"ADERFLOX")), 40);
    assert_eq!(state, ProbeState::Syncing { deadline: 8000 });
    let state = state.step(ProbeEvent::ByteRead(b'F'), 50);
    let state = state.step(ProbeEvent::BodyRead(body(b"ADERFLOW")), 60);
    assert!(matches!(state, ProbeState::Validating { .. }));
}

#[test]
fn the_deadline_ends_the_probe() {
    let state = syncing_at(0).step(ProbeEvent::ReadTimedOut, 8000);
    assert_eq!(state, ProbeState::Syncing { deadline: 8000 });
    let state = state.step(ProbeEvent::ReadTimedOut, 8001);
    assert_eq!(state, ProbeState::Failed { failure: ProbeFailure::HandshakeTimeout });
    assert_eq!(state.outcome(), Some(Err("Handshake timeout".to_string())));

    let state = syncing_at(0).step(ProbeEvent::ByteRead(0x55), 9000);
    assert_eq!(state, ProbeState::Failed { failure: ProbeFailure::HandshakeTimeout });

    let state = syncing_at(0).step(ProbeEvent::ByteRead(b'F'), 7999);
    let state = state.step(ProbeEvent::BodyIncomplete, 8100);
    assert_eq!(state, ProbeState::Failed { failure: ProbeFailure::HandshakeTimeout });

    let state = syncing_at(0).step(ProbeEvent::ByteRead(b'F'), 7999);
    let state = state.step(ProbeEvent::BodyRead(body(b"ADERFLOX")), 8100);
    assert_eq!(state, ProbeState::Failed { failure: ProbeFailure::HandshakeTimeout });
}

#[test]
fn a_valid_frame_is_taken_even_after_the_deadline() {
    let state = syncing_at(0).step(ProbeEvent::ByteRead(b'F'), 7999);
    let state = state.step(ProbeEvent::BodyRead(body(b"ADERFLOW")), 8100);
    assert!(matches!(state, ProbeState::Validating { .. }));
}

#[test]
fn failures_carry_the_texts_of_the_scan() {
    let open = ProbeState::Opening.step(ProbeEvent::OpenFailed("Access denied".into()), 0);
    assert_eq!(open.outcome(), Some(Err("Cannot open: Access denied".to_string())));

    let request =
        ProbeState::RequestingHandshake.step(ProbeEvent::RequestFailed("broken pipe".into()), 0);
    assert_eq!(
        request.outcome(),
        Some(Err("Failed to send handshake request: broken pipe".to_string()))
    );

    let read = syncing_at(0).step(ProbeEvent::ReadFailed("device gone".into()), 5);
    assert_eq!(read.outcome(), Some(Err("Read error: device gone".to_string())));

    let ack = ProbeState::Validating { uuid: [0; 16], version: (1, 0) }
        .step(ProbeEvent::AckFailed("timed out".into()), 5);
    assert_eq!(ack.outcome(), Some(Err("ACK failed: timed out".to_string())));

    assert_eq!(ProbeFailure::HandshakeTimeout.reason(), "Handshake timeout");
}

#[test]
fn an_event_that_is_not_awaited_changes_nothing() {
    assert_eq!(ProbeState::Idle.step(ProbeEvent::Opened, 0), ProbeState::Idle);
    assert_eq!(ProbeState::Opening.step(ProbeEvent::ByteRead(b'F'), 0), ProbeState::Opening);
    let found = ProbeState::Found { uuid: [9; 16], version: (1, 1) };
    assert_eq!(
        found.step(ProbeEvent::Start, 0),
        ProbeState::Found { uuid: [9; 16], version: (1, 1) }
    );
    let failed = ProbeState::Failed { failure: ProbeFailure::HandshakeTimeout };
    assert_eq!(
        failed.step(ProbeEvent::AckSent, 0),
        ProbeState::Failed { failure: ProbeFailure::HandshakeTimeout }
    );
    assert_eq!(ProbeState::Idle.outcome(), None);
    assert_eq!(syncing_at(0).outcome(), None);
}

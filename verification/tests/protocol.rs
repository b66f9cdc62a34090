use faderflow::comms::protocol::{
    DisplayUpdateAppCommand, DisplayUpdateVolumeCommand, FaderMessage, HandshakeResponse,
    CMD_DISPLAY_UPDATE_APP_NAME, CMD_DISPLAY_UPDATE_APP_VOLUME, CMD_FADER_UPDATE,
    CMD_HANDSHAKE_RESPONSE, DISPLAY_APP_FRAME_SIZE, DISPLAY_VOLUME_FRAME_SIZE, FADER_FRAME_SIZE,
    HANDSHAKE_FRAME_SIZE, MAGIC_STRING, UUID_SIZE,
};

fn fader(position: u8) -> FaderMessage {
    FaderMessage { cmd: CMD_FADER_UPDATE, channel: 0, position }
}

fn valid_frame_bytes() -> Vec<u8> {
    let mut bytes = Vec::new();
    bytes.extend_from_slice(b"FADERFLOW");
    bytes.push(0);
    bytes.push(7);
    for i in 0..16u8 {
        bytes.push(0xA0 + i);
    }
    bytes.push(2);
    bytes.push(5);
    bytes
}

#[test]
fn magic_is_the_ascii_identifier() {
    assert_eq!(&MAGIC_STRING[..], b"FADERFLOW");
    assert_eq!(CMD_HANDSHAKE_RESPONSE, b'F');
}

#[test]
fn frames_have_their_fixed_sizes() {
    assert_eq!(UUID_SIZE, 16);
    assert_eq!(HANDSHAKE_FRAME_SIZE, 29);
    assert_eq!(FADER_FRAME_SIZE, 3);
    assert_eq!(DISPLAY_APP_FRAME_SIZE, 66);
    assert_eq!(DISPLAY_VOLUME_FRAME_SIZE, 3);
    let handshake = HandshakeResponse::from_bytes(&valid_frame_bytes()).unwrap();
    assert_eq!(handshake.to_bytes().len(), HANDSHAKE_FRAME_SIZE);
    assert_eq!(DisplayUpdateAppCommand::new(0, "a").to_bytes().len(), DISPLAY_APP_FRAME_SIZE);
    assert_eq!(DisplayUpdateVolumeCommand::new(0, 1).to_bytes().len(), DISPLAY_VOLUME_FRAME_SIZE);
}

#[test]
fn position_percent_at_the_ends_and_the_middle() {
    assert_eq!(fader(0).position_percent(), 0);
    assert_eq!(fader(255).position_percent(), 100);
    assert_eq!(fader(128).position_percent(), 50);
}

#[test]
fn position_percent_never_falls() {
    let mut last = 0u8;
    for position in 0..=255u8 {
        let percent = fader(position).position_percent();
        assert!(percent >= last, "position {position}");
        assert!(percent <= 100);
        last = percent;
    }
}

#[test]
fn position_percent_agrees_with_the_floating_point_formula() {
    for position in 0..=255u8 {
        let expected = (position as f32 / 255.0 * 100.0) as u8;
        assert_eq!(fader(position).position_percent(), expected, "position {position}");
    }
}

#[test]
fn position_percent_exact_values() {
    assert_eq!(fader(1).position_percent(), 0);
    assert_eq!(fader(3).position_percent(), 1);
    assert_eq!(fader(51).position_percent(), 20);
    assert_eq!(fader(127).position_percent(), 49);
    assert_eq!(fader(254).position_percent(), 99);
}

#[test]
fn handshake_decodes_exactly_29_bytes() {
    let bytes = valid_frame_bytes();
    assert_eq!(bytes.len(), 29);
    let frame = HandshakeResponse::from_bytes(&bytes).expect("29 bytes decode");
    assert_eq!(&frame.magic[..9], b"FADERFLOW");
    assert_eq!(frame.magic[9], 0);
    assert_eq!(frame.device_type, 7);
    assert_eq!(frame.uuid[0], 0xA0);
    assert_eq!(frame.uuid[15], 0xAF);
    assert_eq!(frame.version_major, 2);
    assert_eq!(frame.version_minor, 5);
    assert_eq!(frame.to_bytes(), bytes);

    assert!(HandshakeResponse::from_bytes(&bytes[..28]).is_none());
    let mut longer = bytes.clone();
    longer.push(0);
    assert!(HandshakeResponse::from_bytes(&longer).is_none());
    assert!(HandshakeResponse::from_bytes(&[]).is_none());
}

#[test]
fn handshake_with_magic_is_valid_whatever_else_it_holds() {
    let mut bytes = valid_frame_bytes();
    assert!(HandshakeResponse::from_bytes(&bytes).unwrap().is_valid());
    for at in 9..29 {
        bytes[at] = bytes[at].wrapping_add(0x55);
    }
    assert!(HandshakeResponse::from_bytes(&bytes).unwrap().is_valid());
}

#[test]
fn any_changed_byte_of_the_magic_invalidates() {
    for at in 0..9 {
        for delta in [1u8, 0x20, 0x80, 0xFF] {
            let mut bytes = valid_frame_bytes();
            bytes[at] = bytes[at].wrapping_add(delta);
            let frame = HandshakeResponse::from_bytes(&bytes).unwrap();
            assert!(!frame.is_valid(), "byte {at} changed by {delta}");
        }
    }
}

#[test]
fn lower_case_magic_is_invalid() {
    let mut bytes = valid_frame_bytes();
    bytes[..9].copy_from_slice(b"faderflow");
    assert!(!HandshakeResponse::from_bytes(&bytes).unwrap().is_valid());
}

#[test]
fn fader_frame_decodes_exactly_3_bytes() {
    let frame = FaderMessage::from_bytes(&[0x10, 3, 200]).unwrap();
    assert_eq!((frame.cmd, frame.channel, frame.position), (0x10, 3, 200));
    assert_eq!(frame.position_percent(), 78);
    assert!(FaderMessage::from_bytes(&[0x10, 3]).is_none());
    assert!(FaderMessage::from_bytes(&[0x10, 3, 200, 0]).is_none());
}

#[test]
fn app_name_frame_is_66_bytes_padded_with_zeros() {
    let frame = DisplayUpdateAppCommand::new(2, "Spotify");
    assert_eq!(frame.cmd, CMD_DISPLAY_UPDATE_APP_NAME);
    assert_eq!(frame.channel, 2);
    assert_eq!(&frame.name[..7], b"Spotify");
    assert!(frame.name[7..].iter().all(|b| *b == 0));
    let bytes = frame.to_bytes();
    assert_eq!(bytes.len(), 66);
    assert_eq!(bytes[0], 0x03);
    assert_eq!(bytes[1], 2);
    assert_eq!(&bytes[2..9], b"Spotify");
    assert!(bytes[9..].iter().all(|b| *b == 0));
}

#[test]
fn app_name_is_cut_at_63_bytes() {
    let long: String = "abcdefghij".repeat(7);
    assert_eq!(long.len(), 70);
    let frame = DisplayUpdateAppCommand::new(0, &long);
    assert_eq!(&frame.name[..63], &long.as_bytes()[..63]);
    assert_eq!(frame.name[63], 0);

    let exact: String = "x".repeat(63);
    let frame = DisplayUpdateAppCommand::new(0, &exact);
    assert_eq!(&frame.name[..63], exact.as_bytes());
    assert_eq!(frame.name[63], 0);

    let empty = DisplayUpdateAppCommand::new(4, "");
    assert!(empty.name.iter().all(|b| *b == 0));
}

#[test]
fn app_name_is_cut_by_bytes_not_by_characters() {
    let name: String = "é".repeat(40);
    assert_eq!(name.len(), 80);
    let frame = DisplayUpdateAppCommand::new(1, &name);
    assert_eq!(&frame.name[..63], &name.as_bytes()[..63]);
    assert_eq!(frame.name[62], 0xC3);
    assert_eq!(frame.name[63], 0);
}

#[test]
fn volume_frame_is_limited_to_100() {
    let frame = DisplayUpdateVolumeCommand::new(1, 42);
    assert_eq!(frame.to_bytes(), vec![CMD_DISPLAY_UPDATE_APP_VOLUME, 1, 42]);
    assert_eq!(DisplayUpdateVolumeCommand::new(1, 100).volume, 100);
    assert_eq!(DisplayUpdateVolumeCommand::new(1, 101).volume, 100);
    assert_eq!(DisplayUpdateVolumeCommand::new(1, 255).volume, 100);
    assert_eq!(DisplayUpdateVolumeCommand::new(1, 0).volume, 0);
}

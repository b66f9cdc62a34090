use faderflow::comms::device_info::{DeviceInfo, DeviceStatus};
use faderflow::utils::text::decimal;

fn device() -> DeviceInfo {
    DeviceInfo {
        port_name: "COM7".to_string(),
        uuid: [
            0x00, 0x01, 0x0A, 0xFF, 0x10, 0x20, 0x30, 0x40, 0xDE, 0xAD, 0xBE, 0xEF, 0x99, 0x88,
            0x77, 0x66,
        ],
        version: (1, 12),
        rename: None,
        status: DeviceStatus::Connected,
        channel_assignments: Default::default(),
    }
}

#[test]
fn uuid_is_four_groups_of_upper_case_hex() {
    assert_eq!(device().uuid_string(), "00010AFF-10203040-DEADBEEF-99887766");
    assert_eq!(DeviceInfo::uuid_str(&[0; 16]), "00000000-00000000-00000000-00000000");
    assert_eq!(DeviceInfo::uuid_str(&[0xAB; 16]), "ABABABAB-ABABABAB-ABABABAB-ABABABAB");
}

#[test]
fn uuid_text_matches_the_formatting_of_the_standard_library() {
    let uuid: [u8; 16] = [3, 14, 15, 92, 65, 35, 89, 79, 32, 38, 46, 26, 43, 38, 32, 79];
    let expected = uuid
        .chunks(4)
        .map(|c| c.iter().map(|b| format!("{b:02X}")).collect::<String>())
        .collect::<Vec<_>>()
        .join("-");
    assert_eq!(DeviceInfo::uuid_str(&uuid), expected);
}

#[test]
fn version_is_v_major_dot_minor() {
    assert_eq!(device().version_string(), "v1.12");
    let mut other = device();
    other.version = (0, 0);
    assert_eq!(other.version_string(), "v0.0");
    other.version = (255, 100);
    assert_eq!(other.version_string(), "v255.100");
}

#[test]
fn display_name_prefers_the_users_name() {
    let mut dev = device();
    assert_eq!(dev.display_name(), "COM7");
    dev.rename = Some("Desk mixer".to_string());
    assert_eq!(dev.display_name(), "Desk mixer");
}

#[test]
fn committing_an_empty_name_removes_the_name() {
    let mut dev = device();
    dev.commit_rename("Left".to_string());
    assert_eq!(dev.rename.as_deref(), Some("Left"));
    dev.commit_rename(String::new());
    assert_eq!(dev.rename, None);
    assert_eq!(dev.port_name, "COM7");
}

#[test]
fn assigning_a_channel_leaves_the_others() {
    let mut dev = device();
    dev.assign_channel(0, "Spotify".to_string());
    dev.assign_channel(4, "Discord".to_string());
    assert_eq!(dev.channel_assignments, ["Spotify", "", "", "", "Discord"].map(String::from));
    dev.assign_channel(0, String::new());
    assert_eq!(dev.channel_assignments, ["", "", "", "", "Discord"].map(String::from));
}

#[test]
fn decimal_text_of_numbers() {
    assert_eq!(decimal(0), "0");
    assert_eq!(decimal(7), "7");
    assert_eq!(decimal(10), "10");
    assert_eq!(decimal(4096), "4096");
    assert_eq!(decimal(1_000_000), "1000000");
    assert_eq!(decimal(u64::MAX), "18446744073709551615");
    for n in [9u64, 99, 100, 101, 12345, 65535] {
        assert_eq!(decimal(n), n.to_string());
    }
}

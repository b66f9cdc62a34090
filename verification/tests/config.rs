use faderflow::comms::device_info::{DeviceInfo, DeviceStatus};
use faderflow::utils::config::{
    assignment_section, assignments_in, find_assignments, find_rename, load_device_assignments,
    load_device_renames, rename_section, renames_in, save_device_assignments,
    save_device_renames, set_section, ConfigValue,
};

const UUID_A: &str = "01010101-01010101-01010101-01010101";
const UUID_B: &str = "02020202-02020202-02020202-02020202";

fn device(byte: u8, rename: Option<&str>, slots: [&str; 5]) -> DeviceInfo {
    DeviceInfo {
        port_name: format!("COM{byte}"),
        uuid: [byte; 16],
        version: (1, 0),
        rename: rename.map(String::from),
        status: DeviceStatus::Connected,
        channel_assignments: slots.map(String::from),
    }
}

fn text(value: &str) -> ConfigValue {
    ConfigValue::Text(value.to_string())
}

#[test]
fn saved_assignments_come_back_as_they_were() {
    let devices = vec![
        device(1, None, ["Spotify", "", "Discord", "", ""]),
        device(2, Some("Deck"), ["", "", "", "", "Game"]),
    ];
    let saved = save_device_assignments(None, &devices).expect("the document is TOML");
    let loaded = load_device_assignments(Some(&saved));
    assert_eq!(loaded.len(), 2);
    for dev in &devices {
        let uuid = dev.uuid_string();
        assert_eq!(find_assignments(&loaded, &uuid), dev.channel_assignments);
    }
    assert_eq!(
        find_assignments(&loaded, &UUID_A.to_string()),
        ["Spotify", "", "Discord", "", ""].map(String::from)
    );
}

#[test]
fn five_empty_slots_come_back_as_five_empty_slots() {
    let devices = vec![device(1, None, ["", "", "", "", ""])];
    let saved = save_device_assignments(None, &devices).unwrap();
    let loaded = load_device_assignments(Some(&saved));
    assert_eq!(loaded, vec![(UUID_A.to_string(), ["", "", "", "", ""].map(String::from))]);
}

#[test]
fn saved_names_come_back_as_they_were() {
    let devices = vec![
        device(1, Some("Left deck"), ["", "", "", "", ""]),
        device(2, None, ["", "", "", "", ""]),
    ];
    let saved = save_device_renames(None, &devices).unwrap();
    let loaded = load_device_renames(Some(&saved));
    assert_eq!(loaded, vec![(UUID_A.to_string(), "Left deck".to_string())]);
    assert_eq!(find_rename(&loaded, &UUID_A.to_string()), Some("Left deck".to_string()));
    assert_eq!(find_rename(&loaded, &UUID_B.to_string()), None);
}

#[test]
fn saving_one_section_keeps_the_other_and_whatever_else_the_file_holds() {
    let existing = "title = \"mixer\"\nlimit = 5\n\n[renames]\n\"01010101-01010101-01010101-01010101\" = \"Old\"\n\n[other]\nflag = true\nratio = 0.5\n";
    let devices = vec![device(2, Some("New"), ["a", "b", "c", "d", "e"])];
    let saved = save_device_assignments(Some(existing), &devices).unwrap();

    assert_eq!(load_device_renames(Some(&saved)), vec![(UUID_A.to_string(), "Old".to_string())]);
    assert_eq!(
        load_device_assignments(Some(&saved)),
        vec![(UUID_B.to_string(), ["a", "b", "c", "d", "e"].map(String::from))]
    );
    let document: toml::Value = toml::from_str(&saved).unwrap();
    assert_eq!(document.get("title").and_then(|v| v.as_str()), Some("mixer"));
    assert_eq!(document.get("limit").and_then(|v| v.as_integer()), Some(5));
    assert_eq!(document["other"].get("flag").and_then(|v| v.as_bool()), Some(true));
    assert_eq!(document["other"].get("ratio").and_then(|v| v.as_float()), Some(0.5));

    let renamed = save_device_renames(Some(&saved), &devices).unwrap();
    assert_eq!(load_device_renames(Some(&renamed)), vec![(UUID_B.to_string(), "New".to_string())]);
    assert_eq!(
        load_device_assignments(Some(&renamed)),
        vec![(UUID_B.to_string(), ["a", "b", "c", "d", "e"].map(String::from))]
    );
}

#[test]
fn a_file_that_cannot_be_read_or_parsed_gives_nothing() {
    assert_eq!(load_device_renames(None), Vec::new());
    assert_eq!(load_device_assignments(None), Vec::new());
    assert_eq!(load_device_renames(Some("renames = [unclosed")), Vec::new());
    assert_eq!(load_device_assignments(Some("= = =")), Vec::new());
    assert_eq!(load_device_renames(Some("")), Vec::new());
}

#[test]
fn a_section_of_the_wrong_shape_gives_nothing() {
    assert_eq!(load_device_renames(Some("renames = 5\n")), Vec::new());
    assert_eq!(load_device_assignments(Some("assignments = \"none\"\n")), Vec::new());
    assert_eq!(load_device_renames(Some("[assignments]\nx = [\"a\"]\n")), Vec::new());
}

#[test]
fn entries_of_the_wrong_shape_are_skipped() {
    let file = "[renames]\na = \"Alpha\"\nb = 7\nc = [\"x\"]\nd = \"Delta\"\n\n[assignments]\na = \"text\"\nb = [\"one\", 2, \"three\"]\nc = [\"1\", \"2\", \"3\", \"4\", \"5\", \"6\", \"7\"]\nd = []\n";
    assert_eq!(
        load_device_renames(Some(file)),
        vec![("a".to_string(), "Alpha".to_string()), ("d".to_string(), "Delta".to_string())]
    );
    assert_eq!(
        load_device_assignments(Some(file)),
        vec![
            ("b".to_string(), ["one", "", "three", "", ""].map(String::from)),
            ("c".to_string(), ["1", "2", "3", "4", "5"].map(String::from)),
            ("d".to_string(), ["", "", "", "", ""].map(String::from)),
        ]
    );
}

#[test]
fn a_file_that_cannot_be_parsed_is_replaced_on_saving() {
    let devices = vec![device(1, Some("Desk"), ["", "", "", "", ""])];
    let saved = save_device_renames(Some("this is [not toml"), &devices).unwrap();
    assert_eq!(load_device_renames(Some(&saved)), vec![(UUID_A.to_string(), "Desk".to_string())]);
}

#[test]
fn saving_differs_from_the_text_before() {
    let devices = vec![device(1, Some("Desk"), ["", "", "", "", ""])];
    let saved = save_device_renames(Some(""), &devices).unwrap();
    assert_ne!(saved, "");
    assert!(saved.contains("[renames]"));
    assert!(saved.contains("Desk"));
}

#[test]
fn of_two_devices_with_one_uuid_the_last_decides() {
    let devices = vec![
        device(1, Some("First"), ["a", "", "", "", ""]),
        device(2, Some("Other"), ["", "", "", "", ""]),
        device(1, Some("Second"), ["", "b", "", "", ""]),
    ];
    assert_eq!(
        rename_section(&devices),
        vec![(UUID_A.to_string(), text("Second")), (UUID_B.to_string(), text("Other"))]
    );
    let entries = assignment_section(&devices);
    assert_eq!(entries.len(), 2);
    assert_eq!(entries[0].0, UUID_A);
    assert_eq!(
        entries[0].1,
        ConfigValue::List(vec![text(""), text("b"), text(""), text(""), text("")])
    );
}

#[test]
fn a_section_is_set_in_place_or_at_the_end() {
    let document = ConfigValue::Table(vec![
        ("first".to_string(), text("1")),
        ("renames".to_string(), ConfigValue::Table(vec![("old".to_string(), text("x"))])),
        ("last".to_string(), text("3")),
    ]);
    let section = vec![("new".to_string(), text("y"))];
    let updated = set_section(Some(document), "renames", section);
    assert_eq!(
        updated,
        ConfigValue::Table(vec![
            ("first".to_string(), text("1")),
            ("renames".to_string(), ConfigValue::Table(vec![("new".to_string(), text("y"))])),
            ("last".to_string(), text("3")),
        ])
    );
    assert_eq!(
        renames_in(&Some(updated)),
        vec![("new".to_string(), "y".to_string())]
    );

    let fresh = set_section(None, "assignments", Vec::new());
    assert_eq!(
        fresh,
        ConfigValue::Table(vec![("assignments".to_string(), ConfigValue::Table(Vec::new()))])
    );
    assert_eq!(assignments_in(&Some(fresh)), Vec::new());

    let replaced = set_section(Some(text("not a table")), "renames", Vec::new());
    assert_eq!(
        replaced,
        ConfigValue::Table(vec![("renames".to_string(), ConfigValue::Table(Vec::new()))])
    );
}

#[test]
fn names_with_quotes_and_other_scripts_survive() {
    let devices = vec![device(1, Some("Пульт \"A\" = [1]\n#2"), ["", "Ünïcödé 音量", "", "", ""])];
    let renames = save_device_renames(None, &devices).unwrap();
    assert_eq!(
        find_rename(&load_device_renames(Some(&renames)), &UUID_A.to_string()),
        devices[0].rename
    );
    let assignments = save_device_assignments(None, &devices).unwrap();
    assert_eq!(
        find_assignments(&load_device_assignments(Some(&assignments)), &UUID_A.to_string()),
        devices[0].channel_assignments
    );
}

#[test]
fn without_a_saved_entry_the_channels_are_unassigned() {
    let pairs = vec![(UUID_A.to_string(), ["x", "", "", "", ""].map(String::from))];
    assert_eq!(find_assignments(&pairs, &UUID_B.to_string()), ["", "", "", "", ""].map(String::from));
    assert_eq!(
        find_assignments(&pairs, &UUID_A.to_string()),
        ["x", "", "", "", ""].map(String::from)
    );
}

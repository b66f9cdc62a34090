use faderflow::audio::backend::{AudioBackend, AudioError, AudioUpdate};
use faderflow::audio::platform::linux::LinuxAudioBackend;
use faderflow::audio::platform::macos::MacOSAudioBackend;
use faderflow::audio::session::AudioSession;
use faderflow::audio::tracker::{
    default_device_notification, is_listed_session, process_name_of, resolve_display_name,
    session_notifications, ControlHandles, RawSession, RegistryEntry, SessionState,
    SessionTracker, APP_CONTEXT,
};
use faderflow::utils::icon::bgra_to_rgba;

fn raw(pid: u32, path: Option<&str>, name: Option<&str>) -> RawSession {
    RawSession {
        state: SessionState::Active,
        process_id: pid,
        process_path: path.map(String::from),
        display_name: name.map(String::from),
        volume: Some(5000),
        is_muted: false,
        icon_handle: None,
    }
}

fn handles(n: usize) -> ControlHandles {
    ControlHandles { volume_control: n, session_control: n + 1, callback: n + 2 }
}

fn entry(name: &str, n: usize) -> RegistryEntry {
    RegistryEntry { name: name.to_string(), handles: handles(n) }
}

#[test]
fn the_process_name_is_the_last_component_without_exe() {
    assert_eq!(process_name_of("C:\\Program Files\\Spotify\\Spotify.exe"), "Spotify");
    assert_eq!(process_name_of("chrome.exe"), "chrome");
    assert_eq!(process_name_of("C:\\tools\\setup.exe.exe"), "setup");
    assert_eq!(process_name_of("C:\\tools\\notes.txt"), "notes.txt");
    assert_eq!(process_name_of("C:\\dir.exe\\app"), "app");
    assert_eq!(process_name_of("C:\\dir\\"), "");
    assert_eq!(process_name_of(""), "");
    assert_eq!(process_name_of(".exe"), "");
    assert_eq!(process_name_of("C:\\x\\Game.EXE"), "Game.EXE");
    assert_eq!(process_name_of("D:\\Игры\\Игра.exe"), "Игра");
}

#[test]
fn the_process_name_agrees_with_the_standard_library() {
    for path in ["a\\b\\c.exe", "exe", "x.exe.exe.exe", "\\\\", "a.exe\\", "é\\ü.exe", "exe.exe"] {
        let expected = path.split('\\').last().map(|s| s.trim_end_matches(".exe")).unwrap();
        assert_eq!(process_name_of(path), expected, "path {path:?}");
    }
}

#[test]
fn the_display_name_falls_back_in_three_steps() {
    let by_process = raw(10, Some("C:\\Apps\\Music.exe"), Some("Own name"));
    assert_eq!(resolve_display_name(&by_process), "Music");
    assert_eq!(resolve_display_name(&raw(10, None, Some("Own name"))), "Own name");
    assert_eq!(resolve_display_name(&raw(10, None, Some(""))), "Process 10");
    assert_eq!(
        resolve_display_name(&raw(4711, None, Some("@%SystemRoot%\\System32\\x.dll,-1"))),
        "Process 4711"
    );
    assert_eq!(resolve_display_name(&raw(10, None, Some("@"))), "@");
    assert_eq!(resolve_display_name(&raw(10, None, Some("%@"))), "%@");
    assert_eq!(resolve_display_name(&raw(0, None, None)), "Process 0");
    assert_eq!(resolve_display_name(&raw(u32::MAX, None, None)), "Process 4294967295");
}

#[test]
fn sessions_without_process_or_volume_or_life_are_not_listed() {
    assert!(is_listed_session(&raw(10, None, None)));
    assert!(!is_listed_session(&raw(0, None, None)));
    let mut expired = raw(10, None, None);
    expired.state = SessionState::Expired;
    assert!(!is_listed_session(&expired));
    let mut inactive = raw(10, None, None);
    inactive.state = SessionState::Inactive;
    assert!(is_listed_session(&inactive));
    let mut silent = raw(10, None, None);
    silent.volume = None;
    assert!(!is_listed_session(&silent));
}

#[test]
fn a_poll_lists_sessions_and_names_to_register() {
    let tracker = SessionTracker::new();
    let mut muted = raw(20, Some("D:\\Games\\Game.exe"), None);
    muted.is_muted = true;
    muted.volume = Some(750);
    muted.icon_handle = Some(3);
    let poll = tracker.enumerate(&vec![
        raw(10, Some("C:\\Apps\\Music.exe"), None),
        raw(0, Some("C:\\Apps\\Ghost.exe"), None),
        muted,
        raw(11, Some("C:\\Other\\Music.exe"), None),
    ]);
    let mut game = AudioSession::new("Game".into(), "Game".into(), 750, true, 20);
    game.icon_handle = Some(3);
    assert_eq!(
        poll.sessions,
        vec![
            AudioSession::new("Music".into(), "Music".into(), 5000, false, 10),
            game,
            AudioSession::new("Music".into(), "Music".into(), 5000, false, 11),
        ]
    );
    assert_eq!(poll.to_register, vec!["Music".to_string(), "Game".to_string()]);
    assert_eq!(poll.register_from, vec![0, 2]);
}

#[test]
fn a_registration_comes_from_the_first_session_of_its_name() {
    let mut tracker = SessionTracker::new();
    let first = tracker.enumerate(&vec![raw(10, Some("Music.exe"), None)]);
    assert_eq!(first.register_from, vec![0]);
    tracker.commit(&first.sessions, vec![entry("Music", 100)]);

    let mut unheard = raw(40, Some("Chat.exe"), None);
    unheard.volume = None;
    let poll = tracker.enumerate(&vec![
        raw(0, Some("Game.exe"), None),
        raw(10, Some("Music.exe"), None),
        unheard,
        raw(20, Some("Game.exe"), None),
        raw(41, Some("Chat.exe"), None),
        raw(21, Some("Game.exe"), None),
    ]);
    assert_eq!(poll.sessions.len(), 4);
    assert_eq!(poll.to_register, vec!["Game".to_string(), "Chat".to_string()]);
    assert_eq!(poll.register_from, vec![3, 4]);
}

#[test]
fn handles_are_kept_registered_and_released() {
    let mut tracker = SessionTracker::new();
    let first = tracker.enumerate(&vec![
        raw(10, Some("Music.exe"), None),
        raw(20, Some("Game.exe"), None),
    ]);
    let released = tracker.commit(&first.sessions, vec![entry("Music", 100), entry("Game", 200)]);
    assert_eq!(released, Vec::new());
    assert_eq!(tracker.registered_count(), 2);
    assert_eq!(tracker.handles_for("Music"), Some(handles(100)));
    assert_eq!(tracker.handles_for("Game"), Some(handles(200)));
    assert_eq!(tracker.handles_for("Chat"), None);

    let second = tracker.enumerate(&vec![
        raw(10, Some("Music.exe"), None),
        raw(30, Some("Chat.exe"), None),
    ]);
    assert_eq!(second.to_register, vec!["Chat".to_string()]);
    let released = tracker.commit(&second.sessions, vec![entry("Chat", 300)]);
    assert_eq!(released, vec![entry("Game", 200)]);
    assert_eq!(tracker.handles_for("Music"), Some(handles(100)));
    assert_eq!(tracker.handles_for("Chat"), Some(handles(300)));
    assert_eq!(tracker.handles_for("Game"), None);
    assert_eq!(tracker.registered_count(), 2);

    let third = tracker.enumerate(&Vec::new());
    assert_eq!(third.sessions, Vec::new());
    let released = tracker.commit(&third.sessions, Vec::new());
    assert_eq!(released, vec![entry("Music", 100), entry("Chat", 300)]);
    assert_eq!(tracker.registered_count(), 0);
}

#[test]
fn offered_handles_that_are_not_needed_come_back() {
    let mut tracker = SessionTracker::new();
    let poll = tracker.enumerate(&vec![raw(10, Some("Music.exe"), None)]);
    tracker.commit(&poll.sessions, vec![entry("Music", 100)]);
    let poll = tracker.enumerate(&vec![raw(10, Some("Music.exe"), None)]);
    assert_eq!(poll.to_register, Vec::<String>::new());
    let released = tracker.commit(
        &poll.sessions,
        vec![entry("Music", 500), entry("Stranger", 600), entry("Music", 700)],
    );
    assert_eq!(released, vec![entry("Music", 500), entry("Stranger", 600), entry("Music", 700)]);
    assert_eq!(tracker.handles_for("Music"), Some(handles(100)));
    assert_eq!(tracker.registered_count(), 1);
}

#[test]
fn a_failed_registration_leaves_the_session_without_handles() {
    let mut tracker = SessionTracker::new();
    let poll = tracker.enumerate(&vec![raw(10, Some("Music.exe"), None)]);
    assert_eq!(poll.sessions.len(), 1);
    assert_eq!(tracker.commit(&poll.sessions, Vec::new()), Vec::new());
    assert_eq!(tracker.handles_for("Music"), None);
    let again = tracker.enumerate(&vec![raw(10, Some("Music.exe"), None)]);
    assert_eq!(again.to_register, vec!["Music".to_string()]);
}

#[test]
fn own_changes_are_not_passed_on() {
    let name = "Music".to_string();
    assert_eq!(session_notifications(&name, 4000, true, Some(APP_CONTEXT)), Vec::new());
    let expected = vec![
        AudioUpdate::VolumeChanged("Music".into(), 4000),
        AudioUpdate::MuteChanged("Music".into(), true),
    ];
    assert_eq!(session_notifications(&name, 4000, true, None), expected);
    assert_eq!(session_notifications(&name, 4000, true, Some(APP_CONTEXT + 1)), expected);
    assert_eq!(session_notifications(&name, 4000, true, Some(0)), expected);
    assert_eq!(APP_CONTEXT, 0x12345678_1234_1234_1234_123456789abc);
}

#[test]
fn only_the_console_render_device_is_reported() {
    assert_eq!(
        default_device_notification(true, true, Some("Headset".into())),
        Some(AudioUpdate::DefaultDeviceChanged("Headset".into()))
    );
    assert_eq!(
        default_device_notification(true, true, None),
        Some(AudioUpdate::DefaultDeviceChanged("Unknown Device".into()))
    );
    assert_eq!(default_device_notification(false, true, Some("Mic".into())), None);
    assert_eq!(default_device_notification(true, false, Some("Headset".into())), None);
    assert_eq!(default_device_notification(false, false, None), None);
}

#[test]
fn pixels_change_from_bgra_to_rgba() {
    assert_eq!(bgra_to_rgba(&[1, 2, 3, 4, 10, 20, 30, 40]), vec![3, 2, 1, 4, 30, 20, 10, 40]);
    assert_eq!(bgra_to_rgba(&[]), Vec::<u8>::new());
    assert_eq!(bgra_to_rgba(&[1, 2, 3, 4, 5, 6]), vec![3, 2, 1, 4]);
    assert_eq!(bgra_to_rgba(&[9, 9, 9]), Vec::<u8>::new());
}

#[test]
fn the_backends_without_a_mixer_report_nothing() {
    let mut linux = LinuxAudioBackend::new();
    assert_eq!(
        linux.initialize(),
        Err(AudioError::Unsupported("Linux support not yet implemented".into()))
    );
    assert_eq!(linux.get_sessions(), Ok(Vec::new()));
    assert_eq!(linux.set_volume("a", 5), Ok(()));
    assert_eq!(linux.set_mute("a", true), Ok(()));
    let (sender, _receiver) = std::sync::mpsc::channel();
    assert_eq!(linux.start_listening(sender), Ok(()));
    assert_eq!(linux.stop_listening(), Ok(()));
    assert_eq!(linux.get_output_devices(), Ok(Vec::new()));
    assert_eq!(linux.get_default_output_device(), None);

    let mut mac = MacOSAudioBackend::new();
    let error = mac.initialize().unwrap_err();
    assert_eq!(error.message(), "macOS support not yet implemented");
    assert_eq!(mac.get_sessions(), Ok(Vec::new()));
    assert_eq!(mac.get_default_output_device(), None);
}

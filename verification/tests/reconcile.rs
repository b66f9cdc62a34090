use faderflow::audio::backend::AudioUpdate;
use faderflow::audio::reconcile::{
    apply_notifications, apply_snapshot, elapsed, find_refresh, find_session, is_settled,
    set_local_volume, toggle_local_mute, ECHO_WINDOW_MS, EXTERNAL_DEBOUNCE_MS, LOCAL_DEBOUNCE_MS,
};
use faderflow::audio::session::{AudioSession, VOLUME_FULL};

fn session(id: &str, volume: u16) -> AudioSession {
    AudioSession::new(id.to_string(), id.to_string(), volume, false, 4242)
}

fn volume_of(sessions: &[AudioSession], id: &str) -> u16 {
    sessions.iter().find(|s| s.id == id).expect("session listed").volume
}

#[test]
fn windows_of_the_merge_policy() {
    assert_eq!(LOCAL_DEBOUNCE_MS, 100);
    assert_eq!(EXTERNAL_DEBOUNCE_MS, 500);
    assert_eq!(ECHO_WINDOW_MS, 50);
    assert_eq!(VOLUME_FULL, 10_000);
}

#[test]
fn a_new_session_has_no_icon_and_no_change_on_record() {
    let s = AudioSession::new("id".into(), "Name".into(), 2500, true, 77);
    assert_eq!(s.id, "id");
    assert_eq!(s.display_name, "Name");
    assert_eq!(s.volume, 2500);
    assert!(s.is_muted);
    assert_eq!(s.process_id, 77);
    assert_eq!(s.icon_handle, None);
    assert_eq!(s.last_local_change, None);
    assert_eq!(s.last_external_change, None);
    assert_eq!(s.clone(), s);
}

#[test]
fn volume_as_a_percentage() {
    assert_eq!(session("a", 0).volume_percent(), 0);
    assert_eq!(session("a", 99).volume_percent(), 0);
    assert_eq!(session("a", 100).volume_percent(), 1);
    assert_eq!(session("a", 5049).volume_percent(), 50);
    assert_eq!(session("a", 10_000).volume_percent(), 100);
    assert_eq!(session("a", 25_500).volume_percent(), 255);
    assert_eq!(session("a", u16::MAX).volume_percent(), 255);
}

#[test]
fn elapsed_time_never_goes_negative() {
    assert_eq!(elapsed(100, 350), 250);
    assert_eq!(elapsed(350, 350), 0);
    assert_eq!(elapsed(350, 100), 0);
}

#[test]
fn a_snapshot_within_80_ms_of_a_local_write_keeps_the_local_value() {
    let mut sessions = vec![session("Spotify", 5000)];
    assert!(set_local_volume(&mut sessions, &"Spotify".to_string(), 8000, 2000));
    apply_snapshot(&mut sessions, &vec![session("Spotify", 3000)], 2080);
    assert_eq!(volume_of(&sessions, "Spotify"), 8000);
    assert_eq!(sessions[0].last_local_change, Some(2000));
}

#[test]
fn a_snapshot_150_ms_after_a_local_write_applies_the_systems_value() {
    let mut sessions = vec![session("Spotify", 5000)];
    set_local_volume(&mut sessions, &"Spotify".to_string(), 8000, 2000);
    let mut seen = session("Spotify", 3000);
    seen.is_muted = true;
    apply_snapshot(&mut sessions, &vec![seen], 2150);
    assert_eq!(volume_of(&sessions, "Spotify"), 3000);
    assert!(sessions[0].is_muted);
    assert_eq!(sessions[0].last_local_change, Some(2000));
}

#[test]
fn the_local_debounce_ends_after_100_ms() {
    for (now, expected) in [(2000u64, 8000u16), (2100, 8000), (2101, 3000)] {
        let mut sessions = vec![session("Spotify", 5000)];
        set_local_volume(&mut sessions, &"Spotify".to_string(), 8000, 2000);
        apply_snapshot(&mut sessions, &vec![session("Spotify", 3000)], now);
        assert_eq!(volume_of(&sessions, "Spotify"), expected, "snapshot at {now}");
    }
}

#[test]
fn a_snapshot_waits_500_ms_after_a_notified_change() {
    for (now, expected) in [(1300u64, 7000u16), (1500, 7000), (1501, 3000)] {
        let mut sessions = vec![session("Spotify", 5000)];
        let updates = vec![AudioUpdate::VolumeChanged("Spotify".into(), 7000)];
        apply_notifications(&mut sessions, &updates, 1000);
        assert_eq!(sessions[0].last_external_change, Some(1000));
        assert!(!is_settled(&sessions[0], 1500));
        apply_snapshot(&mut sessions, &vec![session("Spotify", 3000)], now);
        assert_eq!(volume_of(&sessions, "Spotify"), expected, "snapshot at {now}");
    }
}

#[test]
fn an_echo_within_50_ms_changes_nothing() {
    let mut sessions = vec![session("Spotify", 5000)];
    set_local_volume(&mut sessions, &"Spotify".to_string(), 8000, 2000);
    let before = sessions.clone();
    let echo = vec![
        AudioUpdate::VolumeChanged("Spotify".into(), 7990),
        AudioUpdate::MuteChanged("Spotify".into(), true),
    ];
    apply_notifications(&mut sessions, &echo, 2030);
    assert_eq!(sessions, before);
    apply_notifications(&mut sessions, &echo, 2049);
    assert_eq!(sessions, before);
}

#[test]
fn a_change_after_60_ms_is_applied() {
    let mut sessions = vec![session("Spotify", 5000)];
    set_local_volume(&mut sessions, &"Spotify".to_string(), 8000, 2000);
    let updates = vec![AudioUpdate::VolumeChanged("Spotify".into(), 2500)];
    apply_notifications(&mut sessions, &updates, 2060);
    assert_eq!(sessions[0].volume, 2500);
    assert_eq!(sessions[0].last_external_change, Some(2060));
    assert_eq!(sessions[0].last_local_change, Some(2000));
    assert!(!sessions[0].is_muted);
}

#[test]
fn the_echo_window_ends_at_50_ms() {
    let mut sessions = vec![session("Spotify", 5000)];
    set_local_volume(&mut sessions, &"Spotify".to_string(), 8000, 2000);
    let updates = vec![AudioUpdate::VolumeChanged("Spotify".into(), 2500)];
    apply_notifications(&mut sessions, &updates, 2050);
    assert_eq!(sessions[0].volume, 2500);
}

#[test]
fn of_a_batch_the_last_volume_and_the_last_mute_state_count() {
    let mut sessions = vec![session("a", 1000), session("b", 2000), session("c", 3000)];
    let updates = vec![
        AudioUpdate::VolumeChanged("a".into(), 1100),
        AudioUpdate::MuteChanged("b".into(), true),
        AudioUpdate::VolumeChanged("a".into(), 1200),
        AudioUpdate::VolumeChanged("unknown".into(), 9999),
        AudioUpdate::MuteChanged("b".into(), false),
        AudioUpdate::MuteChanged("a".into(), true),
    ];
    apply_notifications(&mut sessions, &updates, 500);
    assert_eq!(sessions[0].volume, 1200);
    assert!(sessions[0].is_muted);
    assert_eq!(sessions[0].last_external_change, Some(500));
    assert_eq!(sessions[1].volume, 2000);
    assert!(!sessions[1].is_muted);
    assert_eq!(sessions[1].last_external_change, Some(500));
    assert_eq!(sessions[2], session("c", 3000));
    assert_eq!(sessions.len(), 3);
}

#[test]
fn membership_follows_the_snapshot() {
    let mut sessions = vec![session("a", 1000), session("b", 2000), session("c", 3000)];
    let snapshot = vec![session("c", 3300), session("d", 4000), session("a", 1100)];
    apply_snapshot(&mut sessions, &snapshot, 10);
    let ids: Vec<&str> = sessions.iter().map(|s| s.id.as_str()).collect();
    assert_eq!(ids, vec!["a", "c", "d"]);
    assert_eq!(volume_of(&sessions, "a"), 1100);
    assert_eq!(volume_of(&sessions, "c"), 3300);
    assert_eq!(volume_of(&sessions, "d"), 4000);

    apply_snapshot(&mut sessions, &Vec::new(), 20);
    assert!(sessions.is_empty());
}

#[test]
fn a_key_listed_twice_is_one_session_with_the_last_values() {
    let mut sessions = Vec::new();
    let mut second = session("chrome", 2000);
    second.icon_handle = Some(9);
    apply_snapshot(&mut sessions, &vec![session("chrome", 1000), second], 10);
    assert_eq!(sessions.len(), 1);
    assert_eq!(sessions[0].volume, 2000);
    assert_eq!(sessions[0].icon_handle, Some(9));
}

#[test]
fn an_icon_is_taken_once() {
    let mut sessions = vec![session("a", 1000)];
    let mut with_icon = session("a", 1000);
    with_icon.icon_handle = Some(5);
    apply_snapshot(&mut sessions, &vec![with_icon], 10);
    assert_eq!(sessions[0].icon_handle, Some(5));
    let mut other_icon = session("a", 1000);
    other_icon.icon_handle = Some(6);
    apply_snapshot(&mut sessions, &vec![other_icon], 20);
    assert_eq!(sessions[0].icon_handle, Some(5));
    apply_snapshot(&mut sessions, &vec![session("a", 1000)], 30);
    assert_eq!(sessions[0].icon_handle, Some(5));
}

#[test]
fn local_writes_touch_only_the_session_named() {
    let mut sessions = vec![session("a", 1000), session("b", 2000)];
    assert!(!set_local_volume(&mut sessions, &"zzz".to_string(), 1, 5));
    assert_eq!(sessions, vec![session("a", 1000), session("b", 2000)]);
    assert_eq!(toggle_local_mute(&mut sessions, &"zzz".to_string(), 5), None);

    assert_eq!(toggle_local_mute(&mut sessions, &"b".to_string(), 7), Some(true));
    assert!(sessions[1].is_muted);
    assert_eq!(sessions[1].last_local_change, Some(7));
    assert_eq!(sessions[0], session("a", 1000));
    assert_eq!(toggle_local_mute(&mut sessions, &"b".to_string(), 9), Some(false));
    assert_eq!(find_session(&sessions, &"b".to_string()), Some(1));
    assert_eq!(find_session(&sessions, &"c".to_string()), None);
}

#[test]
fn the_first_notification_that_asks_for_a_refresh_is_found() {
    let updates = vec![
        AudioUpdate::VolumeChanged("a".into(), 1),
        AudioUpdate::SessionRemoved("a".into()),
        AudioUpdate::DefaultDeviceChanged("Speakers".into()),
    ];
    assert_eq!(find_refresh(&updates), Some(1));
    assert_eq!(find_refresh(&updates[..1].iter().map(copy_update).collect()), None);
    assert_eq!(find_refresh(&Vec::new()), None);
    assert_eq!(find_refresh(&vec![AudioUpdate::SessionAdded(session("n", 1))]), Some(0));
}

fn copy_update(update: &AudioUpdate) -> AudioUpdate {
    match update {
        AudioUpdate::VolumeChanged(id, v) => AudioUpdate::VolumeChanged(id.clone(), *v),
        AudioUpdate::MuteChanged(id, m) => AudioUpdate::MuteChanged(id.clone(), *m),
        AudioUpdate::SessionAdded(s) => AudioUpdate::SessionAdded(s.clone()),
        AudioUpdate::SessionRemoved(id) => AudioUpdate::SessionRemoved(id.clone()),
        AudioUpdate::DefaultDeviceChanged(name) => AudioUpdate::DefaultDeviceChanged(name.clone()),
    }
}

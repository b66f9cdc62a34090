use faderflow::audio::backend::AudioError;
use faderflow::ui::views::scanning::{
    progress_at, FoundDevice, LogEntry, LogKind, ScanningState, PROGRESS_FULL,
};

#[test]
fn progress_counts_the_ports_done_on_nine_tenths_of_the_bar() {
    assert_eq!(PROGRESS_FULL, 1000);
    assert_eq!(progress_at(1, 3), 0);
    assert_eq!(progress_at(2, 3), 300);
    assert_eq!(progress_at(3, 3), 600);
    assert_eq!(progress_at(1, 1), 0);
    assert_eq!(progress_at(10, 10), 810);
    assert_eq!(progress_at(7, 9), 600);
    assert_eq!(progress_at(5, 7), 514);
}

#[test]
fn progress_of_counts_that_do_not_fit_stays_on_the_bar() {
    assert_eq!(progress_at(0, 0), 0);
    assert_eq!(progress_at(0, 5), 0);
    assert_eq!(progress_at(5, 0), 0);
    assert_eq!(progress_at(100, 2), 1000);
    assert_eq!(progress_at(usize::MAX, 1), 1000);
    assert_eq!(progress_at(usize::MAX, usize::MAX), 899);
}

#[test]
fn the_scanning_screen_takes_notes() {
    let mut state = ScanningState::default();
    state.note_started(4);
    assert_eq!(state.status, "Found 4 port(s) to check…");
    state.note_checking(&"COM1".to_string(), 1, 4);
    assert_eq!(state.status, "Checking COM1…");
    assert_eq!(state.progress, 0);
    state.note_failed(&"COM1".to_string(), &"Cannot open: busy".to_string());
    state.note_checking(&"COM2".to_string(), 2, 4);
    assert_eq!(state.progress, 225);
    state.note_found(FoundDevice { port_name: "COM2".into(), uuid: [1; 16], version: (1, 0) });
    state.push_log("by hand".to_string(), LogKind::Info);
    assert_eq!(
        state.log,
        vec![
            LogEntry { text: "Scanning 4 port(s)".into(), kind: LogKind::Info },
            LogEntry { text: "Checking COM1…".into(), kind: LogKind::Info },
            LogEntry { text: "COM1: Cannot open: busy".into(), kind: LogKind::Failure },
            LogEntry { text: "Checking COM2…".into(), kind: LogKind::Info },
            LogEntry { text: "COM2: FaderFlow ✓".into(), kind: LogKind::Success },
            LogEntry { text: "by hand".into(), kind: LogKind::Info },
        ]
    );
    assert_eq!(state.found_devices.len(), 1);
    assert!(!state.complete);
    state.note_completed();
    assert!(state.complete);
    assert_eq!(state.progress, 1000);
    assert_eq!(state.found_devices.len(), 1);
}

#[test]
fn every_audio_error_has_its_text() {
    assert_eq!(AudioError::Unsupported("no backend".into()).message(), "no backend");
    assert_eq!(AudioError::EnumerationFailure("no endpoint".into()).message(), "no endpoint");
    assert_eq!(AudioError::NativeResourceFailure("0x80070005".into()).message(), "0x80070005");
}

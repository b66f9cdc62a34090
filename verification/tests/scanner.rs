use faderflow::comms::scanner::{listing_failed, ScanEvent, ScanRun, RESCAN_DELAY_SECS};

fn names(ports: &[&str]) -> Vec<String> {
    ports.iter().map(|p| p.to_string()).collect()
}

#[test]
fn a_scan_of_no_ports_completes_at_once() {
    let (mut run, events) = ScanRun::begin(Vec::new());
    assert_eq!(
        events,
        vec![ScanEvent::Started { total_ports: 0 }, ScanEvent::ScanComplete { found: 0 }]
    );
    assert!(!events.iter().any(|e| matches!(e, ScanEvent::CheckingPort { .. })));
    assert!(!events.iter().any(|e| matches!(e, ScanEvent::DeviceFound { .. })));
    assert!(run.is_complete());
    assert_eq!(run.current_port(), None);
    assert_eq!(run.record(Err("late".into())), Vec::new());
}

#[test]
fn a_scan_reports_port_by_port() {
    let (mut run, opening) = ScanRun::begin(names(&["COM3", "COM4", "COM9"]));
    assert_eq!(
        opening,
        vec![
            ScanEvent::Started { total_ports: 3 },
            ScanEvent::CheckingPort { name: "COM3".into(), index: 1, total: 3 },
        ]
    );
    assert_eq!(run.current_port().map(String::as_str), Some("COM3"));

    let first = run.record(Err("Handshake timeout".into()));
    assert_eq!(
        first,
        vec![
            ScanEvent::PortFailed { name: "COM3".into(), reason: "Handshake timeout".into() },
            ScanEvent::CheckingPort { name: "COM4".into(), index: 2, total: 3 },
        ]
    );

    let second = run.record(Ok(([7; 16], (1, 2))));
    assert_eq!(
        second,
        vec![
            ScanEvent::DeviceFound { port_name: "COM4".into(), uuid: [7; 16], version: (1, 2) },
            ScanEvent::CheckingPort { name: "COM9".into(), index: 3, total: 3 },
        ]
    );
    assert!(!run.is_complete());

    let third = run.record(Ok(([8; 16], (2, 0))));
    assert_eq!(
        third,
        vec![
            ScanEvent::DeviceFound { port_name: "COM9".into(), uuid: [8; 16], version: (2, 0) },
            ScanEvent::ScanComplete { found: 2 },
        ]
    );
    assert!(run.is_complete());
    assert_eq!(run.found, 2);
    assert_eq!(run.record(Ok(([9; 16], (1, 0)))), Vec::new());
    assert_eq!(run.found, 2);
}

#[test]
fn every_announcement_precedes_its_report_and_the_completion_is_last() {
    let ports = names(&["a", "b", "c", "d"]);
    let (mut run, mut events) = ScanRun::begin(ports.clone());
    let mut found = 0;
    while run.current_port().is_some() {
        let at = run.next;
        let outcome = if at % 2 == 0 {
            found += 1;
            Ok(([at as u8; 16], (1, 0)))
        } else {
            Err(format!("no answer on {at}"))
        };
        events.extend(run.record(outcome));
    }
    assert_eq!(events.len(), 2 * ports.len() + 2);
    assert_eq!(events[0], ScanEvent::Started { total_ports: 4 });
    assert_eq!(events[events.len() - 1], ScanEvent::ScanComplete { found });
    for (i, port) in ports.iter().enumerate() {
        assert_eq!(
            events[1 + 2 * i],
            ScanEvent::CheckingPort { name: port.clone(), index: i + 1, total: 4 }
        );
        match &events[2 + 2 * i] {
            ScanEvent::DeviceFound { port_name, .. } => assert_eq!(port_name, port),
            ScanEvent::PortFailed { name, .. } => assert_eq!(name, port),
            other => panic!("unexpected event {other:?}"),
        }
    }
}

#[test]
fn a_failed_listing_is_reported() {
    assert_eq!(
        listing_failed("permission denied"),
        ScanEvent::ScanFailed("Cannot list ports: permission denied".into())
    );
    assert_eq!(RESCAN_DELAY_SECS, 3);
}

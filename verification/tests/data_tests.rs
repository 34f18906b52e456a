use colorimeter::data::{clone_commands, Command, Event, ScanResult, State, Triple};

fn sample_result() -> ScanResult {
    ScanResult {
        idx: 1,
        lab: Triple(100, 100, -56),
        luv: Triple(56, 100, 200),
        lch: Triple(50, 100, 200),
        yxy: Triple(10, 20, 30),
        rgb: Triple(16, 128, 64),
    }
}

#[test]
fn state_starts_empty() {
    let s = State::default();
    assert!(!s.connected);
    assert!(!s.connecting);
    assert!(s.device_address.is_none());
    assert!(s.device_name.is_none());
    assert!(s.power_level.is_none());
    assert!(s.device_info_raw.is_none());
    assert!(s.calibrated.is_none());
}

#[test]
fn folding_connection_events_tracks_the_link() {
    let mut s = State::default();
    s.apply_event(
        &Event::Connecting(Some("11:22".to_string()), Some("probe".to_string())),
        0,
    );
    assert!(s.connecting);
    assert!(!s.connected);
    assert_eq!(s.device_address.as_deref(), Some("11:22"));
    assert_eq!(s.device_name.as_deref(), Some("probe"));

    s.apply_event(&Event::Connected("11:22".to_string(), None), 0);
    assert!(!s.connecting);
    assert!(s.connected);
    assert_eq!(s.device_address.as_deref(), Some("11:22"));
    assert_eq!(s.device_name, None);

    s.apply_event(&Event::Disconnected, 0);
    assert!(!s.connected);
    // the last known address survives a disconnect
    assert_eq!(s.device_address.as_deref(), Some("11:22"));
}

#[test]
fn folding_data_events_records_the_readings() {
    let mut s = State::default();
    s.apply_event(&Event::PowerLevel(300), 0);
    assert_eq!(s.power_level, Some(300));

    s.apply_event(&Event::Calibrated, 123_456);
    assert_eq!(s.calibrated, Some(123_456));

    let info = [7i16; 15];
    s.apply_event(&Event::DeviceInfo(info), 0);
    assert_eq!(s.device_info_raw, Some(info));
}

#[test]
fn command_and_scan_events_leave_the_state_alone() {
    let mut s = State::default();
    s.apply_event(&Event::Command(Command::Scan), 0);
    s.apply_event(&Event::Scan(sample_result()), 0);
    s.apply_event(&Event::Error("nope".to_string()), 0);
    s.apply_event(&Event::Exit, 0);
    assert!(!s.connected);
    assert!(s.power_level.is_none());
}

#[test]
fn cloned_commands_keep_values_and_order() {
    let cmds = vec![
        Command::Status,
        Command::Connect("11:22".to_string()),
        Command::Scan,
    ];
    assert_eq!(clone_commands(&cmds), cmds);
}

#[test]
fn events_clone_deeply() {
    let events = vec![
        Event::Exit,
        Event::Error("boom".to_string()),
        Event::Scan(sample_result()),
        Event::Connecting(Some("a".to_string()), None),
        Event::Connected("a".to_string(), Some("n".to_string())),
        Event::Disconnected,
        Event::PowerLevel(-5),
        Event::DeviceInfo([3; 15]),
        Event::Calibrated,
        Event::Command(Command::Reconnect),
        Event::CommandQueue(vec![Command::Scan, Command::Status]),
    ];
    for ev in &events {
        assert_eq!(&ev.clone(), ev);
    }
}

use colorimeter::codec::{battery_command_frame, info_command_frame, scan_command_frame};
use colorimeter::data::{Command, Event};
use colorimeter::session::{Session, SessionOutcome, SessionPhase};

fn ready_session() -> Session {
    let mut s = Session::new(300);
    s.on_connected();
    s.on_services_discovered();
    assert!(s.require_notify_characteristic(true).is_ok());
    s.on_subscribed();
    assert!(s.require_write_characteristic(true).is_ok());
    assert_eq!(s.phase, SessionPhase::Ready);
    s
}

fn scan_frame() -> Vec<u8> {
    let mut frame = vec![0xAB, 0x44, 0x00, 0x00, 0x00, 0x00, 0x36, 0x00];
    frame.extend(std::iter::repeat(0x00).take(24)); // all triples zero
    frame.extend([0xAA, 0xBB, 0xCC, 0xDD]);
    frame.extend([0x01, 0x02, 0x03]);
    frame
}

fn second_scan_frame() -> Vec<u8> {
    let mut frame = scan_frame();
    frame[8] = 0x64; // lab.0 = 1.00
    frame
}

fn power_frame() -> Vec<u8> {
    vec![0xAB, 0x20, 0x0B, 0x00, 0x02, 0x00, 0x2C, 0x01]
}

#[test]
fn setup_walks_the_phases_in_order() {
    let mut s = Session::new(300);
    assert_eq!(s.phase, SessionPhase::Connecting);
    s.on_connected();
    assert_eq!(s.phase, SessionPhase::Connected);
    s.on_services_discovered();
    assert_eq!(s.phase, SessionPhase::ServicesDiscovered);
    assert!(s.require_notify_characteristic(true).is_ok());
    s.on_subscribed();
    assert_eq!(s.phase, SessionPhase::Subscribed);
    assert!(s.require_write_characteristic(true).is_ok());
    assert_eq!(s.phase, SessionPhase::Ready);
}

#[test]
fn missing_notify_characteristic_is_fatal() {
    let mut s = Session::new(300);
    s.on_connected();
    s.on_services_discovered();
    let err = s.require_notify_characteristic(false);
    assert_eq!(err, Err("No notif_char found".to_string()));
    assert_eq!(s.phase, SessionPhase::Errored);
}

#[test]
fn missing_write_characteristic_is_fatal() {
    let mut s = Session::new(300);
    s.on_connected();
    s.on_services_discovered();
    assert!(s.require_notify_characteristic(true).is_ok());
    s.on_subscribed();
    let err = s.require_write_characteristic(false);
    assert_eq!(err, Err("No write_char found".to_string()));
    assert_eq!(s.phase, SessionPhase::Errored);
}

#[test]
fn scan_notifications_are_numbered_from_one() {
    let mut s = ready_session();
    let (publish, write) = s.handle_notification(&scan_frame(), 1000);
    match publish {
        Some(Event::Scan(res)) => assert_eq!(res.idx, 1),
        other => panic!("expected a scan event, got {:?}", other),
    }
    assert!(write.is_none());
    let (publish, _) = s.handle_notification(&second_scan_frame(), 1100);
    match publish {
        Some(Event::Scan(res)) => assert_eq!(res.idx, 2),
        other => panic!("expected a scan event, got {:?}", other),
    }
}

#[test]
fn duplicate_scan_within_window_is_dropped() {
    let mut s = ready_session();
    let (publish, _) = s.handle_notification(&scan_frame(), 1000);
    assert!(matches!(publish, Some(Event::Scan(_))));
    // identical frame 200 ms later: a device-level retransmission
    let (publish, _) = s.handle_notification(&scan_frame(), 1200);
    assert!(publish.is_none());
    assert_eq!(s.scan_count, 1);
    // a different frame inside the window still counts
    let (publish, _) = s.handle_notification(&second_scan_frame(), 1250);
    match publish {
        Some(Event::Scan(res)) => assert_eq!(res.idx, 2),
        other => panic!("expected a scan event, got {:?}", other),
    }
}

#[test]
fn dedup_window_boundary_is_exact() {
    let mut s = ready_session();
    let (publish, _) = s.handle_notification(&scan_frame(), 1000);
    assert!(matches!(publish, Some(Event::Scan(_))));
    // one millisecond inside the window: still a retransmission
    let (publish, _) = s.handle_notification(&scan_frame(), 1299);
    assert!(publish.is_none());
    // exactly at the window's edge: a new result
    let (publish, _) = s.handle_notification(&scan_frame(), 1300);
    assert!(matches!(publish, Some(Event::Scan(_))));
}

#[test]
fn identical_scan_after_window_is_a_new_result() {
    let mut s = ready_session();
    let (publish, _) = s.handle_notification(&scan_frame(), 1000);
    assert!(matches!(publish, Some(Event::Scan(_))));
    // the window is measured from the first arrival, and 300 ms have passed
    let (publish, _) = s.handle_notification(&scan_frame(), 1300);
    match publish {
        Some(Event::Scan(res)) => assert_eq!(res.idx, 2),
        other => panic!("expected a scan event, got {:?}", other),
    }
    assert_eq!(s.scan_count, 2);
}

#[test]
fn other_notifications_decode_to_their_events() {
    let mut s = ready_session();
    let (publish, _) = s.handle_notification(&vec![0xAB, 0x20, 0x2E], 0);
    assert_eq!(publish, Some(Event::Calibrated));
    let (publish, _) = s.handle_notification(&power_frame(), 0);
    assert_eq!(publish, Some(Event::PowerLevel(300)));
    let (publish, _) = s.handle_notification(&vec![0xAB, 0x99, 0x00], 0);
    assert!(publish.is_none());
    assert_eq!(s.scan_count, 0);
}

#[test]
fn status_enqueues_info_then_battery() {
    let mut s = ready_session();
    let step = s.handle_bus_event(&Event::Command(Command::Status));
    // the info frame goes out at once; the battery frame waits for the reply
    assert_eq!(step.writes, vec![info_command_frame()]);
    assert!(step.terminal.is_none());
    assert!(!step.cleanup);
    // the next processed notification releases the battery frame
    let (_, write) = s.handle_notification(&power_frame(), 0);
    assert_eq!(write, Some(battery_command_frame()));
    // nothing else is pending: the following notification clears the flag
    let (_, write) = s.handle_notification(&power_frame(), 0);
    assert!(write.is_none());
    // and a fresh command may write immediately again
    let step = s.handle_bus_event(&Event::Command(Command::Scan));
    assert_eq!(step.writes, vec![scan_command_frame()]);
}

#[test]
fn at_most_one_frame_in_flight() {
    let mut s = ready_session();
    let step = s.handle_bus_event(&Event::Command(Command::Scan));
    assert_eq!(step.writes.len(), 1);
    // while the reply is pending, nothing more goes to the wire
    let step = s.handle_bus_event(&Event::Command(Command::Status));
    assert!(step.writes.is_empty());
    let step = s.handle_bus_event(&Event::Command(Command::Calibrate));
    assert!(step.writes.is_empty());
    // each processed notification releases exactly one queued frame
    let (_, write) = s.handle_notification(&power_frame(), 0);
    assert_eq!(write, Some(info_command_frame()));
    let (_, write) = s.handle_notification(&power_frame(), 0);
    assert_eq!(write, Some(battery_command_frame()));
    let (_, write) = s.handle_notification(&power_frame(), 0);
    assert_eq!(
        write,
        Some(colorimeter::codec::calibrate_command_frame())
    );
}

#[test]
fn command_queue_replays_in_order() {
    let mut s = ready_session();
    let step = s.handle_bus_event(&Event::CommandQueue(vec![Command::Status, Command::Scan]));
    assert_eq!(step.writes, vec![info_command_frame()]);
    let (_, write) = s.handle_notification(&power_frame(), 0);
    assert_eq!(write, Some(battery_command_frame()));
    let (_, write) = s.handle_notification(&power_frame(), 0);
    assert_eq!(write, Some(scan_command_frame()));
}

#[test]
fn keepalive_idle_requests_battery() {
    let mut s = ready_session();
    let write = s.on_keepalive_idle();
    assert_eq!(write, Some(battery_command_frame()));
    // and respects the single-in-flight rule
    let write = s.on_keepalive_idle();
    assert!(write.is_none());
}

#[test]
fn exit_ends_the_session_with_no_further_frames() {
    let mut s = ready_session();
    // leave a command in flight and one queued
    s.handle_bus_event(&Event::Command(Command::Status));
    let step = s.handle_bus_event(&Event::Exit);
    assert!(step.writes.is_empty());
    assert!(step.publish.is_none());
    assert!(step.cleanup);
    assert_eq!(step.terminal, Some(SessionOutcome::Exited));
    assert_eq!(s.phase, SessionPhase::Exited);
}

#[test]
fn disconnect_command_publishes_disconnected() {
    let mut s = ready_session();
    let step = s.handle_bus_event(&Event::Command(Command::Disconnect));
    assert!(step.writes.is_empty());
    assert_eq!(step.publish, Some(Event::Disconnected));
    assert!(step.cleanup);
    assert_eq!(step.terminal, Some(SessionOutcome::UserDisconnect));
    assert_eq!(s.phase, SessionPhase::Disconnected);
}

#[test]
fn unrelated_bus_events_change_nothing() {
    let mut s = ready_session();
    let step = s.handle_bus_event(&Event::Disconnected);
    assert!(step.writes.is_empty());
    assert!(step.publish.is_none());
    assert!(!step.cleanup);
    assert!(step.terminal.is_none());
    assert_eq!(s.phase, SessionPhase::Ready);
}

#[test]
fn stream_end_is_a_clean_disconnect() {
    let mut s = ready_session();
    let step = s.on_stream_ended();
    assert_eq!(step.publish, Some(Event::Disconnected));
    assert!(step.cleanup);
    assert_eq!(step.terminal, Some(SessionOutcome::Disconnected));
    assert_eq!(s.phase, SessionPhase::Disconnected);
}

#[test]
fn write_failure_is_fatal_for_the_session() {
    let mut s = ready_session();
    let step = s.on_write_failed();
    assert!(step.publish.is_none());
    assert!(step.cleanup);
    assert_eq!(step.terminal, Some(SessionOutcome::Failed));
    assert_eq!(s.phase, SessionPhase::Errored);
}

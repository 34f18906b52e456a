use colorimeter::bus::{Bus, RecvOutcome};
use colorimeter::data::Event;

#[test]
fn events_arrive_in_publish_order() {
    let mut bus = Bus::new(8);
    let mut cursor = bus.subscribe();
    bus.publish(Event::Connecting(None, None));
    bus.publish(Event::Connected("11:22".to_string(), None));
    bus.publish(Event::Disconnected);

    match bus.recv(&mut cursor) {
        RecvOutcome::Received(ev) => assert_eq!(ev, Event::Connecting(None, None)),
        other => panic!("expected an event, got {:?}", outcome_name(&other)),
    }
    match bus.recv(&mut cursor) {
        RecvOutcome::Received(ev) => {
            assert_eq!(ev, Event::Connected("11:22".to_string(), None))
        }
        other => panic!("expected an event, got {:?}", outcome_name(&other)),
    }
    match bus.recv(&mut cursor) {
        RecvOutcome::Received(ev) => assert_eq!(ev, Event::Disconnected),
        other => panic!("expected an event, got {:?}", outcome_name(&other)),
    }
    assert!(matches!(bus.recv(&mut cursor), RecvOutcome::Empty));
}

#[test]
fn a_subscriber_sees_only_later_events() {
    let mut bus = Bus::new(8);
    bus.publish(Event::Calibrated);
    let mut cursor = bus.subscribe();
    assert!(matches!(bus.recv(&mut cursor), RecvOutcome::Empty));
    bus.publish(Event::Disconnected);
    match bus.recv(&mut cursor) {
        RecvOutcome::Received(ev) => assert_eq!(ev, Event::Disconnected),
        other => panic!("expected an event, got {:?}", outcome_name(&other)),
    }
}

#[test]
fn lag_is_signalled_with_the_exact_count() {
    let mut bus = Bus::new(2);
    let mut cursor = bus.subscribe();
    bus.publish(Event::PowerLevel(1));
    bus.publish(Event::PowerLevel(2));
    bus.publish(Event::PowerLevel(3)); // pushes PowerLevel(1) out

    match bus.recv(&mut cursor) {
        RecvOutcome::Lagged(missed) => assert_eq!(missed, 1),
        other => panic!("expected a lag signal, got {:?}", outcome_name(&other)),
    }
    // the subscriber resumes at the oldest retained event
    match bus.recv(&mut cursor) {
        RecvOutcome::Received(ev) => assert_eq!(ev, Event::PowerLevel(2)),
        other => panic!("expected an event, got {:?}", outcome_name(&other)),
    }
    match bus.recv(&mut cursor) {
        RecvOutcome::Received(ev) => assert_eq!(ev, Event::PowerLevel(3)),
        other => panic!("expected an event, got {:?}", outcome_name(&other)),
    }
    assert!(matches!(bus.recv(&mut cursor), RecvOutcome::Empty));
}

#[test]
fn capacity_one_keeps_only_the_newest_event() {
    let mut bus = Bus::new(1);
    let mut cursor = bus.subscribe();
    for level in 1..=5 {
        bus.publish(Event::PowerLevel(level));
    }
    match bus.recv(&mut cursor) {
        RecvOutcome::Lagged(missed) => assert_eq!(missed, 4),
        other => panic!("expected a lag signal, got {:?}", outcome_name(&other)),
    }
    match bus.recv(&mut cursor) {
        RecvOutcome::Received(ev) => assert_eq!(ev, Event::PowerLevel(5)),
        other => panic!("expected an event, got {:?}", outcome_name(&other)),
    }
}

#[test]
fn slow_and_fast_subscribers_are_independent() {
    let mut bus = Bus::new(2);
    let mut fast = bus.subscribe();
    let mut slow = bus.subscribe();
    bus.publish(Event::PowerLevel(1));
    assert!(matches!(bus.recv(&mut fast), RecvOutcome::Received(_)));
    bus.publish(Event::PowerLevel(2));
    bus.publish(Event::PowerLevel(3));
    assert!(matches!(bus.recv(&mut fast), RecvOutcome::Received(_)));
    assert!(matches!(bus.recv(&mut fast), RecvOutcome::Received(_)));
    // the slow subscriber lagged by one, the fast one missed nothing
    assert!(matches!(bus.recv(&mut slow), RecvOutcome::Lagged(1)));
}

fn outcome_name(r: &RecvOutcome) -> &'static str {
    match r {
        RecvOutcome::Received(_) => "Received",
        RecvOutcome::Lagged(_) => "Lagged",
        RecvOutcome::Empty => "Empty",
    }
}

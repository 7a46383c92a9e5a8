use keylog::event::LocalInstant;
use keylog::keys::PressEvent;
use keylog::polled::PolledStateSource;
use keylog::polled::init;

fn instant(hour: u32, minute: u32, second: u32) -> LocalInstant {
    LocalInstant { year: 2024, month: 6, day: 15, hour, minute, second, nanosecond: 0 }
}

#[test]
fn init_is_a_no_op() {
    init();
}

#[test]
fn fresh_source_reports_nothing() {
    let mut src = PolledStateSource::new();
    let states = vec![false; 222];
    assert!(src.next_event(&states, instant(10, 0, 0)).is_none());
    assert!(src.should_idle_wait());
}

#[test]
fn simultaneous_transitions_share_the_scan_instant() {
    let mut src = PolledStateSource::new();
    let mut states = vec![false; 222];
    states[30] = true;
    states[31] = true;

    let t_scan = instant(10, 0, 0);
    let e1 = src.next_event(&states, t_scan).unwrap();
    // The second transition is already pending: a later call must hand
    // it out stamped with the instant of the scan that discovered it.
    let t_later = instant(11, 30, 0);
    let e2 = src.next_event(&states, t_later).unwrap();

    assert!(matches!(e1.kind, PressEvent::Press));
    assert!(matches!(e2.kind, PressEvent::Press));
    assert_eq!(e1.time, t_scan);
    assert_eq!(e2.time, t_scan);
    assert!(src.next_event(&states, t_later).is_none());
}

#[test]
fn simultaneous_transitions_are_ordered_by_code() {
    let mut src = PolledStateSource::new();
    let mut states = vec![false; 222];
    states[0x41] = true;  // "a"
    states[0x42] = true;  // "b"

    let t = instant(9, 0, 0);
    let e1 = src.next_event(&states, t).unwrap();
    let e2 = src.next_event(&states, t).unwrap();
    assert_eq!(e1.label, "a");
    assert_eq!(e2.label, "b");
}

#[test]
fn delivery_is_fifo_across_scans() {
    let mut src = PolledStateSource::new();
    let mut states = vec![false; 222];
    states[0x41] = true;
    states[0x42] = true;

    let t1 = instant(8, 0, 0);
    let e1 = src.next_event(&states, t1).unwrap();
    assert_eq!(e1.label, "a");
    assert!(matches!(e1.kind, PressEvent::Press));

    // A new scan appends its discoveries behind what is still pending.
    states[0x41] = false;
    let t2 = instant(8, 0, 1);
    let e2 = src.next_event(&states, t2).unwrap();
    assert_eq!(e2.label, "b");
    assert!(matches!(e2.kind, PressEvent::Press));
    assert_eq!(e2.time, t1);

    let e3 = src.next_event(&states, t2).unwrap();
    assert_eq!(e3.label, "a");
    assert!(matches!(e3.kind, PressEvent::Release));
    assert_eq!(e3.time, t2);

    assert!(src.next_event(&states, t2).is_none());
}

#[test]
fn idle_wait_only_when_nothing_pending() {
    let mut src = PolledStateSource::new();
    let mut states = vec![false; 222];
    states[0x41] = true;
    states[0x42] = true;

    let t = instant(12, 0, 0);
    src.next_event(&states, t).unwrap();
    // One transition is still pending: the caller must not wait.
    assert!(!src.should_idle_wait());
    src.next_event(&states, t).unwrap();
    assert!(src.should_idle_wait());
}

#[test]
fn unchanged_state_produces_no_event() {
    let mut src = PolledStateSource::new();
    let mut states = vec![false; 222];
    states[0x41] = true;

    let t = instant(7, 0, 0);
    assert!(src.next_event(&states, t).is_some());
    // Holding the key down is not a transition.
    assert!(src.next_event(&states, t).is_none());
    assert!(src.next_event(&states, t).is_none());

    states[0x41] = false;
    let e = src.next_event(&states, t).unwrap();
    assert!(matches!(e.kind, PressEvent::Release));
    assert_eq!(e.label, "a");
}

#[test]
fn unused_codes_are_never_reported() {
    let mut src = PolledStateSource::new();
    let mut states = vec![false; 222];
    states[0x10] = true;  // generic shift: superseded, skipped
    states[0x11] = true;  // generic control
    states[0xA6] = true;  // reserved block
    assert!(src.next_event(&states, instant(6, 0, 0)).is_none());
}

#[test]
fn poll_delivers_like_next_event() {
    let mut src = PolledStateSource::new();
    let mut states = vec![false; 222];
    states[0x43] = true;

    let e = src.poll(&states).unwrap();
    assert!(matches!(e.kind, PressEvent::Press));
    assert_eq!(e.label, "c");
    assert!(src.poll(&states).is_none());
}

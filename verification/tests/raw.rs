use chrono::Datelike;
use chrono::Timelike;
use keylog::input::decode_record;
use keylog::input::is_key_event;
use keylog::input::is_key_press;
use keylog::input::is_key_release;
use keylog::input::is_shift;
use keylog::keys::PressEvent;
use keylog::raw::RawEventSource;
use keylog::raw::StreamError;

fn record(sec: i64, usec: i64, type_: u16, code: u16, value: i32) -> [u8; 24] {
    let mut buf = [0u8; 24];
    buf[0..8].copy_from_slice(&sec.to_le_bytes());
    buf[8..16].copy_from_slice(&usec.to_le_bytes());
    buf[16..18].copy_from_slice(&type_.to_le_bytes());
    buf[18..20].copy_from_slice(&code.to_le_bytes());
    buf[20..24].copy_from_slice(&value.to_le_bytes());
    buf
}

#[test]
fn decode_round_trips_fields() {
    let buf = record(1000, 500_000, 1, 16, 1);
    let ev = decode_record(&buf);
    assert_eq!(ev.tv_sec, 1000);
    assert_eq!(ev.tv_usec, 500_000);
    assert_eq!(ev.type_, 1);
    assert_eq!(ev.code, 16);
    assert_eq!(ev.value, 1);

    let buf = record(-5, 999_999, 3, 42, -1);
    let ev = decode_record(&buf);
    assert_eq!(ev.tv_sec, -5);
    assert_eq!(ev.tv_usec, 999_999);
    assert_eq!(ev.type_, 3);
    assert_eq!(ev.code, 42);
    assert_eq!(ev.value, -1);
}

#[test]
fn classifiers_match_constants() {
    assert!(is_key_event(1));
    assert!(!is_key_event(0));
    assert!(!is_key_event(3));
    assert!(is_key_press(1));
    assert!(!is_key_press(0));
    assert!(is_key_release(0));
    assert!(!is_key_release(2));
    assert!(is_shift(42));
    assert!(is_shift(43));
    assert!(!is_shift(41));
}

#[test]
fn malformed_record_is_an_error_not_an_event() {
    let mut src = RawEventSource::new();
    let buf = record(1000, 0, 1, 16, 1);
    let r = src.handle_record(23, &buf);
    assert!(matches!(r, Err(StreamError::BadRecordSize)));
    let r = src.handle_record(0, &buf);
    assert!(matches!(r, Err(StreamError::BadRecordSize)));
    let r = src.handle_record(25, &buf);
    assert!(matches!(r, Err(StreamError::BadRecordSize)));
}

#[test]
fn autorepeat_produces_no_event() {
    let mut src = RawEventSource::new();
    let buf = record(1000, 0, 1, 16, 2);
    let r = src.handle_record(24, &buf).unwrap();
    assert!(r.is_none());
}

#[test]
fn non_key_record_produces_no_event() {
    let mut src = RawEventSource::new();
    let buf = record(1000, 0, 0, 16, 1);
    let r = src.handle_record(24, &buf).unwrap();
    assert!(r.is_none());
    let buf = record(1000, 0, 3, 16, 1);
    let r = src.handle_record(24, &buf).unwrap();
    assert!(r.is_none());
}

#[test]
fn invalid_microseconds_are_an_error() {
    let mut src = RawEventSource::new();
    let buf = record(1000, 1_000_000, 1, 16, 1);
    let r = src.handle_record(24, &buf);
    assert!(matches!(r, Err(StreamError::TimeOutOfRange)));
    let buf = record(1000, -1, 1, 16, 1);
    let r = src.handle_record(24, &buf);
    assert!(matches!(r, Err(StreamError::TimeOutOfRange)));
}

#[test]
fn press_q_without_shift() {
    let mut src = RawEventSource::new();
    let buf = record(1000, 500_000, 1, 16, 1);
    let e = src.handle_record(24, &buf).unwrap().unwrap();
    assert!(matches!(e.kind, PressEvent::Press));
    assert_eq!(e.label, "q");

    let expected = chrono::DateTime::from_timestamp(1000, 500_000_000)
        .unwrap()
        .with_timezone(&chrono::Local);
    assert_eq!(e.time.year, expected.year());
    assert_eq!(e.time.month, expected.month());
    assert_eq!(e.time.day, expected.day());
    assert_eq!(e.time.hour, expected.hour());
    assert_eq!(e.time.minute, expected.minute());
    assert_eq!(e.time.second, expected.second());
    assert_eq!(e.time.nanosecond, 500_000_000);
}

#[test]
fn press_q_with_shift_held() {
    let mut src = RawEventSource::new();
    let shift_press = record(999, 0, 1, 42, 1);
    let e = src.handle_record(24, &shift_press).unwrap().unwrap();
    assert!(matches!(e.kind, PressEvent::Press));
    assert_eq!(e.label, "<LShift>");
    assert!(src.shift_active());

    let q_press = record(1000, 500_000, 1, 16, 1);
    let e = src.handle_record(24, &q_press).unwrap().unwrap();
    assert!(matches!(e.kind, PressEvent::Press));
    assert_eq!(e.label, "Q");

    let shift_release = record(1001, 0, 1, 42, 0);
    let e = src.handle_record(24, &shift_release).unwrap().unwrap();
    assert!(matches!(e.kind, PressEvent::Release));
    assert!(!src.shift_active());

    let q_release = record(1002, 0, 1, 16, 0);
    let e = src.handle_record(24, &q_release).unwrap().unwrap();
    assert!(matches!(e.kind, PressEvent::Release));
    assert_eq!(e.label, "q");
}

#[test]
fn release_of_one_shift_keeps_shift_active() {
    let mut src = RawEventSource::new();
    let left_press = record(1, 0, 1, 42, 1);
    src.handle_record(24, &left_press).unwrap().unwrap();
    let right_press = record(2, 0, 1, 43, 1);
    src.handle_record(24, &right_press).unwrap().unwrap();
    let left_release = record(3, 0, 1, 42, 0);
    src.handle_record(24, &left_release).unwrap().unwrap();
    assert!(src.shift_active());

    let q_press = record(4, 0, 1, 16, 1);
    let e = src.handle_record(24, &q_press).unwrap().unwrap();
    assert_eq!(e.label, "Q");
}

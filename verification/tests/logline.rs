use keylog::Config;
use keylog::event::LocalInstant;
use keylog::event::format_log_line;
use keylog::event::millis_since_midnight;
use keylog::keys::Key;
use keylog::keys::PressEvent;

#[test]
fn mark_strings() {
    assert_eq!(PressEvent::Press.as_mark(), "PR");
    assert_eq!(PressEvent::Release.as_mark(), "RE");
}

#[test]
fn millis_formula() {
    let t = LocalInstant {
        year: 2024,
        month: 6,
        day: 15,
        hour: 1,
        minute: 2,
        second: 3,
        nanosecond: 4_000_000,
    };
    assert_eq!(millis_since_midnight(&t), 3_723_004);

    let midnight = LocalInstant {
        year: 2024,
        month: 6,
        day: 15,
        hour: 0,
        minute: 0,
        second: 0,
        nanosecond: 0,
    };
    assert_eq!(millis_since_midnight(&midnight), 0);

    let leap_end = LocalInstant {
        year: 2024,
        month: 6,
        day: 30,
        hour: 23,
        minute: 59,
        second: 59,
        nanosecond: 1_999_999_999,
    };
    assert_eq!(millis_since_midnight(&leap_end), 86_400_999);
}

#[test]
fn log_line_format_is_exact() {
    assert_eq!(format_log_line(1, PressEvent::Press, "q"), "00000001 PR q\n");
    assert_eq!(format_log_line(0, PressEvent::Press, "<UK>"), "00000000 PR <UK>\n");
    assert_eq!(format_log_line(86_400_999, PressEvent::Release, "<ESC>"), "86400999 RE <ESC>\n");
    assert_eq!(format_log_line(3_723_004, PressEvent::Release, "A"), "03723004 RE A\n");
}

#[test]
fn unknown_token_is_distinct_from_printables() {
    assert_eq!(Key::UK, "<UK>");
    assert!(Key::UK.len() > 1);
}

#[test]
fn config_carries_its_fields() {
    let c = Config::new(Some("/dev/input/event0".to_string()), None);
    assert_eq!(c.device_file.as_deref(), Some("/dev/input/event0"));
    assert!(c.log_file.is_none());
}

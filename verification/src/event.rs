//! Normalized key events, their timestamps, and the log-line format.
use vstd::prelude::*;
use vstd::string::StringExecFns;

use crate::keys::PressEvent;
use crate::keys::spec_mark;

verus! {

/// A wall-clock instant in the machine's local time zone, broken into
/// calendar and clock fields. The nanosecond field may reach
/// 1,999,999,999 during a leap second.
#[derive(Copy, Clone, PartialEq, Eq, Structural, Debug)]
pub struct LocalInstant {
    pub year: i32,
    pub month: u32,
    pub day: u32,
    pub hour: u32,
    pub minute: u32,
    pub second: u32,
    pub nanosecond: u32,
}

impl LocalInstant {
    /// The field ranges every instant of a real clock satisfies.
    pub open spec fn wf(&self) -> bool {
        &&& 1 <= self.month <= 12
        &&& 1 <= self.day <= 31
        &&& self.hour < 24
        &&& self.minute < 60
        &&& self.second < 60
        &&& self.nanosecond < 2_000_000_000
    }
}

/// One observed key transition: its kind, the text label of the key
/// under the shift state in force when it was observed, and the local
/// wall-clock instant it carries. Built once per transition and never
/// mutated.
#[derive(Copy, Clone, Debug)]
pub struct KeyEvent {
    pub kind: PressEvent,
    pub label: &'static str,
    pub time: LocalInstant,
}

/// Milliseconds elapsed since the local midnight of the instant's day.
pub open spec fn spec_millis_since_midnight(t: LocalInstant) -> int {
    t.hour * 3_600_000 + t.minute * 60_000 + t.second * 1_000 + t.nanosecond / 1_000_000
}

/// Milliseconds since local midnight, at most 86,400,999 for a
/// well-formed instant (a leap second adds up to 1,999 at the end of
/// the day).
pub fn millis_since_midnight(t: &LocalInstant) -> (r: u32)
    requires
        t.wf(),
    ensures
        r == spec_millis_since_midnight(*t),
        r <= 86_400_999,
{
    t.hour * 3_600_000 + t.minute * 60_000 + t.second * 1_000 + t.nanosecond / 1_000_000
}

/// The decimal digit character for `d`.
pub open spec fn spec_digit(d: int) -> char {
    if d == 0 {
        '0'
    } else if d == 1 {
        '1'
    } else if d == 2 {
        '2'
    } else if d == 3 {
        '3'
    } else if d == 4 {
        '4'
    } else if d == 5 {
        '5'
    } else if d == 6 {
        '6'
    } else if d == 7 {
        '7'
    } else if d == 8 {
        '8'
    } else {
        '9'
    }
}

/// The eight-digit zero-padded decimal rendering of `m`.
pub open spec fn spec_millis_field(m: u32) -> Seq<char> {
    seq![
        spec_digit((m as int / 10_000_000) % 10),
        spec_digit((m as int / 1_000_000) % 10),
        spec_digit((m as int / 100_000) % 10),
        spec_digit((m as int / 10_000) % 10),
        spec_digit((m as int / 1_000) % 10),
        spec_digit((m as int / 100) % 10),
        spec_digit((m as int / 10) % 10),
        spec_digit(m as int % 10),
    ]
}

/// One produced line of output: the zero-padded milliseconds since
/// local midnight, the two-letter kind mark, and the key label,
/// separated by single spaces and closed by a newline.
pub open spec fn spec_log_line(millis: u32, kind: PressEvent, label: Seq<char>) -> Seq<char> {
    spec_millis_field(millis) + " "@ + spec_mark(kind) + " "@ + label + "\n"@
}

fn digit_str(d: u32) -> (r: &'static str)
    requires
        d < 10,
    ensures
        r@ == seq![spec_digit(d as int)],
{
    proof {
        reveal_strlit("0");
        reveal_strlit("1");
        reveal_strlit("2");
        reveal_strlit("3");
        reveal_strlit("4");
        reveal_strlit("5");
        reveal_strlit("6");
        reveal_strlit("7");
        reveal_strlit("8");
        reveal_strlit("9");
    }
    let r = match d {
        0 => "0",
        1 => "1",
        2 => "2",
        3 => "3",
        4 => "4",
        5 => "5",
        6 => "6",
        7 => "7",
        8 => "8",
        _ => "9",
    };
    proof {
        assert(r@ =~= seq![spec_digit(d as int)]);
    }
    r
}

/// Renders one log line exactly as the output format asks: an
/// eight-digit zero-padded millisecond count, the kind mark, the
/// label, and a newline.
pub fn format_log_line(millis: u32, kind: PressEvent, label: &str) -> (r: String)
    ensures
        r@ == spec_log_line(millis, kind, label@),
{
    let mut s = String::new();
    s.append(digit_str(millis / 10_000_000 % 10));
    s.append(digit_str(millis / 1_000_000 % 10));
    s.append(digit_str(millis / 100_000 % 10));
    s.append(digit_str(millis / 10_000 % 10));
    s.append(digit_str(millis / 1_000 % 10));
    s.append(digit_str(millis / 100 % 10));
    s.append(digit_str(millis / 10 % 10));
    s.append(digit_str(millis % 10));
    s.append(" ");
    s.append(kind.as_mark());
    s.append(" ");
    s.append(label);
    s.append("\n");
    proof {
        assert(s@ =~= spec_log_line(millis, kind, label@));
    }
    s
}

} // verus!

//! The event-file platform's raw record layout and key tables.
//!
//! A record arrives as 24 bytes: two signed 64-bit timestamp fields
//! (seconds and microseconds), an unsigned 16-bit event type, an
//! unsigned 16-bit key code, and a signed 32-bit value, all in
//! little-endian byte order. The key tables map each code below
//! [`MAX_KEYS`] to its text label, once for the plain and once for the
//! shifted state; codes at or above [`MAX_KEYS`] map to the
//! [`Key::UK`] sentinel.
use vstd::prelude::*;

use crate::keys::Key;

verus! {

/// Number of entries in this platform's key tables.
pub const MAX_KEYS: u16 = 112;

/// Event type value that marks a key transition record.
pub const EV_KEY: u16 = 1;

/// Record value that encodes a key release.
pub const KEY_RELEASE: i32 = 0;

/// Record value that encodes a key press.
pub const KEY_PRESS: i32 = 1;

/// Key code of the left shift key.
pub const KEY_LEFTSHIFT: u16 = 42;

/// Key code of the right shift key.
pub const KEY_RIGHTSHIFT: u16 = 43;

/// Size in bytes of one raw record.
pub const RECORD_SIZE: usize = 24;

/// One decoded record from the kernel event stream.
#[derive(Copy, Clone, PartialEq, Eq, Structural, Debug)]
pub struct InputEvent {
    pub tv_sec: i64,
    pub tv_usec: i64,
    pub type_: u16,
    pub code: u16,
    pub value: i32,
}

/// The unsigned 16-bit integer held little-endian at `off`.
pub open spec fn le_u16(b: Seq<u8>, off: int) -> int {
    b[off] + 0x100 * b[off + 1]
}

/// The unsigned 32-bit integer held little-endian at `off`.
pub open spec fn le_u32(b: Seq<u8>, off: int) -> int {
    b[off] + 0x100 * b[off + 1] + 0x10000 * b[off + 2] + 0x1000000 * b[off + 3]
}

/// The unsigned 64-bit integer held little-endian at `off`.
pub open spec fn le_u64(b: Seq<u8>, off: int) -> int {
    le_u32(b, off) + 0x1_0000_0000 * le_u32(b, off + 4)
}

/// The two's-complement 32-bit integer held little-endian at `off`.
pub open spec fn le_i32(b: Seq<u8>, off: int) -> int {
    if le_u32(b, off) < 0x8000_0000 {
        le_u32(b, off)
    } else {
        le_u32(b, off) - 0x1_0000_0000
    }
}

/// The two's-complement 64-bit integer held little-endian at `off`.
pub open spec fn le_i64(b: Seq<u8>, off: int) -> int {
    if le_u64(b, off) < 0x8000_0000_0000_0000 {
        le_u64(b, off)
    } else {
        le_u64(b, off) - 0x1_0000_0000_0000_0000
    }
}

/// The record denoted by a full 24-byte buffer, field by field.
pub open spec fn spec_decode(b: Seq<u8>) -> InputEvent {
    InputEvent {
        tv_sec: le_i64(b, 0) as i64,
        tv_usec: le_i64(b, 8) as i64,
        type_: le_u16(b, 16) as u16,
        code: le_u16(b, 18) as u16,
        value: le_i32(b, 20) as i32,
    }
}

fn read_u16(buf: &[u8], off: usize) -> (r: u16)
    requires
        off + 2 <= buf@.len(),
    ensures
        r == le_u16(buf@, off as int),
{
    buf[off] as u16 + 0x100 * (buf[off + 1] as u16)
}

fn read_u32(buf: &[u8], off: usize) -> (r: u32)
    requires
        off + 4 <= buf@.len(),
    ensures
        r == le_u32(buf@, off as int),
{
    buf[off] as u32 + 0x100 * (buf[off + 1] as u32) + 0x10000 * (buf[off + 2] as u32) + 0x1000000
        * (buf[off + 3] as u32)
}

fn read_i32(buf: &[u8], off: usize) -> (r: i32)
    requires
        off + 4 <= buf@.len(),
    ensures
        r == le_i32(buf@, off as int),
{
    let u = read_u32(buf, off);
    if u >= 0x8000_0000 {
        ((u as i64) - 0x1_0000_0000) as i32
    } else {
        u as i32
    }
}

fn read_u64(buf: &[u8], off: usize) -> (r: u64)
    requires
        off + 8 <= buf@.len(),
    ensures
        r == le_u64(buf@, off as int),
{
    buf[off] as u64 + 0x100 * (buf[off + 1] as u64) + 0x10000 * (buf[off + 2] as u64) + 0x1000000
        * (buf[off + 3] as u64) + 0x1_0000_0000 * (buf[off + 4] as u64) + 0x100_0000_0000 * (buf[off
        + 5] as u64) + 0x1_0000_0000_0000 * (buf[off + 6] as u64) + 0x100_0000_0000_0000 * (buf[off
        + 7] as u64)
}

fn read_i64(buf: &[u8], off: usize) -> (r: i64)
    requires
        off + 8 <= buf@.len(),
    ensures
        r == le_i64(buf@, off as int),
{
    let u = read_u64(buf, off);
    if u >= 0x8000_0000_0000_0000 {
        ((u as i128) - 0x1_0000_0000_0000_0000) as i64
    } else {
        u as i64
    }
}

/// Decodes one raw record from its 24-byte buffer, field by field and
/// little-endian, without relying on any in-memory layout.
pub fn decode_record(buf: &[u8]) -> (ev: InputEvent)
    requires
        buf@.len() == RECORD_SIZE,
    ensures
        ev == spec_decode(buf@),
{
    InputEvent {
        tv_sec: read_i64(buf, 0),
        tv_usec: read_i64(buf, 8),
        type_: read_u16(buf, 16),
        code: read_u16(buf, 18),
        value: read_i32(buf, 20),
    }
}

/// Whether a record of this type describes a key transition.
pub fn is_key_event(type_: u16) -> (r: bool)
    ensures
        r == (type_ == EV_KEY),
{
    type_ == EV_KEY
}

/// Whether this record value encodes a press.
pub fn is_key_press(value: i32) -> (r: bool)
    ensures
        r == (value == KEY_PRESS),
{
    value == KEY_PRESS
}

/// Whether this record value encodes a release.
pub fn is_key_release(value: i32) -> (r: bool)
    ensures
        r == (value == KEY_RELEASE),
{
    value == KEY_RELEASE
}

/// Whether the given key code is a left or right shift key.
pub fn is_shift(code: u16) -> (r: bool)
    ensures
        r == spec_is_shift(code),
{
    code == KEY_LEFTSHIFT || code == KEY_RIGHTSHIFT
}

/// Whether the given key code is a left or right shift key.
pub open spec fn spec_is_shift(code: u16) -> bool {
    code == KEY_LEFTSHIFT || code == KEY_RIGHTSHIFT
}

/// The codes whose shifted label differs from the plain one: the
/// numeral row, the three letter rows with their neighbouring
/// punctuation, and the remaining punctuation keys.
pub open spec fn spec_is_shiftable(code: u16) -> bool {
    (2 <= code <= 13) || (16 <= code <= 27) || (30 <= code <= 41) || (43 <= code <= 53)
}

/// The label of `code` with no shift key held.
pub open spec fn spec_unshifted(code: u16) -> Seq<char> {
    match code {
        0u16 => Key::UK@,
        1u16 => Key::ESC@,
        2u16 => "1"@,
        3u16 => "2"@,
        4u16 => "3"@,
        5u16 => "4"@,
        6u16 => "5"@,
        7u16 => "6"@,
        8u16 => "7"@,
        9u16 => "8"@,
        10u16 => "9"@,
        11u16 => "0"@,
        12u16 => "-"@,
        13u16 => "="@,
        14u16 => Key::BACKSPACE@,
        15u16 => Key::TAB@,
        16u16 => "q"@,
        17u16 => "w"@,
        18u16 => "e"@,
        19u16 => "r"@,
        20u16 => "t"@,
        21u16 => "y"@,
        22u16 => "u"@,
        23u16 => "i"@,
        24u16 => "o"@,
        25u16 => "p"@,
        26u16 => "["@,
        27u16 => "]"@,
        28u16 => Key::ENTER@,
        29u16 => Key::LCTRL@,
        30u16 => "a"@,
        31u16 => "s"@,
        32u16 => "d"@,
        33u16 => "f"@,
        34u16 => "g"@,
        35u16 => "h"@,
        36u16 => "j"@,
        37u16 => "k"@,
        38u16 => "l"@,
        39u16 => ";"@,
        40u16 => "'"@,
        41u16 => "`"@,
        42u16 => Key::LSHIFT@,
        43u16 => "\\"@,
        44u16 => "z"@,
        45u16 => "x"@,
        46u16 => "c"@,
        47u16 => "v"@,
        48u16 => "b"@,
        49u16 => "n"@,
        50u16 => "m"@,
        51u16 => ","@,
        52u16 => "."@,
        53u16 => "/"@,
        54u16 => Key::RSHIFT@,
        55u16 => Key::KP_STAR@,
        56u16 => Key::LALT@,
        57u16 => Key::SPACE@,
        58u16 => Key::CAPS_LOCK@,
        59u16 => Key::F1@,
        60u16 => Key::F2@,
        61u16 => Key::F3@,
        62u16 => Key::F4@,
        63u16 => Key::F5@,
        64u16 => Key::F6@,
        65u16 => Key::F7@,
        66u16 => Key::F8@,
        67u16 => Key::F9@,
        68u16 => Key::F10@,
        69u16 => Key::NUM_LOCK@,
        70u16 => Key::SCROL_LOCK@,
        71u16 => Key::KP7@,
        72u16 => Key::KP8@,
        73u16 => Key::KP9@,
        74u16 => Key::KP_SUB@,
        75u16 => Key::KP4@,
        76u16 => Key::KP5@,
        77u16 => Key::KP6@,
        78u16 => Key::KP_ADD@,
        79u16 => Key::KP1@,
        80u16 => Key::KP2@,
        81u16 => Key::KP3@,
        82u16 => Key::KP0@,
        83u16 => Key::KP_POINT@,
        87u16 => Key::F11@,
        88u16 => Key::F12@,
        96u16 => Key::KP_ENTER@,
        97u16 => Key::RCTRL@,
        98u16 => Key::KP_DIV@,
        99u16 => Key::SYS_RQ@,
        100u16 => Key::RALT@,
        102u16 => Key::HOME@,
        103u16 => Key::UP@,
        104u16 => Key::PAGE_UP@,
        105u16 => Key::LEFT@,
        106u16 => Key::RIGHT@,
        107u16 => Key::END@,
        108u16 => Key::DOWN@,
        109u16 => Key::PAGE_DOWN@,
        110u16 => Key::INSERT@,
        111u16 => Key::DELETE@,
        _ => Key::UK@,
    }
}

/// The label of `code` with at least one shift key held. Mirrors the
/// plain table position for position; only the shiftable entries
/// differ.
pub open spec fn spec_shifted(code: u16) -> Seq<char> {
    match code {
        0u16 => Key::UK@,
        1u16 => Key::ESC@,
        2u16 => "!"@,
        3u16 => "@"@,
        4u16 => "#"@,
        5u16 => "$"@,
        6u16 => "%"@,
        7u16 => "^"@,
        8u16 => "&"@,
        9u16 => "*"@,
        10u16 => "("@,
        11u16 => ")"@,
        12u16 => "_"@,
        13u16 => "+"@,
        14u16 => Key::BACKSPACE@,
        15u16 => Key::TAB@,
        16u16 => "Q"@,
        17u16 => "W"@,
        18u16 => "E"@,
        19u16 => "R"@,
        20u16 => "T"@,
        21u16 => "Y"@,
        22u16 => "U"@,
        23u16 => "I"@,
        24u16 => "O"@,
        25u16 => "P"@,
        26u16 => "{"@,
        27u16 => "}"@,
        28u16 => Key::ENTER@,
        29u16 => Key::LCTRL@,
        30u16 => "A"@,
        31u16 => "S"@,
        32u16 => "D"@,
        33u16 => "F"@,
        34u16 => "G"@,
        35u16 => "H"@,
        36u16 => "J"@,
        37u16 => "K"@,
        38u16 => "L"@,
        39u16 => ":"@,
        40u16 => "\""@,
        41u16 => "~"@,
        42u16 => Key::LSHIFT@,
        43u16 => "|"@,
        44u16 => "Z"@,
        45u16 => "X"@,
        46u16 => "C"@,
        47u16 => "V"@,
        48u16 => "B"@,
        49u16 => "N"@,
        50u16 => "M"@,
        51u16 => "<"@,
        52u16 => ">"@,
        53u16 => "?"@,
        54u16 => Key::RSHIFT@,
        55u16 => Key::KP_STAR@,
        56u16 => Key::LALT@,
        57u16 => Key::SPACE@,
        58u16 => Key::CAPS_LOCK@,
        59u16 => Key::F1@,
        60u16 => Key::F2@,
        61u16 => Key::F3@,
        62u16 => Key::F4@,
        63u16 => Key::F5@,
        64u16 => Key::F6@,
        65u16 => Key::F7@,
        66u16 => Key::F8@,
        67u16 => Key::F9@,
        68u16 => Key::F10@,
        69u16 => Key::NUM_LOCK@,
        70u16 => Key::SCROL_LOCK@,
        71u16 => Key::KP7@,
        72u16 => Key::KP8@,
        73u16 => Key::KP9@,
        74u16 => Key::KP_SUB@,
        75u16 => Key::KP4@,
        76u16 => Key::KP5@,
        77u16 => Key::KP6@,
        78u16 => Key::KP_ADD@,
        79u16 => Key::KP1@,
        80u16 => Key::KP2@,
        81u16 => Key::KP3@,
        82u16 => Key::KP0@,
        83u16 => Key::KP_POINT@,
        87u16 => Key::F11@,
        88u16 => Key::F12@,
        96u16 => Key::KP_ENTER@,
        97u16 => Key::RCTRL@,
        98u16 => Key::KP_DIV@,
        99u16 => Key::SYS_RQ@,
        100u16 => Key::RALT@,
        102u16 => Key::HOME@,
        103u16 => Key::UP@,
        104u16 => Key::PAGE_UP@,
        105u16 => Key::LEFT@,
        106u16 => Key::RIGHT@,
        107u16 => Key::END@,
        108u16 => Key::DOWN@,
        109u16 => Key::PAGE_DOWN@,
        110u16 => Key::INSERT@,
        111u16 => Key::DELETE@,
        _ => Key::UK@,
    }
}

/// The label of `code` under the given shift state: the shifted table
/// entry when a shift key is held, the plain one otherwise.
pub open spec fn spec_key_text(code: u16, shift_active: bool) -> Seq<char> {
    if shift_active {
        spec_shifted(code)
    } else {
        spec_unshifted(code)
    }
}

fn unshifted_text(code: u16) -> (r: &'static str)
    ensures
        r@ == spec_unshifted(code),
{
    match code {
        0 => Key::UK,
        1 => Key::ESC,
        2 => "1",
        3 => "2",
        4 => "3",
        5 => "4",
        6 => "5",
        7 => "6",
        8 => "7",
        9 => "8",
        10 => "9",
        11 => "0",
        12 => "-",
        13 => "=",
        14 => Key::BACKSPACE,
        15 => Key::TAB,
        16 => "q",
        17 => "w",
        18 => "e",
        19 => "r",
        20 => "t",
        21 => "y",
        22 => "u",
        23 => "i",
        24 => "o",
        25 => "p",
        26 => "[",
        27 => "]",
        28 => Key::ENTER,
        29 => Key::LCTRL,
        30 => "a",
        31 => "s",
        32 => "d",
        33 => "f",
        34 => "g",
        35 => "h",
        36 => "j",
        37 => "k",
        38 => "l",
        39 => ";",
        40 => "'",
        41 => "`",
        42 => Key::LSHIFT,
        43 => "\\",
        44 => "z",
        45 => "x",
        46 => "c",
        47 => "v",
        48 => "b",
        49 => "n",
        50 => "m",
        51 => ",",
        52 => ".",
        53 => "/",
        54 => Key::RSHIFT,
        55 => Key::KP_STAR,
        56 => Key::LALT,
        57 => Key::SPACE,
        58 => Key::CAPS_LOCK,
        59 => Key::F1,
        60 => Key::F2,
        61 => Key::F3,
        62 => Key::F4,
        63 => Key::F5,
        64 => Key::F6,
        65 => Key::F7,
        66 => Key::F8,
        67 => Key::F9,
        68 => Key::F10,
        69 => Key::NUM_LOCK,
        70 => Key::SCROL_LOCK,
        71 => Key::KP7,
        72 => Key::KP8,
        73 => Key::KP9,
        74 => Key::KP_SUB,
        75 => Key::KP4,
        76 => Key::KP5,
        77 => Key::KP6,
        78 => Key::KP_ADD,
        79 => Key::KP1,
        80 => Key::KP2,
        81 => Key::KP3,
        82 => Key::KP0,
        83 => Key::KP_POINT,
        87 => Key::F11,
        88 => Key::F12,
        96 => Key::KP_ENTER,
        97 => Key::RCTRL,
        98 => Key::KP_DIV,
        99 => Key::SYS_RQ,
        100 => Key::RALT,
        102 => Key::HOME,
        103 => Key::UP,
        104 => Key::PAGE_UP,
        105 => Key::LEFT,
        106 => Key::RIGHT,
        107 => Key::END,
        108 => Key::DOWN,
        109 => Key::PAGE_DOWN,
        110 => Key::INSERT,
        111 => Key::DELETE,
        _ => Key::UK,
    }
}

fn shifted_text(code: u16) -> (r: &'static str)
    ensures
        r@ == spec_shifted(code),
{
    match code {
        0 => Key::UK,
        1 => Key::ESC,
        2 => "!",
        3 => "@",
        4 => "#",
        5 => "$",
        6 => "%",
        7 => "^",
        8 => "&",
        9 => "*",
        10 => "(",
        11 => ")",
        12 => "_",
        13 => "+",
        14 => Key::BACKSPACE,
        15 => Key::TAB,
        16 => "Q",
        17 => "W",
        18 => "E",
        19 => "R",
        20 => "T",
        21 => "Y",
        22 => "U",
        23 => "I",
        24 => "O",
        25 => "P",
        26 => "{",
        27 => "}",
        28 => Key::ENTER,
        29 => Key::LCTRL,
        30 => "A",
        31 => "S",
        32 => "D",
        33 => "F",
        34 => "G",
        35 => "H",
        36 => "J",
        37 => "K",
        38 => "L",
        39 => ":",
        40 => "\"",
        41 => "~",
        42 => Key::LSHIFT,
        43 => "|",
        44 => "Z",
        45 => "X",
        46 => "C",
        47 => "V",
        48 => "B",
        49 => "N",
        50 => "M",
        51 => "<",
        52 => ">",
        53 => "?",
        54 => Key::RSHIFT,
        55 => Key::KP_STAR,
        56 => Key::LALT,
        57 => Key::SPACE,
        58 => Key::CAPS_LOCK,
        59 => Key::F1,
        60 => Key::F2,
        61 => Key::F3,
        62 => Key::F4,
        63 => Key::F5,
        64 => Key::F6,
        65 => Key::F7,
        66 => Key::F8,
        67 => Key::F9,
        68 => Key::F10,
        69 => Key::NUM_LOCK,
        70 => Key::SCROL_LOCK,
        71 => Key::KP7,
        72 => Key::KP8,
        73 => Key::KP9,
        74 => Key::KP_SUB,
        75 => Key::KP4,
        76 => Key::KP5,
        77 => Key::KP6,
        78 => Key::KP_ADD,
        79 => Key::KP1,
        80 => Key::KP2,
        81 => Key::KP3,
        82 => Key::KP0,
        83 => Key::KP_POINT,
        87 => Key::F11,
        88 => Key::F12,
        96 => Key::KP_ENTER,
        97 => Key::RCTRL,
        98 => Key::KP_DIV,
        99 => Key::SYS_RQ,
        100 => Key::RALT,
        102 => Key::HOME,
        103 => Key::UP,
        104 => Key::PAGE_UP,
        105 => Key::LEFT,
        106 => Key::RIGHT,
        107 => Key::END,
        108 => Key::DOWN,
        109 => Key::PAGE_DOWN,
        110 => Key::INSERT,
        111 => Key::DELETE,
        _ => Key::UK,
    }
}

proof fn lemma_unshifted_nonempty(code: u16)
    ensures
        spec_unshifted(code).len() > 0,
{
    reveal_strlit("1");
    reveal_strlit("2");
    reveal_strlit("3");
    reveal_strlit("4");
    reveal_strlit("5");
    reveal_strlit("6");
    reveal_strlit("7");
    reveal_strlit("8");
    reveal_strlit("9");
    reveal_strlit("0");
    reveal_strlit("-");
    reveal_strlit("=");
    reveal_strlit("q");
    reveal_strlit("w");
    reveal_strlit("e");
    reveal_strlit("r");
    reveal_strlit("t");
    reveal_strlit("y");
    reveal_strlit("u");
    reveal_strlit("i");
    reveal_strlit("o");
    reveal_strlit("p");
    reveal_strlit("[");
    reveal_strlit("]");
    reveal_strlit("a");
    reveal_strlit("s");
    reveal_strlit("d");
    reveal_strlit("f");
    reveal_strlit("g");
    reveal_strlit("h");
    reveal_strlit("j");
    reveal_strlit("k");
    reveal_strlit("l");
    reveal_strlit(";");
    reveal_strlit("'");
    reveal_strlit("`");
    reveal_strlit("\\");
    reveal_strlit("z");
    reveal_strlit("x");
    reveal_strlit("c");
    reveal_strlit("v");
    reveal_strlit("b");
    reveal_strlit("n");
    reveal_strlit("m");
    reveal_strlit(",");
    reveal_strlit(".");
    reveal_strlit("/");
    crate::keys::lemma_key_tokens_nonempty();
}

proof fn lemma_shifted_nonempty(code: u16)
    ensures
        spec_shifted(code).len() > 0,
{
    reveal_strlit("!");
    reveal_strlit("@");
    reveal_strlit("#");
    reveal_strlit("$");
    reveal_strlit("%");
    reveal_strlit("^");
    reveal_strlit("&");
    reveal_strlit("*");
    reveal_strlit("(");
    reveal_strlit(")");
    reveal_strlit("_");
    reveal_strlit("+");
    reveal_strlit("Q");
    reveal_strlit("W");
    reveal_strlit("E");
    reveal_strlit("R");
    reveal_strlit("T");
    reveal_strlit("Y");
    reveal_strlit("U");
    reveal_strlit("I");
    reveal_strlit("O");
    reveal_strlit("P");
    reveal_strlit("{");
    reveal_strlit("}");
    reveal_strlit("A");
    reveal_strlit("S");
    reveal_strlit("D");
    reveal_strlit("F");
    reveal_strlit("G");
    reveal_strlit("H");
    reveal_strlit("J");
    reveal_strlit("K");
    reveal_strlit("L");
    reveal_strlit(":");
    reveal_strlit("\"");
    reveal_strlit("~");
    reveal_strlit("|");
    reveal_strlit("Z");
    reveal_strlit("X");
    reveal_strlit("C");
    reveal_strlit("V");
    reveal_strlit("B");
    reveal_strlit("N");
    reveal_strlit("M");
    reveal_strlit("<");
    reveal_strlit(">");
    reveal_strlit("?");
    crate::keys::lemma_key_tokens_nonempty();
}

/// Every key code resolves to a non-empty label in both shift states,
/// and for every code outside the shiftable set the two labels are
/// identical. This holds of out-of-table codes too, which resolve to
/// the Unknown sentinel either way.
pub proof fn lemma_labels_total(code: u16)
    ensures
        spec_key_text(code, false).len() > 0,
        spec_key_text(code, true).len() > 0,
        !spec_is_shiftable(code) ==> spec_key_text(code, false) == spec_key_text(code, true),
{
    lemma_unshifted_nonempty(code);
    lemma_shifted_nonempty(code);
}

/// A code outside the table resolves to the Unknown sentinel in both
/// shift states.
pub proof fn lemma_out_of_range_unknown(code: u16)
    requires
        code >= MAX_KEYS,
    ensures
        spec_key_text(code, false) == Key::UK@,
        spec_key_text(code, true) == Key::UK@,
{
}

/// Translates a key code to its text label. `shift_pressed` is the
/// number of shift keys currently held: any nonzero count selects the
/// shifted table. Out-of-table codes resolve to the [`Key::UK`]
/// sentinel in both shift states, never an error.
pub fn get_key_text(code: u16, shift_pressed: u8) -> (r: &'static str)
    ensures
        r@ == spec_key_text(code, shift_pressed != 0),
{
    if shift_pressed != 0 {
        shifted_text(code)
    } else {
        unshifted_text(code)
    }
}

} // verus!

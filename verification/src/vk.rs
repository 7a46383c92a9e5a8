//! The polling platform's virtual-key codes and label table.
//!
//! Virtual-key codes run from [`FIRST_VK_CODE`] up to (and excluding)
//! [`MAX_VK_CODE`]. A few codes are left out of the scan as unused:
//! reserved low codes and the generic shift/control/menu codes that
//! are superseded by their left/right-specific variants. As on the
//! other platform, the label table exists once plain and once
//! shifted, and every code outside it resolves to the [`Key::UK`]
//! sentinel.
use vstd::prelude::*;

use crate::keys::Key;
use crate::keys::WinKey;

verus! {

/// One past the highest virtual-key code the scan considers.
pub const MAX_VK_CODE: usize = 222;

/// The lowest virtual-key code the scan considers.
pub const FIRST_VK_CODE: usize = 8;

/// The generic shift code, superseded by the left/right variants.
pub const VK_SHIFT: usize = 0x10;

/// The generic control code, superseded by the left/right variants.
pub const VK_CONTROL: usize = 0x11;

/// The generic menu code, superseded by the left/right variants.
pub const VK_MENU: usize = 0x12;

/// Whether the scan queries this code at all: reserved low codes, the
/// generic modifier codes, and a reserved block of media codes are
/// skipped.
pub open spec fn spec_vk_is_used(code: usize) -> bool {
    !(code < 8 || code == VK_SHIFT || code == VK_CONTROL || code == VK_MENU || (0xA6 <= code
        <= 0xB9))
}

/// Whether the scan queries this code at all.
pub fn vk_is_used(code: usize) -> (r: bool)
    ensures
        r == spec_vk_is_used(code),
{
    !(code < 8 || code == VK_SHIFT || code == VK_CONTROL || code == VK_MENU || (0xA6 <= code
        && code <= 0xB9))
}

/// The codes whose shifted label differs from the plain one: the
/// digit row, the letters, and the punctuation blocks.
pub open spec fn spec_vk_is_shiftable(code: usize) -> bool {
    (0x30 <= code <= 0x39) || (0x41 <= code <= 0x5A) || (0xBA <= code <= 0xC0) || (0xDB <= code
        <= 0xDD)
}

/// The label of `code` with no shift key held.
pub open spec fn spec_vk_unshifted(code: usize) -> Seq<char> {
    match code {
        8usize => Key::BACKSPACE@,
        9usize => Key::TAB@,
        12usize => WinKey::CLEAR@,
        13usize => Key::ENTER@,
        19usize => WinKey::PAUSE@,
        20usize => Key::CAPS_LOCK@,
        27usize => Key::ESC@,
        32usize => Key::SPACE@,
        33usize => Key::PAGE_UP@,
        34usize => Key::PAGE_DOWN@,
        35usize => Key::END@,
        36usize => Key::HOME@,
        37usize => Key::LEFT@,
        38usize => Key::UP@,
        39usize => Key::RIGHT@,
        40usize => Key::DOWN@,
        44usize => WinKey::PRINT_SCREEN@,
        45usize => Key::INSERT@,
        46usize => Key::DELETE@,
        48usize => "0"@,
        49usize => "1"@,
        50usize => "2"@,
        51usize => "3"@,
        52usize => "4"@,
        53usize => "5"@,
        54usize => "6"@,
        55usize => "7"@,
        56usize => "8"@,
        57usize => "9"@,
        65usize => "a"@,
        66usize => "b"@,
        67usize => "c"@,
        68usize => "d"@,
        69usize => "e"@,
        70usize => "f"@,
        71usize => "g"@,
        72usize => "h"@,
        73usize => "i"@,
        74usize => "j"@,
        75usize => "k"@,
        76usize => "l"@,
        77usize => "m"@,
        78usize => "n"@,
        79usize => "o"@,
        80usize => "p"@,
        81usize => "q"@,
        82usize => "r"@,
        83usize => "s"@,
        84usize => "t"@,
        85usize => "u"@,
        86usize => "v"@,
        87usize => "w"@,
        88usize => "x"@,
        89usize => "y"@,
        90usize => "z"@,
        91usize => WinKey::LWIN@,
        92usize => WinKey::RWIN@,
        95usize => WinKey::SLEEP@,
        96usize => Key::KP0@,
        97usize => Key::KP1@,
        98usize => Key::KP2@,
        99usize => Key::KP3@,
        100usize => Key::KP4@,
        101usize => Key::KP5@,
        102usize => Key::KP6@,
        103usize => Key::KP7@,
        104usize => Key::KP8@,
        105usize => Key::KP9@,
        106usize => Key::KP_STAR@,
        107usize => Key::KP_ADD@,
        108usize => WinKey::SEPARATOR@,
        109usize => Key::KP_SUB@,
        110usize => Key::KP_POINT@,
        111usize => Key::KP_DIV@,
        112usize => Key::F1@,
        113usize => Key::F2@,
        114usize => Key::F3@,
        115usize => Key::F4@,
        116usize => Key::F5@,
        117usize => Key::F6@,
        118usize => Key::F7@,
        119usize => Key::F8@,
        120usize => Key::F9@,
        121usize => Key::F10@,
        122usize => Key::F11@,
        123usize => Key::F12@,
        124usize => WinKey::F13@,
        125usize => WinKey::F14@,
        126usize => WinKey::F15@,
        127usize => WinKey::F16@,
        128usize => WinKey::F17@,
        129usize => WinKey::F18@,
        130usize => WinKey::F19@,
        131usize => WinKey::F20@,
        132usize => WinKey::F21@,
        133usize => WinKey::F22@,
        134usize => WinKey::F23@,
        135usize => WinKey::F24@,
        144usize => Key::NUM_LOCK@,
        145usize => Key::SCROL_LOCK@,
        160usize => Key::LSHIFT@,
        161usize => Key::RSHIFT@,
        162usize => Key::LCTRL@,
        163usize => Key::RCTRL@,
        164usize => Key::LALT@,
        165usize => Key::RALT@,
        186usize => ";"@,
        187usize => "="@,
        188usize => ","@,
        189usize => "-"@,
        190usize => "."@,
        191usize => "/"@,
        192usize => "`"@,
        219usize => "["@,
        220usize => "\\"@,
        221usize => "]"@,
        _ => Key::UK@,
    }
}

/// The label of `code` with a shift key held. Mirrors the plain table
/// position for position; only the shiftable entries differ.
pub open spec fn spec_vk_shifted(code: usize) -> Seq<char> {
    match code {
        8usize => Key::BACKSPACE@,
        9usize => Key::TAB@,
        12usize => WinKey::CLEAR@,
        13usize => Key::ENTER@,
        19usize => WinKey::PAUSE@,
        20usize => Key::CAPS_LOCK@,
        27usize => Key::ESC@,
        32usize => Key::SPACE@,
        33usize => Key::PAGE_UP@,
        34usize => Key::PAGE_DOWN@,
        35usize => Key::END@,
        36usize => Key::HOME@,
        37usize => Key::LEFT@,
        38usize => Key::UP@,
        39usize => Key::RIGHT@,
        40usize => Key::DOWN@,
        44usize => WinKey::PRINT_SCREEN@,
        45usize => Key::INSERT@,
        46usize => Key::DELETE@,
        48usize => ")"@,
        49usize => "!"@,
        50usize => "@"@,
        51usize => "#"@,
        52usize => "$"@,
        53usize => "%"@,
        54usize => "^"@,
        55usize => "&"@,
        56usize => "*"@,
        57usize => "("@,
        65usize => "A"@,
        66usize => "B"@,
        67usize => "C"@,
        68usize => "D"@,
        69usize => "E"@,
        70usize => "F"@,
        71usize => "G"@,
        72usize => "H"@,
        73usize => "I"@,
        74usize => "J"@,
        75usize => "K"@,
        76usize => "L"@,
        77usize => "M"@,
        78usize => "N"@,
        79usize => "O"@,
        80usize => "P"@,
        81usize => "Q"@,
        82usize => "R"@,
        83usize => "S"@,
        84usize => "T"@,
        85usize => "U"@,
        86usize => "V"@,
        87usize => "W"@,
        88usize => "X"@,
        89usize => "Y"@,
        90usize => "Z"@,
        91usize => WinKey::LWIN@,
        92usize => WinKey::RWIN@,
        95usize => WinKey::SLEEP@,
        96usize => Key::KP0@,
        97usize => Key::KP1@,
        98usize => Key::KP2@,
        99usize => Key::KP3@,
        100usize => Key::KP4@,
        101usize => Key::KP5@,
        102usize => Key::KP6@,
        103usize => Key::KP7@,
        104usize => Key::KP8@,
        105usize => Key::KP9@,
        106usize => Key::KP_STAR@,
        107usize => Key::KP_ADD@,
        108usize => WinKey::SEPARATOR@,
        109usize => Key::KP_SUB@,
        110usize => Key::KP_POINT@,
        111usize => Key::KP_DIV@,
        112usize => Key::F1@,
        113usize => Key::F2@,
        114usize => Key::F3@,
        115usize => Key::F4@,
        116usize => Key::F5@,
        117usize => Key::F6@,
        118usize => Key::F7@,
        119usize => Key::F8@,
        120usize => Key::F9@,
        121usize => Key::F10@,
        122usize => Key::F11@,
        123usize => Key::F12@,
        124usize => WinKey::F13@,
        125usize => WinKey::F14@,
        126usize => WinKey::F15@,
        127usize => WinKey::F16@,
        128usize => WinKey::F17@,
        129usize => WinKey::F18@,
        130usize => WinKey::F19@,
        131usize => WinKey::F20@,
        132usize => WinKey::F21@,
        133usize => WinKey::F22@,
        134usize => WinKey::F23@,
        135usize => WinKey::F24@,
        144usize => Key::NUM_LOCK@,
        145usize => Key::SCROL_LOCK@,
        160usize => Key::LSHIFT@,
        161usize => Key::RSHIFT@,
        162usize => Key::LCTRL@,
        163usize => Key::RCTRL@,
        164usize => Key::LALT@,
        165usize => Key::RALT@,
        186usize => ":"@,
        187usize => "+"@,
        188usize => "<"@,
        189usize => "_"@,
        190usize => ">"@,
        191usize => "?"@,
        192usize => "~"@,
        219usize => "{"@,
        220usize => "|"@,
        221usize => "}"@,
        _ => Key::UK@,
    }
}

/// The label of `code` under the given shift state.
pub open spec fn spec_vk_text(code: usize, shift_active: bool) -> Seq<char> {
    if shift_active {
        spec_vk_shifted(code)
    } else {
        spec_vk_unshifted(code)
    }
}

fn vk_unshifted_text(code: usize) -> (r: &'static str)
    ensures
        r@ == spec_vk_unshifted(code),
{
    match code {
        8 => Key::BACKSPACE,
        9 => Key::TAB,
        12 => WinKey::CLEAR,
        13 => Key::ENTER,
        19 => WinKey::PAUSE,
        20 => Key::CAPS_LOCK,
        27 => Key::ESC,
        32 => Key::SPACE,
        33 => Key::PAGE_UP,
        34 => Key::PAGE_DOWN,
        35 => Key::END,
        36 => Key::HOME,
        37 => Key::LEFT,
        38 => Key::UP,
        39 => Key::RIGHT,
        40 => Key::DOWN,
        44 => WinKey::PRINT_SCREEN,
        45 => Key::INSERT,
        46 => Key::DELETE,
        48 => "0",
        49 => "1",
        50 => "2",
        51 => "3",
        52 => "4",
        53 => "5",
        54 => "6",
        55 => "7",
        56 => "8",
        57 => "9",
        65 => "a",
        66 => "b",
        67 => "c",
        68 => "d",
        69 => "e",
        70 => "f",
        71 => "g",
        72 => "h",
        73 => "i",
        74 => "j",
        75 => "k",
        76 => "l",
        77 => "m",
        78 => "n",
        79 => "o",
        80 => "p",
        81 => "q",
        82 => "r",
        83 => "s",
        84 => "t",
        85 => "u",
        86 => "v",
        87 => "w",
        88 => "x",
        89 => "y",
        90 => "z",
        91 => WinKey::LWIN,
        92 => WinKey::RWIN,
        95 => WinKey::SLEEP,
        96 => Key::KP0,
        97 => Key::KP1,
        98 => Key::KP2,
        99 => Key::KP3,
        100 => Key::KP4,
        101 => Key::KP5,
        102 => Key::KP6,
        103 => Key::KP7,
        104 => Key::KP8,
        105 => Key::KP9,
        106 => Key::KP_STAR,
        107 => Key::KP_ADD,
        108 => WinKey::SEPARATOR,
        109 => Key::KP_SUB,
        110 => Key::KP_POINT,
        111 => Key::KP_DIV,
        112 => Key::F1,
        113 => Key::F2,
        114 => Key::F3,
        115 => Key::F4,
        116 => Key::F5,
        117 => Key::F6,
        118 => Key::F7,
        119 => Key::F8,
        120 => Key::F9,
        121 => Key::F10,
        122 => Key::F11,
        123 => Key::F12,
        124 => WinKey::F13,
        125 => WinKey::F14,
        126 => WinKey::F15,
        127 => WinKey::F16,
        128 => WinKey::F17,
        129 => WinKey::F18,
        130 => WinKey::F19,
        131 => WinKey::F20,
        132 => WinKey::F21,
        133 => WinKey::F22,
        134 => WinKey::F23,
        135 => WinKey::F24,
        144 => Key::NUM_LOCK,
        145 => Key::SCROL_LOCK,
        160 => Key::LSHIFT,
        161 => Key::RSHIFT,
        162 => Key::LCTRL,
        163 => Key::RCTRL,
        164 => Key::LALT,
        165 => Key::RALT,
        186 => ";",
        187 => "=",
        188 => ",",
        189 => "-",
        190 => ".",
        191 => "/",
        192 => "`",
        219 => "[",
        220 => "\\",
        221 => "]",
        _ => Key::UK,
    }
}

fn vk_shifted_text(code: usize) -> (r: &'static str)
    ensures
        r@ == spec_vk_shifted(code),
{
    match code {
        8 => Key::BACKSPACE,
        9 => Key::TAB,
        12 => WinKey::CLEAR,
        13 => Key::ENTER,
        19 => WinKey::PAUSE,
        20 => Key::CAPS_LOCK,
        27 => Key::ESC,
        32 => Key::SPACE,
        33 => Key::PAGE_UP,
        34 => Key::PAGE_DOWN,
        35 => Key::END,
        36 => Key::HOME,
        37 => Key::LEFT,
        38 => Key::UP,
        39 => Key::RIGHT,
        40 => Key::DOWN,
        44 => WinKey::PRINT_SCREEN,
        45 => Key::INSERT,
        46 => Key::DELETE,
        48 => ")",
        49 => "!",
        50 => "@",
        51 => "#",
        52 => "$",
        53 => "%",
        54 => "^",
        55 => "&",
        56 => "*",
        57 => "(",
        65 => "A",
        66 => "B",
        67 => "C",
        68 => "D",
        69 => "E",
        70 => "F",
        71 => "G",
        72 => "H",
        73 => "I",
        74 => "J",
        75 => "K",
        76 => "L",
        77 => "M",
        78 => "N",
        79 => "O",
        80 => "P",
        81 => "Q",
        82 => "R",
        83 => "S",
        84 => "T",
        85 => "U",
        86 => "V",
        87 => "W",
        88 => "X",
        89 => "Y",
        90 => "Z",
        91 => WinKey::LWIN,
        92 => WinKey::RWIN,
        95 => WinKey::SLEEP,
        96 => Key::KP0,
        97 => Key::KP1,
        98 => Key::KP2,
        99 => Key::KP3,
        100 => Key::KP4,
        101 => Key::KP5,
        102 => Key::KP6,
        103 => Key::KP7,
        104 => Key::KP8,
        105 => Key::KP9,
        106 => Key::KP_STAR,
        107 => Key::KP_ADD,
        108 => WinKey::SEPARATOR,
        109 => Key::KP_SUB,
        110 => Key::KP_POINT,
        111 => Key::KP_DIV,
        112 => Key::F1,
        113 => Key::F2,
        114 => Key::F3,
        115 => Key::F4,
        116 => Key::F5,
        117 => Key::F6,
        118 => Key::F7,
        119 => Key::F8,
        120 => Key::F9,
        121 => Key::F10,
        122 => Key::F11,
        123 => Key::F12,
        124 => WinKey::F13,
        125 => WinKey::F14,
        126 => WinKey::F15,
        127 => WinKey::F16,
        128 => WinKey::F17,
        129 => WinKey::F18,
        130 => WinKey::F19,
        131 => WinKey::F20,
        132 => WinKey::F21,
        133 => WinKey::F22,
        134 => WinKey::F23,
        135 => WinKey::F24,
        144 => Key::NUM_LOCK,
        145 => Key::SCROL_LOCK,
        160 => Key::LSHIFT,
        161 => Key::RSHIFT,
        162 => Key::LCTRL,
        163 => Key::RCTRL,
        164 => Key::LALT,
        165 => Key::RALT,
        186 => ":",
        187 => "+",
        188 => "<",
        189 => "_",
        190 => ">",
        191 => "?",
        192 => "~",
        219 => "{",
        220 => "|",
        221 => "}",
        _ => Key::UK,
    }
}

/// Translates a virtual-key code to its text label under the given
/// shift state. Out-of-table codes resolve to the [`Key::UK`]
/// sentinel in both shift states, never an error.
pub fn get_vk_text(code: usize, shift_active: bool) -> (r: &'static str)
    ensures
        r@ == spec_vk_text(code, shift_active),
{
    if shift_active {
        vk_shifted_text(code)
    } else {
        vk_unshifted_text(code)
    }
}

proof fn lemma_vk_unshifted_nonempty(code: usize)
    ensures
        spec_vk_unshifted(code).len() > 0,
{
    reveal_strlit("0");
    reveal_strlit("1");
    reveal_strlit("2");
    reveal_strlit("3");
    reveal_strlit("4");
    reveal_strlit("5");
    reveal_strlit("6");
    reveal_strlit("7");
    reveal_strlit("8");
    reveal_strlit("9");
    reveal_strlit("a");
    reveal_strlit("b");
    reveal_strlit("c");
    reveal_strlit("d");
    reveal_strlit("e");
    reveal_strlit("f");
    reveal_strlit("g");
    reveal_strlit("h");
    reveal_strlit("i");
    reveal_strlit("j");
    reveal_strlit("k");
    reveal_strlit("l");
    reveal_strlit("m");
    reveal_strlit("n");
    reveal_strlit("o");
    reveal_strlit("p");
    reveal_strlit("q");
    reveal_strlit("r");
    reveal_strlit("s");
    reveal_strlit("t");
    reveal_strlit("u");
    reveal_strlit("v");
    reveal_strlit("w");
    reveal_strlit("x");
    reveal_strlit("y");
    reveal_strlit("z");
    reveal_strlit(";");
    reveal_strlit("=");
    reveal_strlit(",");
    reveal_strlit("-");
    reveal_strlit(".");
    reveal_strlit("/");
    reveal_strlit("`");
    reveal_strlit("[");
    reveal_strlit("\\");
    reveal_strlit("]");
    crate::keys::lemma_key_tokens_nonempty();
    crate::keys::lemma_win_tokens_nonempty();
}

proof fn lemma_vk_shifted_nonempty(code: usize)
    ensures
        spec_vk_shifted(code).len() > 0,
{
    reveal_strlit(")");
    reveal_strlit("!");
    reveal_strlit("@");
    reveal_strlit("#");
    reveal_strlit("$");
    reveal_strlit("%");
    reveal_strlit("^");
    reveal_strlit("&");
    reveal_strlit("*");
    reveal_strlit("(");
    reveal_strlit("A");
    reveal_strlit("B");
    reveal_strlit("C");
    reveal_strlit("D");
    reveal_strlit("E");
    reveal_strlit("F");
    reveal_strlit("G");
    reveal_strlit("H");
    reveal_strlit("I");
    reveal_strlit("J");
    reveal_strlit("K");
    reveal_strlit("L");
    reveal_strlit("M");
    reveal_strlit("N");
    reveal_strlit("O");
    reveal_strlit("P");
    reveal_strlit("Q");
    reveal_strlit("R");
    reveal_strlit("S");
    reveal_strlit("T");
    reveal_strlit("U");
    reveal_strlit("V");
    reveal_strlit("W");
    reveal_strlit("X");
    reveal_strlit("Y");
    reveal_strlit("Z");
    reveal_strlit(":");
    reveal_strlit("+");
    reveal_strlit("<");
    reveal_strlit("_");
    reveal_strlit(">");
    reveal_strlit("?");
    reveal_strlit("~");
    reveal_strlit("{");
    reveal_strlit("|");
    reveal_strlit("}");
    crate::keys::lemma_key_tokens_nonempty();
    crate::keys::lemma_win_tokens_nonempty();
}

/// Every virtual-key code resolves to a non-empty label in both shift
/// states, and for every code outside the shiftable set the two
/// labels are identical. This holds of out-of-table codes too, which
/// resolve to the Unknown sentinel either way.
pub proof fn lemma_vk_labels_total(code: usize)
    ensures
        spec_vk_text(code, false).len() > 0,
        spec_vk_text(code, true).len() > 0,
        !spec_vk_is_shiftable(code) ==> spec_vk_text(code, false) == spec_vk_text(code, true),
{
    lemma_vk_unshifted_nonempty(code);
    lemma_vk_shifted_nonempty(code);
}

/// A code at or above the table bound resolves to the Unknown
/// sentinel in both shift states.
pub proof fn lemma_vk_out_of_range_unknown(code: usize)
    requires
        code >= MAX_VK_CODE,
    ensures
        spec_vk_text(code, false) == Key::UK@,
        spec_vk_text(code, true) == Key::UK@,
{
}

} // verus!

use keylog::input::get_key_text;
use keylog::keys::Key;
use keylog::vk::get_vk_text;
use keylog::vk::vk_is_used;

#[test]
fn resolve_letters_by_shift_state() {
    assert_eq!(get_key_text(16, 0), "q");
    assert_eq!(get_key_text(16, 1), "Q");
    assert_eq!(get_key_text(16, 2), "Q");
    assert_eq!(get_key_text(30, 0), "a");
    assert_eq!(get_key_text(30, 1), "A");
    assert_eq!(get_key_text(44, 0), "z");
    assert_eq!(get_key_text(44, 1), "Z");
}

#[test]
fn resolve_numeral_row_by_shift_state() {
    assert_eq!(get_key_text(2, 0), "1");
    assert_eq!(get_key_text(2, 1), "!");
    assert_eq!(get_key_text(11, 0), "0");
    assert_eq!(get_key_text(11, 1), ")");
    assert_eq!(get_key_text(12, 0), "-");
    assert_eq!(get_key_text(12, 1), "_");
}

#[test]
fn resolve_special_keys_ignore_shift() {
    assert_eq!(get_key_text(1, 0), "<ESC>");
    assert_eq!(get_key_text(1, 1), "<ESC>");
    assert_eq!(get_key_text(14, 0), "<Backspace>");
    assert_eq!(get_key_text(14, 1), "<Backspace>");
    assert_eq!(get_key_text(57, 0), "<Space>");
    assert_eq!(get_key_text(57, 1), "<Space>");
    assert_eq!(get_key_text(111, 0), "<Delete>");
    assert_eq!(get_key_text(111, 1), "<Delete>");
}

#[test]
fn resolve_all_valid_codes_nonempty() {
    for code in 0..112u16 {
        assert!(!get_key_text(code, 0).is_empty());
        assert!(!get_key_text(code, 1).is_empty());
    }
}

#[test]
fn resolve_nonshiftable_codes_identical() {
    for code in 0..112u16 {
        let shiftable = (2..=13).contains(&code) || (16..=27).contains(&code)
            || (30..=41).contains(&code) || (43..=53).contains(&code);
        if !shiftable {
            assert_eq!(get_key_text(code, 0), get_key_text(code, 1));
        }
    }
}

#[test]
fn resolve_out_of_range_is_unknown() {
    assert_eq!(get_key_text(112, 0), Key::UK);
    assert_eq!(get_key_text(112, 1), Key::UK);
    assert_eq!(get_key_text(500, 0), "<UK>");
    assert_eq!(get_key_text(500, 1), "<UK>");
    assert_eq!(get_key_text(u16::MAX, 0), "<UK>");
    assert_eq!(get_key_text(u16::MAX, 1), "<UK>");
}

#[test]
fn vk_resolve_letters_and_digits() {
    assert_eq!(get_vk_text(0x41, false), "a");
    assert_eq!(get_vk_text(0x41, true), "A");
    assert_eq!(get_vk_text(0x5A, false), "z");
    assert_eq!(get_vk_text(0x5A, true), "Z");
    assert_eq!(get_vk_text(0x30, false), "0");
    assert_eq!(get_vk_text(0x30, true), ")");
    assert_eq!(get_vk_text(0x39, false), "9");
    assert_eq!(get_vk_text(0x39, true), "(");
}

#[test]
fn vk_resolve_named_keys() {
    assert_eq!(get_vk_text(0x1B, false), "<ESC>");
    assert_eq!(get_vk_text(0x0D, true), "<Enter>");
    assert_eq!(get_vk_text(0xA0, false), "<LShift>");
    assert_eq!(get_vk_text(0x7C, false), "<F13>");
    assert_eq!(get_vk_text(0x87, false), "<F24>");
    assert_eq!(get_vk_text(0x2C, false), "<PrintScreen>");
    assert_eq!(get_vk_text(0x6E, false), "<KP.>");
}

#[test]
fn vk_resolve_all_codes_nonempty() {
    for code in 0..222usize {
        assert!(!get_vk_text(code, false).is_empty());
        assert!(!get_vk_text(code, true).is_empty());
    }
}

#[test]
fn vk_resolve_nonshiftable_codes_identical() {
    for code in 0..230usize {
        let shiftable = (0x30..=0x39).contains(&code) || (0x41..=0x5A).contains(&code)
            || (0xBA..=0xC0).contains(&code) || (0xDB..=0xDD).contains(&code);
        if !shiftable {
            assert_eq!(get_vk_text(code, false), get_vk_text(code, true));
        }
    }
}

#[test]
fn vk_resolve_out_of_range_is_unknown() {
    assert_eq!(get_vk_text(222, false), "<UK>");
    assert_eq!(get_vk_text(222, true), "<UK>");
    assert_eq!(get_vk_text(10_000, false), "<UK>");
}

#[test]
fn vk_unused_codes() {
    for code in 0..8usize {
        assert!(!vk_is_used(code));
    }
    assert!(vk_is_used(8));
    assert!(!vk_is_used(0x10));
    assert!(!vk_is_used(0x11));
    assert!(!vk_is_used(0x12));
    assert!(vk_is_used(0x13));
    for code in 0xA6..=0xB9usize {
        assert!(!vk_is_used(code));
    }
    assert!(vk_is_used(0xBA));
    assert!(vk_is_used(0x41));
}

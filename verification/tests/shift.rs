use keylog::shift::ShiftTracker;

#[test]
fn double_shift_overlap() {
    let mut t = ShiftTracker::new();
    assert!(!t.is_active());
    t.on_press(42);
    t.on_press(43);
    t.on_release(42);
    assert!(t.is_active());
    t.on_release(43);
    assert!(!t.is_active());
}

#[test]
fn spurious_release_never_goes_negative() {
    let mut t = ShiftTracker::new();
    t.on_release(42);
    assert!(!t.is_active());
    t.on_release(43);
    assert!(!t.is_active());
    t.on_press(42);
    assert!(t.is_active());
    t.on_release(42);
    assert!(!t.is_active());
}

#[test]
fn non_shift_codes_are_ignored() {
    let mut t = ShiftTracker::new();
    t.on_press(30);
    t.on_press(16);
    assert!(!t.is_active());
    t.on_press(42);
    t.on_release(30);
    assert!(t.is_active());
}

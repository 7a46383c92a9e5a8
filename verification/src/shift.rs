//! Press-count tracking for the two shift keys.
use vstd::prelude::*;

use crate::input::spec_is_shift;

verus! {

/// The shift count after a press of `code` is observed.
pub open spec fn spec_after_press(count: u8, code: u16) -> u8 {
    if spec_is_shift(code) && count < u8::MAX {
        (count + 1) as u8
    } else {
        count
    }
}

/// The shift count after a release of `code` is observed.
pub open spec fn spec_after_release(count: u8, code: u16) -> u8 {
    if spec_is_shift(code) && count > 0 {
        (count - 1) as u8
    } else {
        count
    }
}

/// Counts how many shift keys are currently held. A count rather than
/// a flag: both shift keys can be down at once, and releasing one of
/// them must not clear the shift state while the other is still held.
/// The count is never driven below zero, even by a release that was
/// not preceded by a press.
pub struct ShiftTracker {
    count: u8,
}

impl ShiftTracker {
    /// How many shift keys are held according to the observed events.
    pub closed spec fn count(&self) -> u8 {
        self.count
    }

    /// A fresh tracker: no shift key held.
    pub fn new() -> (t: ShiftTracker)
        ensures
            t.count() == 0,
    {
        ShiftTracker { count: 0 }
    }

    /// Observes a press. Only a left or right shift code changes the
    /// count; every other code is a no-op.
    pub fn on_press(&mut self, code: u16)
        ensures
            final(self).count() == spec_after_press(old(self).count(), code),
    {
        if crate::input::is_shift(code) {
            if self.count < u8::MAX {
                self.count = self.count + 1;
            }
        }
    }

    /// Observes a release. Only a left or right shift code changes the
    /// count, and the count is floored at zero so that a spurious
    /// release cannot corrupt later tracking.
    pub fn on_release(&mut self, code: u16)
        ensures
            final(self).count() == spec_after_release(old(self).count(), code),
    {
        if crate::input::is_shift(code) {
            if self.count > 0 {
                self.count = self.count - 1;
            }
        }
    }

    /// Whether any shift key is currently held.
    pub fn is_active(&self) -> (r: bool)
        ensures
            r == (self.count() != 0),
    {
        self.count != 0
    }

    /// The current count, as the label tables take it.
    pub fn pressed_count(&self) -> (r: u8)
        ensures
            r == self.count(),
    {
        self.count
    }
}

} // verus!

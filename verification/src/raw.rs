//! The event-file source: normalizes raw kernel records.
//!
//! The caller performs one fixed-size blocking read per call and hands
//! the byte count and buffer here. A byte count other than the record
//! size is a fatal stream corruption, reported as an error and never
//! as an event; the binary protocol has no resynchronization marker,
//! so no partial-record recovery is attempted.
use vstd::prelude::*;

use crate::event::KeyEvent;
use crate::input::EV_KEY;
use crate::input::InputEvent;
use crate::input::KEY_PRESS;
use crate::input::KEY_RELEASE;
use crate::input::RECORD_SIZE;
use crate::input::decode_record;
use crate::input::spec_decode;
use crate::input::spec_key_text;
use crate::keys::PressEvent;
use crate::shift::ShiftTracker;
use crate::shift::spec_after_press;
use crate::shift::spec_after_release;
use crate::time::local_from_epoch;

verus! {

/// A fault of the raw event stream. Both kinds are fatal to the
/// caller: a corrupted or truncated stream cannot be resynchronized.
#[derive(Copy, Clone, PartialEq, Eq, Structural, Debug)]
pub enum StreamError {
    /// The read returned a byte count other than the record size.
    BadRecordSize,
    /// The record's timestamp cannot be converted to a wall-clock
    /// instant.
    TimeOutOfRange,
}

/// Whether a decoded record describes a key press or release. Records
/// of other event types, and the autorepeat value, yield no event.
pub open spec fn spec_is_key_transition(ev: InputEvent) -> bool {
    ev.type_ == EV_KEY && (ev.value == KEY_PRESS || ev.value == KEY_RELEASE)
}

/// The shift count after one record is observed: presses and releases
/// of shift keys move it, everything else leaves it alone.
pub open spec fn spec_shift_count_after(count: u8, ev: InputEvent) -> u8 {
    if ev.type_ == EV_KEY && ev.value == KEY_PRESS {
        spec_after_press(count, ev.code)
    } else if ev.type_ == EV_KEY && ev.value == KEY_RELEASE {
        spec_after_release(count, ev.code)
    } else {
        count
    }
}

/// The event kind a press/release record denotes.
pub open spec fn spec_transition_kind(ev: InputEvent) -> PressEvent {
    if ev.value == KEY_PRESS {
        PressEvent::Press
    } else {
        PressEvent::Release
    }
}

/// Normalizes the kernel's event-file records into key events. Owns
/// the shift tracking: a record's label is resolved under the shift
/// state as updated by that very record.
pub struct RawEventSource {
    shift: ShiftTracker,
}

impl RawEventSource {
    /// How many shift keys the records seen so far leave held.
    pub closed spec fn shift_count(&self) -> u8 {
        self.shift.count()
    }

    /// A fresh source: no shift key held.
    pub fn new() -> (s: RawEventSource)
        ensures
            s.shift_count() == 0,
    {
        RawEventSource { shift: ShiftTracker::new() }
    }

    /// Whether any shift key is currently held.
    pub fn shift_active(&self) -> (r: bool)
        ensures
            r == (self.shift_count() != 0),
    {
        self.shift.is_active()
    }

    /// Applies one decoded record to the shift state and classifies
    /// it. A press or release yields its kind and the label resolved
    /// under the post-update shift state; any other record yields
    /// nothing.
    pub fn process_event(&mut self, ev: &InputEvent) -> (r: Option<(PressEvent, &'static str)>)
        ensures
            final(self).shift_count() == spec_shift_count_after(old(self).shift_count(), *ev),
            !spec_is_key_transition(*ev) ==> r is None,
            spec_is_key_transition(*ev) ==> (r matches Some(p) && p.0 == spec_transition_kind(*ev)
                && p.1@ == spec_key_text(
                ev.code,
                spec_shift_count_after(old(self).shift_count(), *ev) != 0,
            )),
    {
        if !crate::input::is_key_event(ev.type_) {
            return None;
        }
        let kind = if crate::input::is_key_press(ev.value) {
            self.shift.on_press(ev.code);
            PressEvent::Press
        } else if crate::input::is_key_release(ev.value) {
            self.shift.on_release(ev.code);
            PressEvent::Release
        } else {
            return None;
        };
        let label = crate::input::get_key_text(ev.code, self.shift.pressed_count());
        Some((kind, label))
    }

    /// Handles the outcome of one blocking read: checks the byte
    /// count, decodes the record, updates the shift state, and builds
    /// the normalized event. Returns `Ok(None)` for records that are
    /// not key presses or releases, among them autorepeat records.
    pub fn handle_record(&mut self, num_bytes: usize, buf: &[u8]) -> (r: Result<
        Option<KeyEvent>,
        StreamError,
    >)
        requires
            buf@.len() == RECORD_SIZE,
        ensures
            num_bytes != RECORD_SIZE ==> r == Err::<Option<KeyEvent>, StreamError>(
                StreamError::BadRecordSize,
            ) && final(self).shift_count() == old(self).shift_count(),
            num_bytes == RECORD_SIZE ==> ({
                let ev = spec_decode(buf@);
                &&& final(self).shift_count() == spec_shift_count_after(
                    old(self).shift_count(),
                    ev,
                )
                &&& !spec_is_key_transition(ev) ==> (r matches Ok(o) && o is None)
                &&& spec_is_key_transition(ev) ==> match r {
                    Ok(Some(e)) => e.kind == spec_transition_kind(ev) && e.label@ == spec_key_text(
                        ev.code,
                        spec_shift_count_after(old(self).shift_count(), ev) != 0,
                    ) && e.time.wf(),
                    Ok(None) => false,
                    Err(err) => err == StreamError::TimeOutOfRange,
                }
                &&& spec_is_key_transition(ev) && !(0 <= ev.tv_usec < 1_000_000) ==> r
                    == Err::<Option<KeyEvent>, StreamError>(StreamError::TimeOutOfRange)
                &&& spec_is_key_transition(ev) && 0 <= ev.tv_sec <= 253_402_300_799 && 0
                    <= ev.tv_usec < 1_000_000 ==> r is Ok
            }),
    {
        if num_bytes != RECORD_SIZE {
            return Err(StreamError::BadRecordSize);
        }
        let ev = decode_record(buf);
        match self.process_event(&ev) {
            None => Ok(None),
            Some((kind, label)) => {
                if ev.tv_usec < 0 || ev.tv_usec >= 1_000_000 {
                    return Err(StreamError::TimeOutOfRange);
                }
                let nanos = (ev.tv_usec * 1000) as u32;
                match local_from_epoch(ev.tv_sec, nanos) {
                    None => Err(StreamError::TimeOutOfRange),
                    Some(time) => Ok(Some(KeyEvent { kind, label, time })),
                }
            },
        }
    }
}

} // verus!

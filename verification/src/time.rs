//! Trusted bridge to the system clock and the local time zone.
//!
//! Only the two functions here touch the outside time library; both
//! hand back plain [`LocalInstant`] values and promise no more than
//! that library documents. Everything downstream of them is verified
//! for every value they could return.
use vstd::prelude::*;

use chrono::Datelike;
use chrono::Timelike;

use crate::event::LocalInstant;

verus! {

/// Relies on `chrono::DateTime::from_timestamp`, `with_timezone`
/// toward `chrono::Local`, and the `Datelike` / `Timelike` getters:
/// the conversion returns `None` only for an out-of-range number of
/// seconds or an invalid nanosecond, and every getter stays in its
/// documented range. The local-time result depends on the machine's
/// time zone, so nothing more is claimed of the field values.
#[verifier::external_body]
pub(crate) fn local_from_epoch(secs: i64, nanos: u32) -> (r: Option<LocalInstant>)
    requires
        nanos < 1_000_000_000,
    ensures
        r matches Some(t) ==> t.wf(),
        0 <= secs <= 253_402_300_799 ==> r is Some,
{
    match chrono::DateTime::from_timestamp(secs, nanos) {
        None => None,
        Some(utc) => {
            let t = utc.with_timezone(&chrono::Local);
            Some(
                LocalInstant {
                    year: t.year(), month: t.month(), day: t.day(),
                    hour: t.hour(), minute: t.minute(), second: t.second(),
                    nanosecond: t.nanosecond(),
                },
            )
        },
    }
}

/// Relies on `chrono::Local::now` and the `Datelike` / `Timelike`
/// getters: the current instant is arbitrary, but every getter stays
/// in its documented range.
#[verifier::external_body]
pub(crate) fn now_local() -> (r: LocalInstant)
    ensures
        r.wf(),
{
    let t = chrono::Local::now();
    LocalInstant {
        year: t.year(),
        month: t.month(),
        day: t.day(),
        hour: t.hour(),
        minute: t.minute(),
        second: t.second(),
        nanosecond: t.nanosecond(),
    }
}

} // verus!

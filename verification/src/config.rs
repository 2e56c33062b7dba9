//! Session configuration: the four numeric settings and the optional
//! custom alert sound path, immutable for the life of a session.

use vstd::prelude::*;

verus! {

/// Default work phase length, in minutes.
pub const DEFAULT_WORK_MINUTES: u64 = 25;

/// Default short break length, in minutes.
pub const DEFAULT_BREAK_MINUTES: u64 = 5;

/// Default long break length, in minutes.
pub const DEFAULT_LONG_BREAK_MINUTES: u64 = 15;

/// Default number of work/break cycles before a long break.
pub const DEFAULT_CYCLES: u32 = 4;

/// Immutable session configuration: phase lengths in minutes, the number
/// of work/break cycles before a long break, and an optional path to a
/// custom alert sound.
pub struct SessionConfig {
    pub work_minutes: u64,
    pub break_minutes: u64,
    pub long_break_minutes: u64,
    pub cycles: u32,
    pub sound_file: Option<String>,
}

impl SessionConfig {
    /// Well-formedness: the cycle count is at least one, and each phase
    /// length converts to seconds without exceeding the machine word.
    pub open spec fn wf(&self) -> bool {
        &&& self.cycles >= 1
        &&& self.work_minutes * 60 <= u64::MAX
        &&& self.break_minutes * 60 <= u64::MAX
        &&& self.long_break_minutes * 60 <= u64::MAX
    }
}

impl Default for SessionConfig {
    /// The stock configuration: 25 minute work phases, 5 minute breaks,
    /// 15 minute long breaks, a long break every 4 cycles, and the
    /// built-in alert sound.
    fn default() -> (c: SessionConfig)
        ensures
            c.work_minutes == DEFAULT_WORK_MINUTES,
            c.break_minutes == DEFAULT_BREAK_MINUTES,
            c.long_break_minutes == DEFAULT_LONG_BREAK_MINUTES,
            c.cycles == DEFAULT_CYCLES,
            c.sound_file is None,
            c.wf(),
    {
        SessionConfig {
            work_minutes: DEFAULT_WORK_MINUTES,
            break_minutes: DEFAULT_BREAK_MINUTES,
            long_break_minutes: DEFAULT_LONG_BREAK_MINUTES,
            cycles: DEFAULT_CYCLES,
            sound_file: None,
        }
    }
}

} // verus!

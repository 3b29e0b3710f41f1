//! User-configurable durations and behaviour flags.
use vstd::prelude::*;

verus! {

/// The largest duration, in minutes, whose length in seconds fits in a `u32`.
pub const MAX_DURATION_MINUTES: u32 = 71582788;

/// Durations (in minutes) and behaviour flags of the timer.
#[derive(Clone, Copy, Debug, PartialEq, Eq, Structural)]
pub struct PomodoroSettings {
    pub work_duration: u32,
    pub short_break_duration: u32,
    pub long_break_duration: u32,
    /// Number of work sessions between two long breaks.
    pub long_break_interval: u32,
    pub auto_start_breaks: bool,
    pub auto_start_pomodoros: bool,
    /// Informational cap shown to the user; the timer does not enforce it.
    pub max_sessions: u32,
    /// Pause after this many sessions of the day; 0 means no limit.
    pub stop_after_sessions: u32,
    pub stop_after_long_break: bool,
}

/// Why a settings record was refused.
#[derive(Clone, Copy, Debug, PartialEq, Eq, Structural)]
pub enum SettingsError {
    /// `long_break_interval` is 0, which leaves no rule for choosing a long break.
    ZeroLongBreakInterval,
    /// A duration is longer than `MAX_DURATION_MINUTES`.
    DurationTooLong,
}

/// Length in seconds of a phase configured as `minutes` long: at least one minute.
pub open spec fn minutes_to_secs(minutes: u32) -> int {
    if minutes == 0 {
        60
    } else {
        minutes * 60
    }
}

impl PomodoroSettings {
    /// The settings that the timer can run with: a positive long-break interval
    /// and durations whose length in seconds fits in a `u32`.
    pub open spec fn valid(&self) -> bool {
        &&& self.long_break_interval > 0
        &&& self.work_duration <= MAX_DURATION_MINUTES
        &&& self.short_break_duration <= MAX_DURATION_MINUTES
        &&& self.long_break_duration <= MAX_DURATION_MINUTES
    }

    /// The error that `check` reports for these settings, if any.
    pub open spec fn error_of(&self) -> Option<SettingsError> {
        if self.long_break_interval == 0 {
            Some(SettingsError::ZeroLongBreakInterval)
        } else if !self.valid() {
            Some(SettingsError::DurationTooLong)
        } else {
            None
        }
    }

    /// The factory settings.
    pub open spec fn default_spec() -> PomodoroSettings {
        PomodoroSettings {
            work_duration: 25,
            short_break_duration: 5,
            long_break_duration: 15,
            long_break_interval: 4,
            auto_start_breaks: true,
            auto_start_pomodoros: false,
            max_sessions: 8,
            stop_after_sessions: 0,
            stop_after_long_break: false,
        }
    }

    /// Checks that the timer can run with these settings.
    pub fn check(&self) -> (r: Result<(), SettingsError>)
        ensures
            r.is_ok() <==> self.valid(),
            r.is_err() ==> r == Err::<(), SettingsError>(self.error_of().unwrap()),
    {
        if self.long_break_interval == 0 {
            Err(SettingsError::ZeroLongBreakInterval)
        } else if self.work_duration > MAX_DURATION_MINUTES || self.short_break_duration
            > MAX_DURATION_MINUTES || self.long_break_duration > MAX_DURATION_MINUTES {
            Err(SettingsError::DurationTooLong)
        } else {
            Ok(())
        }
    }

    /// The settings to start with, given what was read from storage: the stored
    /// record when there is one the timer can run with, else the defaults.
    pub fn load_or_default(stored: Option<PomodoroSettings>) -> (r: PomodoroSettings)
        ensures
            r.valid(),
            r == (match stored {
                Some(s) if s.valid() => s,
                _ => PomodoroSettings::default_spec(),
            }),
    {
        match stored {
            Some(s) => {
                if s.check().is_ok() {
                    s
                } else {
                    PomodoroSettings::default()
                }
            },
            None => PomodoroSettings::default(),
        }
    }
}

/// Converts a duration in minutes to seconds, counting 0 as one minute.
pub fn duration_secs(minutes: u32) -> (r: u32)
    requires
        minutes <= MAX_DURATION_MINUTES,
    ensures
        r == minutes_to_secs(minutes),
{
    if minutes == 0 {
        60
    } else {
        minutes * 60
    }
}

impl Default for PomodoroSettings {
    fn default() -> (r: PomodoroSettings)
        ensures
            r == PomodoroSettings::default_spec(),
    {
        PomodoroSettings {
            work_duration: 25,
            short_break_duration: 5,
            long_break_duration: 15,
            long_break_interval: 4,
            auto_start_breaks: true,
            auto_start_pomodoros: false,
            max_sessions: 8,
            stop_after_sessions: 0,
            stop_after_long_break: false,
        }
    }
}

} // verus!

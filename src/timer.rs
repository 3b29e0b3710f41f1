//! The timer state machine: phases, countdown, session counting and the
//! commands that act on it.
use vstd::prelude::*;

use crate::daily::{local_today, PomodoroPersistentState};
use crate::settings::{duration_secs, minutes_to_secs, PomodoroSettings, SettingsError};

verus! {

/// The phase the timer is in.
#[derive(Clone, Copy, Debug, PartialEq, Eq, Structural)]
pub enum Mode {
    Work,
    ShortBreak,
    LongBreak,
}

impl Mode {
    /// The name of the phase as observers see it.
    pub fn as_str(&self) -> (r: &'static str)
        ensures
            *self == Mode::Work ==> r@ == "work"@,
            *self == Mode::ShortBreak ==> r@ == "shortBreak"@,
            *self == Mode::LongBreak ==> r@ == "longBreak"@,
    {
        match self {
            Mode::Work => "work",
            Mode::ShortBreak => "shortBreak",
            Mode::LongBreak => "longBreak",
        }
    }
}

/// A message for the user at a phase boundary.
#[derive(Clone, Copy, Debug, PartialEq, Eq, Structural)]
pub enum Notice {
    /// The user started or resumed a work phase.
    FocusStarted,
    /// A work phase ran out.
    WorkFinished,
    /// A break ran out and the next work phase started by itself.
    BreakFinishedFocusStarted,
    /// A break ran out and the timer waits for the user.
    BreakFinished,
}

impl Notice {
    /// The heading of the message.
    pub fn title(&self) -> (r: &'static str)
        ensures
            *self == Notice::FocusStarted ==> r@ == "专注开始"@,
            *self == Notice::WorkFinished ==> r@ == "专注结束"@,
            *self == Notice::BreakFinishedFocusStarted ==> r@ == "专注开始"@,
            *self == Notice::BreakFinished ==> r@ == "休息结束"@,
    {
        match self {
            Notice::FocusStarted => "专注开始",
            Notice::WorkFinished => "专注结束",
            Notice::BreakFinishedFocusStarted => "专注开始",
            Notice::BreakFinished => "休息结束",
        }
    }

    /// The text of the message.
    pub fn body(&self) -> (r: &'static str)
        ensures
            *self == Notice::FocusStarted ==> r@ == "开始专注，保持节奏！"@,
            *self == Notice::WorkFinished ==> r@ == "一轮专注完成，起身放松一下吧。"@,
            *self == Notice::BreakFinishedFocusStarted ==> r@ == "休息完成，开始下一轮专注吧！"@,
            *self == Notice::BreakFinished ==> r@ == "休息完成，可以开始下一轮专注了。"@,
    {
        match self {
            Notice::FocusStarted => "开始专注，保持节奏！",
            Notice::WorkFinished => "一轮专注完成，起身放松一下吧。",
            Notice::BreakFinishedFocusStarted => "休息完成，开始下一轮专注吧！",
            Notice::BreakFinished => "休息完成，可以开始下一轮专注了。",
        }
    }
}

/// The state of the timer.
#[derive(Clone, Debug)]
pub struct PomodoroState {
    /// Seconds left in the current phase.
    pub time_left: u32,
    /// Whether the countdown runs.
    pub is_active: bool,
    pub mode: Mode,
    /// Sessions completed on `last_date`.
    pub sessions_completed: u32,
    /// The local date (`YYYY-MM-DD`) the session count belongs to.
    pub last_date: String,
    pub settings: PomodoroSettings,
}

/// The mathematical value of a `PomodoroState`.
pub struct TimerModel {
    pub time_left: u32,
    pub is_active: bool,
    pub mode: Mode,
    pub sessions_completed: u32,
    pub last_date: Seq<char>,
    pub settings: PomodoroSettings,
}

impl View for PomodoroState {
    type V = TimerModel;

    open spec fn view(&self) -> TimerModel {
        TimerModel {
            time_left: self.time_left,
            is_active: self.is_active,
            mode: self.mode,
            sessions_completed: self.sessions_completed,
            last_date: self.last_date@,
            settings: self.settings,
        }
    }
}

/// What a tick asks the world around the timer to do.
#[derive(Clone, Debug)]
pub struct TickOutcome {
    /// The daily record to write to storage, if it changed.
    pub persist: Option<PomodoroPersistentState>,
    /// The configured work duration (minutes), when a work phase completed.
    pub work_completed: Option<u32>,
    /// Whether a break completed.
    pub break_completed: bool,
    /// The message to show the user, if any.
    pub notice: Option<Notice>,
}

/// Length in seconds of phase `mode` under `settings`.
pub open spec fn phase_secs(settings: PomodoroSettings, mode: Mode) -> u32 {
    (match mode {
        Mode::Work => minutes_to_secs(settings.work_duration),
        Mode::ShortBreak => minutes_to_secs(settings.short_break_duration),
        Mode::LongBreak => minutes_to_secs(settings.long_break_duration),
    }) as u32
}

/// The break that follows the work session numbered `count` of the day.
pub open spec fn break_after(count: int, interval: u32) -> Mode {
    if count % (interval as int) == 0 {
        Mode::LongBreak
    } else {
        Mode::ShortBreak
    }
}

/// One more session, saturating at the largest count.
pub open spec fn bumped(n: u32) -> u32 {
    if n < u32::MAX {
        (n + 1) as u32
    } else {
        n
    }
}

/// Whether the daily session limit stops the timer at `count` sessions.
pub open spec fn limit_reached(settings: PomodoroSettings, count: u32) -> bool {
    settings.stop_after_sessions > 0 && count >= settings.stop_after_sessions
}

impl TimerModel {
    /// The timer runs with settings it can use.
    pub open spec fn wf(self) -> bool {
        self.settings.valid()
    }

    /// The counter after looking at the date `today`.
    pub open spec fn rolled_over(self, today: Seq<char>) -> TimerModel {
        if self.last_date == today {
            self
        } else {
            TimerModel { sessions_completed: 0, last_date: today, ..self }
        }
    }

    /// The state after a work phase ran out.
    pub open spec fn work_completed(self) -> TimerModel {
        let count = bumped(self.sessions_completed);
        if limit_reached(self.settings, count) {
            TimerModel { sessions_completed: count, is_active: false, ..self }
        } else {
            let next = break_after(count as int, self.settings.long_break_interval);
            TimerModel {
                sessions_completed: count,
                mode: next,
                time_left: phase_secs(self.settings, next),
                is_active: self.settings.auto_start_breaks,
                ..self
            }
        }
    }

    /// The state after a break ran out.
    pub open spec fn break_completed(self) -> TimerModel {
        if self.mode == Mode::LongBreak && self.settings.stop_after_long_break {
            TimerModel { is_active: false, ..self }
        } else {
            TimerModel {
                mode: Mode::Work,
                time_left: phase_secs(self.settings, Mode::Work),
                is_active: self.settings.auto_start_pomodoros,
                ..self
            }
        }
    }

    /// The state after the current phase ran out.
    pub open spec fn phase_completed(self) -> TimerModel {
        if self.mode == Mode::Work {
            self.work_completed()
        } else {
            self.break_completed()
        }
    }

    /// Whether one more tick ends the current phase.
    pub open spec fn completes_on_tick(self) -> bool {
        self.is_active && self.time_left <= 1
    }

    /// One second of a running timer: count down, and end the phase at 0.
    pub open spec fn counted_down(self) -> TimerModel {
        if self.completes_on_tick() {
            TimerModel { time_left: 0, ..self }.phase_completed()
        } else if self.is_active {
            TimerModel { time_left: (self.time_left - 1) as u32, ..self }
        } else {
            self
        }
    }

    /// The state after one tick at date `today`.
    pub open spec fn ticked(self, today: Seq<char>) -> TimerModel {
        self.rolled_over(today).counted_down()
    }

    /// The state after the user starts or pauses the countdown.
    pub open spec fn toggled(self) -> TimerModel {
        TimerModel { is_active: !self.is_active, ..self }
    }

    /// The state after a reset: paused, with the full length of the current phase.
    pub open spec fn reset(self) -> TimerModel {
        TimerModel { is_active: false, time_left: phase_secs(self.settings, self.mode), ..self }
    }

    /// The phase that a skip moves to.
    pub open spec fn skip_target(self) -> Mode {
        if self.mode == Mode::Work {
            break_after(self.sessions_completed + 1, self.settings.long_break_interval)
        } else {
            Mode::Work
        }
    }

    /// The state after a skip: paused at the start of the next phase.
    pub open spec fn skipped(self) -> TimerModel {
        let next = self.skip_target();
        TimerModel { mode: next, time_left: phase_secs(self.settings, next), is_active: false, ..self }
    }

    /// The state after new settings were accepted.
    pub open spec fn with_settings(self, settings: PomodoroSettings) -> TimerModel {
        if self.is_active {
            TimerModel { settings, ..self }
        } else {
            TimerModel { settings, time_left: phase_secs(settings, self.mode), ..self }
        }
    }
}

/// The notice a tick at date `today` gives, from state `m`.
pub open spec fn tick_notice(m: TimerModel, today: Seq<char>) -> Option<Notice> {
    let rolled = m.rolled_over(today);
    let after = m.ticked(today);
    if !rolled.completes_on_tick() {
        None
    } else if rolled.mode == Mode::Work {
        Some(Notice::WorkFinished)
    } else if after.mode == Mode::Work && after.is_active {
        Some(Notice::BreakFinishedFocusStarted)
    } else {
        Some(Notice::BreakFinished)
    }
}

/// What a tick at date `today` from state `m` asks of the world: the events of
/// a completed phase, the notice, and the daily record to write whenever the
/// date changed or a work session was counted.
pub open spec fn tick_outcome_matches(m: TimerModel, today: Seq<char>, r: TickOutcome) -> bool {
    let rolled = m.rolled_over(today);
    let after = m.ticked(today);
    let work_done = rolled.completes_on_tick() && rolled.mode == Mode::Work;
    &&& r.work_completed == (if work_done {
        Some(m.settings.work_duration)
    } else {
        None::<u32>
    })
    &&& r.break_completed == (rolled.completes_on_tick() && rolled.mode != Mode::Work)
    &&& r.notice == tick_notice(m, today)
    &&& r.persist.is_some() == (m.last_date != today || work_done)
    &&& (r.persist matches Some(p) ==> p.sessions_completed == after.sessions_completed
        && p.last_date@ == after.last_date)
}

/// Seconds in phase `mode` under `settings`.
pub fn phase_seconds(settings: &PomodoroSettings, mode: Mode) -> (r: u32)
    requires
        settings.valid(),
    ensures
        r == phase_secs(*settings, mode),
{
    match mode {
        Mode::Work => duration_secs(settings.work_duration),
        Mode::ShortBreak => duration_secs(settings.short_break_duration),
        Mode::LongBreak => duration_secs(settings.long_break_duration),
    }
}

impl PomodoroState {
    /// The timer runs with settings it can use.
    pub open spec fn wf(&self) -> bool {
        self@.wf()
    }

    /// A paused timer at the start of a work phase, with the day's counter `daily`.
    pub fn new(settings: PomodoroSettings, daily: PomodoroPersistentState) -> (r: PomodoroState)
        requires
            settings.valid(),
        ensures
            r.wf(),
            r@ == (TimerModel {
                time_left: phase_secs(settings, Mode::Work),
                is_active: false,
                mode: Mode::Work,
                sessions_completed: daily.sessions_completed,
                last_date: daily.last_date@,
                settings,
            }),
    {
        PomodoroState {
            time_left: phase_seconds(&settings, Mode::Work),
            is_active: false,
            mode: Mode::Work,
            sessions_completed: daily.sessions_completed,
            last_date: daily.last_date,
            settings,
        }
    }

    /// A snapshot of the state.
    pub fn get_pomodoro_state(&self) -> (r: PomodoroState)
        ensures
            r@ == self@,
    {
        PomodoroState {
            time_left: self.time_left,
            is_active: self.is_active,
            mode: self.mode,
            sessions_completed: self.sessions_completed,
            last_date: self.last_date.clone(),
            settings: self.settings,
        }
    }

    /// The daily record that matches the state.
    pub fn daily_record(&self) -> (r: PomodoroPersistentState)
        ensures
            r.sessions_completed == self.sessions_completed,
            r.last_date@ == self.last_date@,
    {
        PomodoroPersistentState {
            sessions_completed: self.sessions_completed,
            last_date: self.last_date.clone(),
        }
    }

    /// Starts or pauses the countdown. Starting a work phase yields the
    /// focus-started notice.
    pub fn toggle_timer(&mut self) -> (r: Option<Notice>)
        ensures
            final(self)@ == old(self)@.toggled(),
            r == (if !old(self).is_active && old(self).mode == Mode::Work {
                Some(Notice::FocusStarted)
            } else {
                None
            }),
    {
        let was_active = self.is_active;
        self.is_active = !was_active;
        if !was_active && self.mode == Mode::Work {
            Some(Notice::FocusStarted)
        } else {
            None
        }
    }

    /// Pauses and restores the full length of the current phase.
    pub fn reset_timer(&mut self)
        requires
            old(self).wf(),
        ensures
            final(self)@ == old(self)@.reset(),
    {
        self.is_active = false;
        self.time_left = phase_seconds(&self.settings, self.mode);
    }

    /// Moves to the next phase at once, paused. A skipped work phase does not
    /// count as a session.
    pub fn skip_mode(&mut self)
        requires
            old(self).wf(),
        ensures
            final(self)@ == old(self)@.skipped(),
    {
        let next = if self.mode == Mode::Work {
            let count: u64 = self.sessions_completed as u64 + 1;
            if count % (self.settings.long_break_interval as u64) == 0 {
                Mode::LongBreak
            } else {
                Mode::ShortBreak
            }
        } else {
            Mode::Work
        };
        self.mode = next;
        self.time_left = phase_seconds(&self.settings, next);
        self.is_active = false;
    }

    /// Replaces the settings when the timer can run with them; a paused timer
    /// then shows the new length of its phase. Refused settings change nothing.
    pub fn update_settings(&mut self, settings: PomodoroSettings) -> (r: Result<(), SettingsError>)
        requires
            old(self).wf(),
        ensures
            final(self).wf(),
            r.is_ok() <==> settings.valid(),
            r.is_ok() ==> final(self)@ == old(self)@.with_settings(settings),
            r.is_err() ==> r == Err::<(), SettingsError>(settings.error_of().unwrap())
                && final(self)@ == old(self)@,
    {
        match settings.check() {
            Ok(()) => {
                self.settings = settings;
                if !self.is_active {
                    self.time_left = phase_seconds(&self.settings, self.mode);
                }
                Ok(())
            },
            Err(e) => Err(e),
        }
    }
    /// One second of wall-clock time at local date `today`: a new date resets
    /// the day's count; a running timer counts down and, reaching 0, ends its
    /// phase.
    pub fn tick(&mut self, today: String) -> (r: TickOutcome)
        requires
            old(self).wf(),
        ensures
            final(self).wf(),
            final(self)@ == old(self)@.ticked(today@),
            tick_outcome_matches(old(self)@, today@, r),
    {
        let mut persist = false;
        if self.last_date != today {
            self.last_date = today;
            self.sessions_completed = 0;
            persist = true;
        }
        let mut work_completed: Option<u32> = None;
        let mut break_completed = false;
        let mut notice: Option<Notice> = None;
        if self.is_active {
            if self.time_left <= 1 {
                self.time_left = 0;
                if self.mode == Mode::Work {
                    work_completed = Some(self.settings.work_duration);
                    if self.sessions_completed < u32::MAX {
                        self.sessions_completed = self.sessions_completed + 1;
                    }
                    persist = true;
                    if self.settings.stop_after_sessions > 0 && self.sessions_completed
                        >= self.settings.stop_after_sessions {
                        self.is_active = false;
                    } else {
                        let next = if self.sessions_completed % self.settings.long_break_interval
                            == 0 {
                            Mode::LongBreak
                        } else {
                            Mode::ShortBreak
                        };
                        self.mode = next;
                        self.time_left = phase_seconds(&self.settings, next);
                        self.is_active = self.settings.auto_start_breaks;
                    }
                    notice = Some(Notice::WorkFinished);
                } else {
                    break_completed = true;
                    if self.mode == Mode::LongBreak && self.settings.stop_after_long_break {
                        self.is_active = false;
                    } else {
                        self.mode = Mode::Work;
                        self.time_left = phase_seconds(&self.settings, Mode::Work);
                        self.is_active = self.settings.auto_start_pomodoros;
                    }
                    notice = if self.mode == Mode::Work && self.is_active {
                        Some(Notice::BreakFinishedFocusStarted)
                    } else {
                        Some(Notice::BreakFinished)
                    };
                }
            } else {
                self.time_left = self.time_left - 1;
            }
        }
        let persist = if persist {
            Some(self.daily_record())
        } else {
            None
        };
        TickOutcome { persist, work_completed, break_completed, notice }
    }

    /// One tick at the current local date.
    pub fn tick_now(&mut self) -> (r: TickOutcome)
        requires
            old(self).wf(),
        ensures
            final(self).wf(),
            final(self)@ == old(self)@.ticked(final(self).last_date@),
            tick_outcome_matches(old(self)@, final(self).last_date@, r),
    {
        let today = local_today();
        self.tick(today)
    }

    /// The label of the phase for the status line: focus or rest.
    pub fn status_label(&self) -> (r: &'static str)
        ensures
            self.mode == Mode::Work ==> r@ == "专注"@,
            self.mode != Mode::Work ==> r@ == "休息"@,
    {
        if self.mode == Mode::Work {
            "专注"
        } else {
            "休息"
        }
    }

    /// Minutes and seconds left, for the status line.
    pub fn clock(&self) -> (r: (u32, u32))
        ensures
            r.0 == self.time_left / 60,
            r.1 == self.time_left % 60,
            r.0 * 60 + r.1 == self.time_left,
    {
        (self.time_left / 60, self.time_left % 60)
    }
}

} // verus!

//! Properties of the timer that relate its operations.
use vstd::prelude::*;

use crate::timer::{Mode, TimerModel};

verus! {

/// With every duration at least one minute, a reset leaves the timer paused
/// with exactly the configured length of its current phase, in seconds.
pub proof fn lemma_reset_restores_phase(m: TimerModel)
    requires
        m.wf(),
        m.settings.work_duration >= 1,
        m.settings.short_break_duration >= 1,
        m.settings.long_break_duration >= 1,
    ensures
        !m.reset().is_active,
        m.reset().mode == m.mode,
        m.reset().time_left == (match m.mode {
            Mode::Work => m.settings.work_duration,
            Mode::ShortBreak => m.settings.short_break_duration,
            Mode::LongBreak => m.settings.long_break_duration,
        }) * 60,
{
}

/// A running timer with more than one second left loses exactly one second on
/// a tick and stays in its phase.
pub proof fn lemma_tick_counts_down(m: TimerModel, today: Seq<char>)
    requires
        m.is_active,
        m.time_left > 1,
    ensures
        m.ticked(today).time_left == m.time_left - 1,
        m.ticked(today).mode == m.mode,
        m.ticked(today).is_active,
{
}

/// When a work phase runs out on the day its count belongs to, and the daily
/// limit does not stop the timer, the count grows by exactly one and the timer
/// moves to a long break if the new count is a multiple of the long-break
/// interval, else to a short break.
pub proof fn lemma_work_completion_counts(m: TimerModel, today: Seq<char>)
    requires
        m.wf(),
        m.mode == Mode::Work,
        m.completes_on_tick(),
        m.last_date == today,
        m.sessions_completed < u32::MAX,
        !(m.settings.stop_after_sessions > 0 && m.sessions_completed + 1
            >= m.settings.stop_after_sessions),
    ensures
        m.ticked(today).sessions_completed == m.sessions_completed + 1,
        m.ticked(today).mode == (if (m.sessions_completed + 1) % (
        m.settings.long_break_interval as int) == 0 {
            Mode::LongBreak
        } else {
            Mode::ShortBreak
        }),
{
}

} // verus!

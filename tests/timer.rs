use pomodoro_timer::{
    Mode, Notice, PomodoroPersistentState, PomodoroSettings, PomodoroState, SettingsError,
};

fn settings(work: u32, short: u32, long: u32, interval: u32) -> PomodoroSettings {
    PomodoroSettings {
        work_duration: work,
        short_break_duration: short,
        long_break_duration: long,
        long_break_interval: interval,
        auto_start_breaks: true,
        auto_start_pomodoros: false,
        max_sessions: 8,
        stop_after_sessions: 0,
        stop_after_long_break: false,
    }
}

fn day(count: u32, date: &str) -> PomodoroPersistentState {
    PomodoroPersistentState { sessions_completed: count, last_date: date.to_string() }
}

const TODAY: &str = "2024-03-10";

fn tick_n(s: &mut PomodoroState, n: u32) {
    for _ in 0..n {
        s.tick(TODAY.to_string());
    }
}

#[test]
fn defaults_are_factory_values() {
    let d = PomodoroSettings::default();
    assert_eq!(d, settings(25, 5, 15, 4));
    assert_eq!(d.check(), Ok(()));
}

#[test]
fn load_or_default_keeps_valid_and_replaces_invalid() {
    let s = settings(50, 10, 20, 3);
    assert_eq!(PomodoroSettings::load_or_default(Some(s)), s);
    assert_eq!(PomodoroSettings::load_or_default(None), PomodoroSettings::default());
    assert_eq!(
        PomodoroSettings::load_or_default(Some(settings(50, 10, 20, 0))),
        PomodoroSettings::default()
    );
}

#[test]
fn check_reports_each_error() {
    assert_eq!(settings(25, 5, 15, 0).check(), Err(SettingsError::ZeroLongBreakInterval));
    assert_eq!(settings(71582789, 5, 15, 4).check(), Err(SettingsError::DurationTooLong));
    assert_eq!(settings(71582788, 71582788, 71582788, 4).check(), Ok(()));
}

#[test]
fn new_state_is_paused_work() {
    let s = PomodoroState::new(settings(25, 5, 15, 4), day(2, TODAY));
    assert_eq!(s.time_left, 1500);
    assert!(!s.is_active);
    assert_eq!(s.mode, Mode::Work);
    assert_eq!(s.sessions_completed, 2);
    assert_eq!(s.last_date, TODAY);
}

#[test]
fn zero_duration_counts_as_one_minute() {
    let s = PomodoroState::new(settings(0, 0, 0, 4), day(0, TODAY));
    assert_eq!(s.time_left, 60);
}

#[test]
fn reset_restores_current_phase() {
    let mut s = PomodoroState::new(settings(25, 5, 15, 4), day(0, TODAY));
    s.mode = Mode::ShortBreak;
    s.time_left = 17;
    s.is_active = true;
    s.reset_timer();
    assert_eq!(s.time_left, 300);
    assert!(!s.is_active);
    assert_eq!(s.mode, Mode::ShortBreak);
    s.mode = Mode::LongBreak;
    s.reset_timer();
    assert_eq!(s.time_left, 900);
}

#[test]
fn tick_counts_down_one_second() {
    let mut s = PomodoroState::new(settings(25, 5, 15, 4), day(0, TODAY));
    s.is_active = true;
    let o = s.tick(TODAY.to_string());
    assert_eq!(s.time_left, 1499);
    assert_eq!(s.mode, Mode::Work);
    assert!(s.is_active);
    assert!(o.persist.is_none());
    assert!(o.notice.is_none());
    assert!(o.work_completed.is_none());
    assert!(!o.break_completed);
}

#[test]
fn paused_tick_keeps_time() {
    let mut s = PomodoroState::new(settings(25, 5, 15, 4), day(0, TODAY));
    s.tick(TODAY.to_string());
    assert_eq!(s.time_left, 1500);
}

#[test]
fn work_completion_moves_to_long_break_on_multiple() {
    let mut s = PomodoroState::new(settings(25, 5, 15, 4), day(3, TODAY));
    s.is_active = true;
    s.time_left = 1;
    let o = s.tick(TODAY.to_string());
    assert_eq!(s.sessions_completed, 4);
    assert_eq!(s.mode, Mode::LongBreak);
    assert_eq!(s.time_left, 900);
    assert!(s.is_active);
    assert_eq!(o.work_completed, Some(25));
    assert_eq!(o.notice, Some(Notice::WorkFinished));
    let p = o.persist.unwrap();
    assert_eq!(p.sessions_completed, 4);
    assert_eq!(p.last_date, TODAY);
}

#[test]
fn work_completion_moves_to_short_break_otherwise() {
    let mut s = PomodoroState::new(settings(25, 5, 15, 4), day(1, TODAY));
    s.is_active = true;
    s.time_left = 1;
    s.tick(TODAY.to_string());
    assert_eq!(s.sessions_completed, 2);
    assert_eq!(s.mode, Mode::ShortBreak);
    assert_eq!(s.time_left, 300);
}

#[test]
fn snapshots_without_change_are_identical() {
    let mut s = PomodoroState::new(settings(25, 5, 15, 4), day(3, TODAY));
    s.toggle_timer();
    tick_n(&mut s, 7);
    let a = s.get_pomodoro_state();
    let b = s.get_pomodoro_state();
    assert_eq!(a.time_left, b.time_left);
    assert_eq!(a.is_active, b.is_active);
    assert_eq!(a.mode, b.mode);
    assert_eq!(a.sessions_completed, b.sessions_completed);
    assert_eq!(a.last_date, b.last_date);
    assert_eq!(a.settings, b.settings);
    assert_eq!(a.time_left, 1493);
}

#[test]
fn stale_daily_record_resets_to_today() {
    let r = PomodoroPersistentState::resolve(Some(day(5, "2024-01-01")), "2024-01-02".to_string());
    assert_eq!(r.sessions_completed, 0);
    assert_eq!(r.last_date, "2024-01-02");
}

#[test]
fn same_day_record_is_kept() {
    let r = PomodoroPersistentState::resolve(Some(day(5, "2024-01-02")), "2024-01-02".to_string());
    assert_eq!(r.sessions_completed, 5);
    assert_eq!(r.last_date, "2024-01-02");
    let n = PomodoroPersistentState::resolve(None, "2024-01-02".to_string());
    assert_eq!(n.sessions_completed, 0);
    assert_eq!(n.last_date, "2024-01-02");
}

#[test]
fn load_today_uses_the_local_date() {
    let r = PomodoroPersistentState::load_today(Some(day(5, "1999-12-31")));
    assert_eq!(r.sessions_completed, 0);
    assert_eq!(r.last_date.len(), 10);
    assert_ne!(r.last_date, "1999-12-31");
    let b = r.last_date.as_bytes();
    assert_eq!(b[4], b'-');
    assert_eq!(b[7], b'-');
}

#[test]
fn tick_rolls_over_the_day() {
    let mut s = PomodoroState::new(settings(25, 5, 15, 4), day(6, "2024-01-01"));
    let o = s.tick("2024-01-02".to_string());
    assert_eq!(s.sessions_completed, 0);
    assert_eq!(s.last_date, "2024-01-02");
    let p = o.persist.unwrap();
    assert_eq!(p.sessions_completed, 0);
    assert_eq!(p.last_date, "2024-01-02");
    assert_eq!(s.time_left, 1500);
}

#[test]
fn tick_now_stamps_the_local_date() {
    let mut s = PomodoroState::new(settings(25, 5, 15, 4), day(6, "1999-12-31"));
    let o = s.tick_now();
    assert_eq!(s.sessions_completed, 0);
    assert_ne!(s.last_date, "1999-12-31");
    assert!(o.persist.is_some());
}

#[test]
fn one_minute_work_runs_into_auto_started_break() {
    let mut s = PomodoroState::new(settings(1, 1, 1, 2), day(0, TODAY));
    s.is_active = true;
    assert_eq!(s.time_left, 60);
    tick_n(&mut s, 60);
    assert_eq!(s.sessions_completed, 1);
    assert_eq!(s.mode, Mode::ShortBreak);
    assert_eq!(s.time_left, 60);
    assert!(s.is_active);
}

#[test]
fn session_limit_pauses_in_work() {
    let mut cfg = settings(1, 1, 1, 4);
    cfg.stop_after_sessions = 1;
    let mut s = PomodoroState::new(cfg, day(0, TODAY));
    s.is_active = true;
    tick_n(&mut s, 60);
    assert_eq!(s.sessions_completed, 1);
    assert!(!s.is_active);
    assert_eq!(s.mode, Mode::Work);
}

#[test]
fn skip_from_work_picks_long_break_on_multiple() {
    let mut cfg = settings(25, 5, 15, 4);
    cfg.auto_start_breaks = true;
    cfg.auto_start_pomodoros = true;
    let mut s = PomodoroState::new(cfg, day(3, TODAY));
    s.is_active = true;
    s.skip_mode();
    assert_eq!(s.mode, Mode::LongBreak);
    assert!(!s.is_active);
    assert_eq!(s.time_left, 900);
    assert_eq!(s.sessions_completed, 3);
}

#[test]
fn skip_from_break_returns_to_work() {
    let mut s = PomodoroState::new(settings(25, 5, 15, 4), day(1, TODAY));
    s.skip_mode();
    assert_eq!(s.mode, Mode::ShortBreak);
    assert_eq!(s.time_left, 300);
    s.skip_mode();
    assert_eq!(s.mode, Mode::Work);
    assert_eq!(s.time_left, 1500);
    assert_eq!(s.sessions_completed, 1);
}

#[test]
fn break_completion_starts_work_when_configured() {
    let mut cfg = settings(25, 5, 15, 4);
    cfg.auto_start_pomodoros = true;
    let mut s = PomodoroState::new(cfg, day(1, TODAY));
    s.mode = Mode::ShortBreak;
    s.time_left = 1;
    s.is_active = true;
    let o = s.tick(TODAY.to_string());
    assert_eq!(s.mode, Mode::Work);
    assert_eq!(s.time_left, 1500);
    assert!(s.is_active);
    assert!(o.break_completed);
    assert_eq!(o.notice, Some(Notice::BreakFinishedFocusStarted));
    assert!(o.persist.is_none());
}

#[test]
fn break_completion_waits_without_auto_start() {
    let mut s = PomodoroState::new(settings(25, 5, 15, 4), day(1, TODAY));
    s.mode = Mode::ShortBreak;
    s.time_left = 1;
    s.is_active = true;
    let o = s.tick(TODAY.to_string());
    assert_eq!(s.mode, Mode::Work);
    assert!(!s.is_active);
    assert_eq!(o.notice, Some(Notice::BreakFinished));
}

#[test]
fn long_break_stop_ends_the_cycle() {
    let mut cfg = settings(25, 5, 15, 4);
    cfg.stop_after_long_break = true;
    cfg.auto_start_pomodoros = true;
    let mut s = PomodoroState::new(cfg, day(4, TODAY));
    s.mode = Mode::LongBreak;
    s.time_left = 1;
    s.is_active = true;
    let o = s.tick(TODAY.to_string());
    assert_eq!(s.mode, Mode::LongBreak);
    assert!(!s.is_active);
    assert_eq!(o.notice, Some(Notice::BreakFinished));
}

#[test]
fn toggle_notifies_only_when_starting_work() {
    let mut s = PomodoroState::new(settings(25, 5, 15, 4), day(0, TODAY));
    assert_eq!(s.toggle_timer(), Some(Notice::FocusStarted));
    assert!(s.is_active);
    assert_eq!(s.toggle_timer(), None);
    assert!(!s.is_active);
    s.mode = Mode::ShortBreak;
    assert_eq!(s.toggle_timer(), None);
    assert!(s.is_active);
}

#[test]
fn update_settings_rescales_only_when_paused() {
    let mut s = PomodoroState::new(settings(25, 5, 15, 4), day(0, TODAY));
    assert_eq!(s.update_settings(settings(30, 5, 15, 4)), Ok(()));
    assert_eq!(s.time_left, 1800);
    s.toggle_timer();
    assert_eq!(s.update_settings(settings(40, 5, 15, 4)), Ok(()));
    assert_eq!(s.time_left, 1800);
    assert_eq!(s.settings.work_duration, 40);
}

#[test]
fn update_settings_refuses_zero_interval() {
    let mut s = PomodoroState::new(settings(25, 5, 15, 4), day(0, TODAY));
    assert_eq!(s.update_settings(settings(30, 5, 15, 0)), Err(SettingsError::ZeroLongBreakInterval));
    assert_eq!(s.settings.long_break_interval, 4);
    assert_eq!(s.time_left, 1500);
    assert_eq!(s.update_settings(settings(30, 5, 80000000, 2)), Err(SettingsError::DurationTooLong));
}

#[test]
fn status_line_parts() {
    let mut s = PomodoroState::new(settings(25, 5, 15, 4), day(0, TODAY));
    s.time_left = 125;
    assert_eq!(s.clock(), (2, 5));
    assert_eq!(s.status_label(), "专注");
    s.mode = Mode::LongBreak;
    assert_eq!(s.status_label(), "休息");
    assert_eq!(Mode::ShortBreak.as_str(), "shortBreak");
    assert_eq!(Mode::Work.as_str(), "work");
    assert_eq!(Notice::WorkFinished.title(), "专注结束");
}

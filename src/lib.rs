//! A Pomodoro timer: the session state machine, its settings and the
//! day-scoped session counter, with their contracts.
pub mod daily;
pub mod laws;
pub mod settings;
pub mod timer;

pub use daily::PomodoroPersistentState;
pub use settings::{PomodoroSettings, SettingsError};
pub use timer::{Mode, Notice, PomodoroState, TickOutcome};

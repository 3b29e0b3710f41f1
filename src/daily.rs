//! The count of sessions completed today, and the date it belongs to.
use vstd::prelude::*;

verus! {

/// What is kept on disk between runs: today's session count and its date
/// (an ISO `YYYY-MM-DD` string).
#[derive(Clone, Debug)]
pub struct PomodoroPersistentState {
    pub sessions_completed: u32,
    pub last_date: String,
}

/// Relies on `chrono::Local::now` and `DateTime::format("%Y-%m-%d")`: the local
/// date of the moment of the call. It depends on the clock and the time zone,
/// so nothing is stated of it.
#[verifier::external_body]
pub(crate) fn local_today() -> (r: String) {
    chrono::Local::now().format("%Y-%m-%d").to_string()
}

impl PomodoroPersistentState {
    /// The session count to start a day `today` with, given the record read
    /// from storage (if any).
    pub open spec fn resolved_count(stored: Option<PomodoroPersistentState>, today: Seq<char>) -> u32 {
        match stored {
            Some(p) if p.last_date@ == today => p.sessions_completed,
            _ => 0,
        }
    }

    /// The counter for `today`: the stored count when it was written on `today`,
    /// else a count of zero.
    pub fn resolve(stored: Option<PomodoroPersistentState>, today: String) -> (r: PomodoroPersistentState)
        ensures
            r.last_date@ == today@,
            r.sessions_completed == Self::resolved_count(stored, today@),
    {
        match stored {
            Some(p) => {
                if p.last_date == today {
                    PomodoroPersistentState { sessions_completed: p.sessions_completed, last_date: today }
                } else {
                    PomodoroPersistentState { sessions_completed: 0, last_date: today }
                }
            },
            None => PomodoroPersistentState { sessions_completed: 0, last_date: today },
        }
    }

    /// The counter for the current local date, given the record read from
    /// storage (if any).
    pub fn load_today(stored: Option<PomodoroPersistentState>) -> (r: PomodoroPersistentState)
        ensures
            r.sessions_completed == Self::resolved_count(stored, r.last_date@),
    {
        let today = local_today();
        Self::resolve(stored, today)
    }
}

} // verus!

use crate::entry::{is_overdue, overdue};
use vstd::prelude::*;

verus! {

/// How an attempt to open a connection ended.
pub enum DialOutcome<C, E> {
    /// The manager opened a connection within the time allowed.
    Connected(C),
    /// The manager reported an error within the time allowed.
    Failed(E),
    /// The time allowed ran out first.
    TimedOut,
}

impl<C, E> DialOutcome<C, E> {
    /// The outcome of a dial that began at `started`, ended at `finished` with
    /// `dialed`, and was allowed `timeout` microseconds.  A dial that overran
    /// its time counts as timed out whatever it produced; without a timeout, or
    /// with a timeout of zero, no dial overruns.
    pub open spec fn of(dialed: Result<C, E>, timeout: Option<u64>, started: u64, finished: u64) -> Self {
        if overdue(timeout, started, finished) {
            DialOutcome::TimedOut
        } else {
            match dialed {
                Ok(conn) => DialOutcome::Connected(conn),
                Err(e) => DialOutcome::Failed(e),
            }
        }
    }

    /// Classifies a finished dial; a connection that arrived too late is dropped.
    pub fn classify(dialed: Result<C, E>, timeout: Option<u64>, started: u64, finished: u64) -> (outcome: Self)
        ensures
            outcome == Self::of(dialed, timeout, started, finished),
    {
        if is_overdue(timeout, started, finished) {
            DialOutcome::TimedOut
        } else {
            match dialed {
                Ok(conn) => DialOutcome::Connected(conn),
                Err(e) => DialOutcome::Failed(e),
            }
        }
    }
}

} // verus!

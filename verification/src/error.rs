//! The one error that the timer's operations return.

use vstd::prelude::*;

verus! {

/// Why an operation of the timer did not succeed.
#[derive(Clone, Copy, Debug, PartialEq, Eq)]
pub enum TimerError {
    /// The system refused the call; the value is its error number.
    Os(i32),
    /// The timer has not fired since it was last checked. This is the
    /// expected answer of a check made too early, not a failure: check again
    /// once the descriptor is readable.
    WouldBlock,
}

impl TimerError {
    /// The system's error number, where the system refused a call.
    pub fn raw_os_error(&self) -> (errno: Option<i32>)
        ensures
            errno == match *self {
                TimerError::Os(n) => Some(n),
                TimerError::WouldBlock => None,
            },
    {
        match *self {
            TimerError::Os(n) => Some(n),
            TimerError::WouldBlock => None,
        }
    }
}

} // verus!

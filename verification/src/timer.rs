//! The timer: the descriptor of its event queue, and what the queue was
//! last armed with.
//!
//! The timer makes no system call. Its caller creates the queue, makes the
//! calls that [`Request`] describes, and hands each result to the timer,
//! which says what it means.
//!
//! [`Request`]: crate::event::Request

use vstd::prelude::*;
use crate::error::TimerError;
use crate::event::Retrieval;
use crate::time::TimeSpec;

verus! {

/// A timer on an event queue of its own.
#[derive(Debug)]
pub struct Timer {
    fd: i32,
    armed: Option<TimeSpec>,
}

/// The state of a timer.
pub struct TimerView {
    /// The descriptor of the timer's event queue.
    pub descriptor: i32,
    /// What the queue holds in the timer's slot, as far as the timer has
    /// seen: nothing, or the one arming that is waiting to fire.
    pub armed: Option<TimeSpec>,
}

impl TimerView {
    /// The state once the queue has answered `submitted` to the call that
    /// arms `timer`. A change that the queue accepted takes the place of
    /// whatever was armed; one that it refused leaves that in place.
    pub open spec fn set(self, timer: TimeSpec, submitted: Result<Retrieval, i32>) -> TimerView {
        match submitted {
            Ok(_) => TimerView { armed: Some(timer), ..self },
            Err(_) => self,
        }
    }

    /// The state once a firing has been retrieved from the queue. A delay
    /// is used up by it; an interval stays armed.
    pub open spec fn fired(self) -> TimerView {
        match self.armed {
            Some(TimeSpec::Interval(_)) => self,
            _ => TimerView { armed: None, ..self },
        }
    }

    /// The state once a poll of the queue has brought `polled`: a poll that
    /// retrieved one event has retrieved a firing, and any other leaves the
    /// timer as it is.
    pub open spec fn check(self, polled: Result<Retrieval, i32>) -> TimerView
        recommends
            polled matches Ok(seen) ==> seen.is_consistent(),
    {
        match polled {
            Ok(seen) => if seen.count == 1 {
                self.fired()
            } else {
                self
            },
            Err(_) => self,
        }
    }

    /// The state once the polls `polled` have been checked, one after the
    /// other.
    pub open spec fn checks(self, polled: Seq<Result<Retrieval, i32>>) -> TimerView
        decreases polled.len(),
    {
        if polled.len() == 0 {
            self
        } else {
            self.checks(polled.drop_last()).check(polled.last())
        }
    }
}

impl View for Timer {
    type V = TimerView;

    closed spec fn view(&self) -> TimerView {
        TimerView { descriptor: self.fd, armed: self.armed }
    }
}

impl Timer {
    /// What `set` returns for the queue's answer `submitted`: success where
    /// the queue accepted the change, the system's error where it did not.
    pub open spec fn set_result(submitted: Result<Retrieval, i32>) -> Result<(), TimerError> {
        match submitted {
            Ok(_) => Ok(()),
            Err(errno) => Err(TimerError::Os(errno)),
        }
    }

    /// What `check` returns for the poll's outcome `polled`: success where
    /// one event was retrieved, `WouldBlock` where none was, the system's
    /// error where the poll failed.
    pub open spec fn check_result(polled: Result<Retrieval, i32>) -> Result<(), TimerError>
        recommends
            polled matches Ok(seen) ==> seen.is_consistent(),
    {
        match polled {
            Ok(seen) => if seen.count == 1 {
                Ok(())
            } else {
                Err(TimerError::WouldBlock)
            },
            Err(errno) => Err(TimerError::Os(errno)),
        }
    }

    /// A timer on the event queue that the caller has just created. `created`
    /// is what the creation returned: the queue's descriptor, or the
    /// system's error number, which the timer hands on. The new timer is
    /// not armed.
    pub fn new(created: Result<i32, i32>) -> (r: Result<Timer, TimerError>)
        ensures
            match created {
                Ok(fd) => r matches Ok(timer) && timer@ == (TimerView {
                    descriptor: fd,
                    armed: None,
                }),
                Err(errno) => r matches Err(e) && e == TimerError::Os(errno),
            },
    {
        match created {
            Ok(fd) => Ok(Timer { fd, armed: None }),
            Err(errno) => Err(TimerError::Os(errno)),
        }
    }

    /// The descriptor of the timer's event queue, for the caller to submit
    /// to, to poll, to register with a poller, and to close when the timer
    /// is dropped. The timer still owns it.
    pub fn as_raw_fd(&self) -> (fd: i32)
        ensures
            fd == self@.descriptor,
    {
        self.fd
    }

    /// What the timer is armed with, if it is.
    pub fn armed(&self) -> (armed: Option<TimeSpec>)
        ensures
            armed == self@.armed,
    {
        self.armed
    }

    /// Arms the timer with `timer`, given the queue's answer `submitted` to
    /// the call that [`Request::arm`] builds for it. Where the queue
    /// accepted the change, `timer` takes the place of whatever was armed
    /// before. Where it refused, the timer is as it was, and the system's
    /// error is returned for the caller to try again.
    ///
    /// [`Request::arm`]: crate::event::Request::arm
    pub fn set(&mut self, timer: TimeSpec, submitted: Result<Retrieval, i32>) -> (r: Result<
        (),
        TimerError,
    >)
        ensures
            final(self)@ == old(self)@.set(timer, submitted),
            r == Timer::set_result(submitted),
    {
        match submitted {
            Ok(_) => {
                self.armed = Some(timer);
                Ok(())
            },
            Err(errno) => Err(TimerError::Os(errno)),
        }
    }

    /// Says whether the timer has fired, given what the call that
    /// [`Request::poll`] builds has brought. One event retrieved confirms a
    /// firing and uses up a delay. None retrieved is `WouldBlock`: the timer
    /// has not fired since the last check.
    ///
    /// The queue holds the timer's slot and nothing else, and the call asks
    /// for one event, so `polled` is consistent. An answer that is not
    /// shows a defect outside the timer: the caller stops there and does
    /// not call `check` with it.
    ///
    /// [`Request::poll`]: crate::event::Request::poll
    pub fn check(&mut self, polled: Result<Retrieval, i32>) -> (r: Result<(), TimerError>)
        requires
            polled matches Ok(seen) ==> seen.is_consistent(),
        ensures
            final(self)@ == old(self)@.check(polled),
            r == Timer::check_result(polled),
    {
        match polled {
            Ok(seen) => {
                if seen.count == 1 {
                    if let Some(TimeSpec::Delay(_)) = self.armed {
                        self.armed = None;
                    }
                    Ok(())
                } else {
                    Err(TimerError::WouldBlock)
                }
            },
            Err(errno) => Err(TimerError::Os(errno)),
        }
    }
}

} // verus!

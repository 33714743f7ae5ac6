//! The records that pass between the timer and its event queue: the call
//! to make, with the change that arms the timer, and what the call brings
//! back.

use vstd::prelude::*;
use crate::time::TimeSpec;

verus! {

/// The identifier under which the timer is registered on its queue. Every
/// change is filed under it, so a later change takes the place of an
/// earlier one.
pub const TIMER_SLOT: usize = 1;

/// The kinds of event source that a change can name. The timer registers
/// nothing but itself.
#[derive(Clone, Copy, Debug, PartialEq, Eq)]
pub enum Filter {
    /// An event that the passing of time raises.
    Timer,
}

/// The actions and options of a change, each present or absent.
#[derive(Clone, Copy, Debug, PartialEq, Eq)]
pub struct EventFlags {
    /// Add the event to the queue, or modify it if it is there.
    pub add: bool,
    /// Let the queue report the event when it is raised.
    pub enable: bool,
    /// Remove the event once it has been reported.
    pub oneshot: bool,
}

/// A change to submit to the event queue, field by field as the queue
/// takes it.
#[derive(Clone, Copy, Debug, PartialEq, Eq)]
pub struct Change {
    /// The identifier of the event within its filter.
    pub ident: usize,
    /// The kind of event source.
    pub filter: Filter,
    /// What to do with the event.
    pub flags: EventFlags,
    /// Flags of the filter's own. With none set, a timer counts its
    /// threshold in milliseconds.
    pub fflags: u32,
    /// The filter's value: for a timer, the threshold at which it fires.
    pub data: isize,
    /// A value that the queue hands back untouched with each event.
    pub udata: isize,
}

impl Change {
    /// The change that arms the timer as `timer` says, if the queue can
    /// hold the threshold. It adds and enables the event in the timer's
    /// slot, to be removed at its first firing if `timer` is a delay, with
    /// the span of `timer` in whole milliseconds for a threshold.
    pub open spec fn spec_arm(timer: TimeSpec) -> Option<Change> {
        if timer.threshold_millis() <= isize::MAX {
            Some(
                Change {
                    ident: TIMER_SLOT,
                    filter: Filter::Timer,
                    flags: EventFlags { add: true, enable: true, oneshot: timer.is_one_shot() },
                    fflags: 0,
                    data: timer.threshold_millis() as isize,
                    udata: 0,
                },
            )
        } else {
            None
        }
    }

    /// The change that arms the timer as `timer` says. There is none where
    /// the threshold in milliseconds exceeds what the queue's field holds.
    #[verifier::when_used_as_spec(spec_arm)]
    pub fn arm(timer: TimeSpec) -> (r: Option<Change>)
        ensures
            r == Change::spec_arm(timer),
    {
        let flags = EventFlags { add: true, enable: true, oneshot: timer.is_one_shot() };
        match timer.duration().whole_millis() {
            Some(millis) => {
                if millis <= isize::MAX as u64 {
                    Some(
                        Change {
                            ident: TIMER_SLOT,
                            filter: Filter::Timer,
                            flags,
                            fflags: 0,
                            data: millis as isize,
                            udata: 0,
                        },
                    )
                } else {
                    None
                }
            },
            None => None,
        }
    }
}

/// One call of the event queue: what to submit, and how to wait for what
/// the queue has to report.
#[derive(Clone, Copy, Debug, PartialEq, Eq)]
pub struct Request {
    /// The change to submit, if any.
    pub change: Option<Change>,
    /// The number of events to retrieve at most.
    pub max_events: usize,
    /// The time to wait for an event, in milliseconds.
    pub timeout_ms: usize,
}

impl Request {
    /// The call that arms the timer as `timer` says, if there is a change
    /// that does: it submits that change, retrieves no event and does not
    /// wait.
    pub open spec fn spec_arm(timer: TimeSpec) -> Option<Request> {
        match Change::arm(timer) {
            Some(change) => Some(Request { change: Some(change), max_events: 0, timeout_ms: 0 }),
            None => None,
        }
    }

    /// The call that asks whether the timer has fired: it submits nothing
    /// and retrieves one event if one is pending, without waiting.
    pub open spec fn spec_poll() -> Request {
        Request { change: None, max_events: 1, timeout_ms: 0 }
    }

    /// The call that arms the timer as `timer` says. There is none where
    /// there is no change that does.
    #[verifier::when_used_as_spec(spec_arm)]
    pub fn arm(timer: TimeSpec) -> (r: Option<Request>)
        ensures
            r == Request::spec_arm(timer),
    {
        match Change::arm(timer) {
            Some(change) => Some(Request { change: Some(change), max_events: 0, timeout_ms: 0 }),
            None => None,
        }
    }

    /// The call that asks whether the timer has fired.
    #[verifier::when_used_as_spec(spec_poll)]
    pub fn poll() -> (r: Request)
        ensures
            r == Request::spec_poll(),
    {
        Request { change: None, max_events: 1, timeout_ms: 0 }
    }
}

/// What a call of the queue brought back.
#[derive(Clone, Copy, Debug, PartialEq, Eq)]
pub struct Retrieval {
    /// The number of events retrieved.
    pub count: usize,
    /// The identifier of the first event retrieved. It means nothing where
    /// no event was retrieved.
    pub ident: usize,
}

impl Retrieval {
    /// Whether a queue that holds the timer's slot and nothing else can
    /// have answered a poll so: with no event, or with one event of that
    /// slot.
    pub open spec fn spec_is_consistent(&self) -> bool {
        self.count == 0 || (self.count == 1 && self.ident == TIMER_SLOT)
    }

    /// Whether a queue that holds the timer's slot and nothing else can
    /// have answered a poll so. Any other answer shows a defect outside the
    /// timer.
    #[verifier::when_used_as_spec(spec_is_consistent)]
    pub fn is_consistent(&self) -> (ok: bool)
        ensures
            ok == self.spec_is_consistent(),
    {
        self.count == 0 || (self.count == 1 && self.ident == TIMER_SLOT)
    }
}

} // verus!

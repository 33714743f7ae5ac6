//! What holds of the timer whatever it is armed with and whatever its queue
//! answers.
//!
//! When the queue reports a firing is the queue's affair. These laws say
//! what the timer makes of it: which call it asks for, what it returns for
//! each answer, and what it then holds armed.

use vstd::prelude::*;
use crate::error::TimerError;
use crate::event::{Request, Retrieval};
use crate::time::{Duration, TimeSpec, MILLIS_PER_SEC, NANOS_PER_MILLI, NANOS_PER_SEC};
use crate::timer::{Timer, TimerView};

verus! {

/// Whether the poll `polled` retrieved a firing.
pub open spec fn retrieved_firing(polled: Result<Retrieval, i32>) -> bool {
    polled matches Ok(seen) && seen.count == 1
}

/// Whether none of the polls `polled` retrieved a firing.
pub open spec fn retrieved_no_firing(polled: Seq<Result<Retrieval, i32>>) -> bool {
    forall|i: int| 0 <= i < polled.len() ==> !retrieved_firing(#[trigger] polled[i])
}

/// The threshold of a timer, in milliseconds, is the whole seconds of its
/// span a thousandfold, plus the whole milliseconds of the second begun.
/// What is left of the span below a millisecond does not count.
pub proof fn threshold_by_seconds_and_millis(timer: TimeSpec)
    ensures
        timer.threshold_millis() == (timer.duration()@ / NANOS_PER_SEC as nat) * MILLIS_PER_SEC
            + (timer.duration()@ % NANOS_PER_SEC as nat) / NANOS_PER_MILLI as nat,
        timer.threshold_millis() * NANOS_PER_MILLI <= timer.duration()@,
        timer.duration()@ < (timer.threshold_millis() + 1) * NANOS_PER_MILLI,
{
}

/// A delay is armed for one firing.
///
/// The call that arms it has the queue remove the event at its first
/// firing. From the moment the queue accepts the call, each check whose
/// poll went through and retrieved no firing is `WouldBlock`, and the delay
/// stays armed through all of them. The check that retrieves the firing
/// succeeds and leaves the timer unarmed, and no later check arms it again.
pub proof fn delay_is_armed_for_one_firing(
    state: TimerView,
    delay: Duration,
    accepted: Retrieval,
    early: Seq<Result<Retrieval, i32>>,
    firing: Result<Retrieval, i32>,
    late: Seq<Result<Retrieval, i32>>,
)
    requires
        retrieved_no_firing(early),
        retrieved_firing(firing),
    ensures
        Request::arm(TimeSpec::Delay(delay)) matches Some(call) ==> call.change matches Some(
            change,
        ) && change.flags.oneshot,
        forall|i: int|
            0 <= i < early.len() && early[i] is Ok ==> Timer::check_result(#[trigger] early[i])
                == Err::<(), TimerError>(TimerError::WouldBlock),
        state.set(TimeSpec::Delay(delay), Ok(accepted)).checks(early).armed == Some(
            TimeSpec::Delay(delay),
        ),
        Timer::check_result(firing) is Ok,
        state.set(TimeSpec::Delay(delay), Ok(accepted)).checks(early).check(firing).armed
            is None,
        state.set(TimeSpec::Delay(delay), Ok(accepted)).checks(early).check(firing).checks(
            late,
        ).armed is None,
{
    let armed = state.set(TimeSpec::Delay(delay), Ok(accepted));
    checks_without_firing_change_nothing(armed, early);
    unarmed_stays_unarmed(armed.checks(early).check(firing), late);
}

/// An interval stays armed through its firings.
///
/// The call that arms it leaves the event on the queue when it fires. From
/// the moment the queue accepts the call, a check succeeds exactly where
/// its poll retrieved a firing, and the interval is armed after every
/// check, whether it retrieved a firing or not.
pub proof fn interval_stays_armed(
    state: TimerView,
    interval: Duration,
    accepted: Retrieval,
    polled: Seq<Result<Retrieval, i32>>,
)
    ensures
        Request::arm(TimeSpec::Interval(interval)) matches Some(call) ==> call.change matches Some(
            change,
        ) && !change.flags.oneshot,
        forall|i: int|
            0 <= i < polled.len() ==> (Timer::check_result(#[trigger] polled[i]) is Ok
                <==> retrieved_firing(polled[i])),
        state.set(TimeSpec::Interval(interval), Ok(accepted)).checks(polled).armed == Some(
            TimeSpec::Interval(interval),
        ),
    decreases polled.len(),
{
    if polled.len() > 0 {
        interval_stays_armed(state, interval, accepted, polled.drop_last());
    }
}

/// Arming anew replaces, and never adds.
///
/// The calls that arm a timer all file their change under the same slot of
/// the same filter, as an event to add or to modify. Once the queue has
/// accepted the second of two, the timer is what it would be had the first
/// never been made, whatever the queue answered to the first.
pub proof fn arming_anew_replaces(
    state: TimerView,
    first: TimeSpec,
    second: TimeSpec,
    first_answer: Result<Retrieval, i32>,
    accepted: Retrieval,
)
    ensures
        Request::arm(first) is Some && Request::arm(second) is Some ==> {
            let a = Request::arm(first).unwrap().change.unwrap();
            let b = Request::arm(second).unwrap().change.unwrap();
            a.ident == b.ident && a.filter == b.filter && b.flags.add
        },
        state.set(first, first_answer).set(second, Ok(accepted)) == state.set(
            second,
            Ok(accepted),
        ),
{
}

/// Checks whose polls retrieve no firing leave the timer as it is.
pub proof fn checks_without_firing_change_nothing(
    state: TimerView,
    polled: Seq<Result<Retrieval, i32>>,
)
    requires
        retrieved_no_firing(polled),
    ensures
        state.checks(polled) == state,
    decreases polled.len(),
{
    if polled.len() > 0 {
        checks_without_firing_change_nothing(state, polled.drop_last());
    }
}

/// No check arms a timer: one that is unarmed stays so through every check.
pub proof fn unarmed_stays_unarmed(state: TimerView, polled: Seq<Result<Retrieval, i32>>)
    requires
        state.armed is None,
    ensures
        state.checks(polled).armed is None,
    decreases polled.len(),
{
    if polled.len() > 0 {
        unarmed_stays_unarmed(state, polled.drop_last());
    }
}

} // verus!

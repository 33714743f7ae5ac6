//! Spans of time and the two ways to arm a timer with one.

use vstd::prelude::*;

verus! {

/// Nanoseconds in a second.
pub const NANOS_PER_SEC: u32 = 1_000_000_000;

/// Nanoseconds in a millisecond.
pub const NANOS_PER_MILLI: u32 = 1_000_000;

/// Milliseconds in a second.
pub const MILLIS_PER_SEC: u64 = 1_000;

/// A span of time of nanosecond resolution: whole seconds, and the
/// nanoseconds of the second that has begun.
#[derive(Clone, Copy, Debug, PartialEq, Eq)]
pub struct Duration {
    secs: u64,
    nanos: u32,
}

impl View for Duration {
    type V = nat;

    /// The span in nanoseconds.
    closed spec fn view(&self) -> nat {
        (self.secs as nat) * (NANOS_PER_SEC as nat) + (self.nanos as nat)
    }
}

impl Duration {
    /// The nanoseconds never make up a whole second.
    #[verifier::type_invariant]
    spec fn normal(self) -> bool {
        self.nanos < NANOS_PER_SEC
    }

    /// The span of `secs` seconds and `nanos` nanoseconds. Nanoseconds that
    /// make up whole seconds are carried over; there is no such span when
    /// the seconds then exceed `u64`.
    pub fn new(secs: u64, nanos: u32) -> (r: Option<Duration>)
        ensures
            r matches Some(d) ==> d@ == secs as nat * NANOS_PER_SEC as nat + nanos as nat,
            r is Some <==> secs + nanos / NANOS_PER_SEC <= u64::MAX,
    {
        let carry: u64 = (nanos / NANOS_PER_SEC) as u64;
        match secs.checked_add(carry) {
            Some(whole) => Some(Duration { secs: whole, nanos: nanos % NANOS_PER_SEC }),
            None => None,
        }
    }

    /// The span of `millis` milliseconds.
    pub fn from_millis(millis: u64) -> (d: Duration)
        ensures
            d@ == millis as nat * NANOS_PER_MILLI as nat,
    {
        let rest: u32 = (millis % MILLIS_PER_SEC) as u32;
        Duration { secs: millis / MILLIS_PER_SEC, nanos: rest * NANOS_PER_MILLI }
    }

    /// The whole seconds in the span.
    pub fn as_secs(&self) -> (secs: u64)
        ensures
            secs == self@ / NANOS_PER_SEC as nat,
    {
        proof {
            use_type_invariant(self);
        }
        self.secs
    }

    /// The part of the span beyond its whole seconds, in nanoseconds.
    pub fn subsec_nanos(&self) -> (nanos: u32)
        ensures
            nanos == self@ % NANOS_PER_SEC as nat,
    {
        proof {
            use_type_invariant(self);
        }
        self.nanos
    }

    /// The part of the span beyond its whole seconds, in whole milliseconds.
    pub fn subsec_millis(&self) -> (millis: u32)
        ensures
            millis == (self@ % NANOS_PER_SEC as nat) / NANOS_PER_MILLI as nat,
            millis < MILLIS_PER_SEC,
    {
        proof {
            use_type_invariant(self);
        }
        self.nanos / NANOS_PER_MILLI
    }

    /// The span in whole milliseconds, as long as `u64` holds them: the
    /// seconds a thousandfold, and the milliseconds of the second begun.
    pub fn whole_millis(&self) -> (r: Option<u64>)
        ensures
            r matches Some(millis) ==> millis == self@ / NANOS_PER_MILLI as nat,
            r is Some <==> self@ / NANOS_PER_MILLI as nat <= u64::MAX,
    {
        proof {
            use_type_invariant(self);
        }
        match self.as_secs().checked_mul(MILLIS_PER_SEC) {
            Some(millis) => millis.checked_add(self.subsec_millis() as u64),
            None => None,
        }
    }
}

/// What a timer is armed with: a delay, after which it fires once, or an
/// interval, at which it fires again and again.
#[derive(Clone, Copy, Debug, PartialEq, Eq)]
pub enum TimeSpec {
    /// Fire once, when the span has passed.
    Delay(Duration),
    /// Fire each time the span has passed again.
    Interval(Duration),
}

impl TimeSpec {
    /// The span that the timer waits for.
    pub open spec fn spec_duration(&self) -> Duration {
        match *self {
            TimeSpec::Delay(d) => d,
            TimeSpec::Interval(d) => d,
        }
    }

    /// Whether the timer fires once only.
    pub open spec fn spec_is_one_shot(&self) -> bool {
        *self is Delay
    }

    /// The threshold at which the timer fires: its span in whole
    /// milliseconds.
    pub open spec fn threshold_millis(&self) -> nat {
        self.spec_duration()@ / NANOS_PER_MILLI as nat
    }

    /// The span that the timer waits for.
    #[verifier::when_used_as_spec(spec_duration)]
    pub fn duration(&self) -> (d: Duration)
        ensures
            d == self.spec_duration(),
    {
        match *self {
            TimeSpec::Delay(d) => d,
            TimeSpec::Interval(d) => d,
        }
    }

    /// Whether the timer fires once only.
    #[verifier::when_used_as_spec(spec_is_one_shot)]
    pub fn is_one_shot(&self) -> (once: bool)
        ensures
            once == self.spec_is_one_shot(),
    {
        match *self {
            TimeSpec::Delay(_) => true,
            TimeSpec::Interval(_) => false,
        }
    }
}

} // verus!

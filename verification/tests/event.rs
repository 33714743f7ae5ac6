use kqueue_timer::{
    Change, Duration, EventFlags, Filter, Request, Retrieval, TimeSpec, TIMER_SLOT,
};

#[test]
fn the_timer_slot_is_one() {
    assert_eq!(TIMER_SLOT, 1);
}

#[test]
fn arming_a_delay_asks_for_one_firing() {
    let change = Change::arm(TimeSpec::Delay(Duration::from_millis(50)));
    assert_eq!(
        change,
        Some(Change {
            ident: 1,
            filter: Filter::Timer,
            flags: EventFlags { add: true, enable: true, oneshot: true },
            fflags: 0,
            data: 50,
            udata: 0,
        })
    );
}

#[test]
fn arming_an_interval_asks_for_every_firing() {
    let change = Change::arm(TimeSpec::Interval(Duration::from_millis(20)));
    assert_eq!(
        change,
        Some(Change {
            ident: 1,
            filter: Filter::Timer,
            flags: EventFlags { add: true, enable: true, oneshot: false },
            fflags: 0,
            data: 20,
            udata: 0,
        })
    );
}

#[test]
fn arming_a_delay_of_zero_has_threshold_zero() {
    let change = Change::arm(TimeSpec::Delay(Duration::from_millis(0))).unwrap();
    assert_eq!(change.data, 0);
    assert!(change.flags.oneshot);
    assert!(change.flags.add);
    assert!(change.flags.enable);
}

#[test]
fn the_threshold_is_seconds_times_thousand_plus_milliseconds() {
    let span = Duration::new(3, 250_999_999).unwrap();
    assert_eq!(Change::arm(TimeSpec::Delay(span)).unwrap().data, 3_250);
    assert_eq!(Change::arm(TimeSpec::Interval(span)).unwrap().data, 3_250);
    let minute = Duration::new(60, 0).unwrap();
    assert_eq!(Change::arm(TimeSpec::Interval(minute)).unwrap().data, 60_000);
}

#[test]
fn a_span_below_a_millisecond_has_threshold_zero() {
    let span = Duration::new(0, 999_999).unwrap();
    assert_eq!(Change::arm(TimeSpec::Interval(span)).unwrap().data, 0);
}

#[test]
fn the_largest_threshold_is_the_largest_value_of_the_field() {
    let most = isize::MAX as u64;
    let change = Change::arm(TimeSpec::Delay(Duration::from_millis(most))).unwrap();
    assert_eq!(change.data, isize::MAX);
    assert_eq!(Change::arm(TimeSpec::Delay(Duration::from_millis(most + 1))), None);
    assert_eq!(Change::arm(TimeSpec::Interval(Duration::from_millis(most + 1))), None);
}

#[test]
fn a_span_beyond_all_milliseconds_has_no_change() {
    let span = Duration::new(u64::MAX, 999_999_999).unwrap();
    assert_eq!(Change::arm(TimeSpec::Delay(span)), None);
    assert_eq!(Change::arm(TimeSpec::Interval(span)), None);
}

#[test]
fn every_change_is_filed_under_the_same_slot() {
    let a = Change::arm(TimeSpec::Delay(Duration::from_millis(5))).unwrap();
    let b = Change::arm(TimeSpec::Interval(Duration::from_millis(7_000))).unwrap();
    assert_eq!(a.ident, TIMER_SLOT);
    assert_eq!(a.ident, b.ident);
    assert_eq!(a.filter, b.filter);
}

#[test]
fn the_call_that_arms_submits_the_change_and_retrieves_nothing() {
    let spec = TimeSpec::Delay(Duration::from_millis(50));
    let call = Request::arm(spec).unwrap();
    assert_eq!(call.change, Change::arm(spec));
    assert_eq!(call.change.unwrap().data, 50);
    assert_eq!(call.max_events, 0);
    assert_eq!(call.timeout_ms, 0);
    let spec = TimeSpec::Interval(Duration::new(2, 0).unwrap());
    assert_eq!(
        Request::arm(spec),
        Some(Request {
            change: Some(Change {
                ident: 1,
                filter: Filter::Timer,
                flags: EventFlags { add: true, enable: true, oneshot: false },
                fflags: 0,
                data: 2_000,
                udata: 0,
            }),
            max_events: 0,
            timeout_ms: 0,
        })
    );
}

#[test]
fn there_is_no_call_that_arms_where_there_is_no_change() {
    let most = isize::MAX as u64;
    assert!(Request::arm(TimeSpec::Delay(Duration::from_millis(most))).is_some());
    assert_eq!(Request::arm(TimeSpec::Delay(Duration::from_millis(most + 1))), None);
    let span = Duration::new(u64::MAX, 0).unwrap();
    assert_eq!(Request::arm(TimeSpec::Interval(span)), None);
}

#[test]
fn the_call_that_polls_asks_for_one_event_and_does_not_wait() {
    assert_eq!(Request::poll(), Request { change: None, max_events: 1, timeout_ms: 0 });
}

#[test]
fn no_event_is_consistent_whatever_the_identifier() {
    assert!(Retrieval { count: 0, ident: 0 }.is_consistent());
    assert!(Retrieval { count: 0, ident: 1 }.is_consistent());
    assert!(Retrieval { count: 0, ident: 77 }.is_consistent());
}

#[test]
fn one_event_of_the_timer_slot_is_consistent() {
    assert!(Retrieval { count: 1, ident: 1 }.is_consistent());
}

#[test]
fn one_event_of_another_slot_is_not_consistent() {
    assert!(!Retrieval { count: 1, ident: 0 }.is_consistent());
    assert!(!Retrieval { count: 1, ident: 2 }.is_consistent());
}

#[test]
fn more_than_one_event_is_not_consistent() {
    assert!(!Retrieval { count: 2, ident: 1 }.is_consistent());
    assert!(!Retrieval { count: usize::MAX, ident: 1 }.is_consistent());
}

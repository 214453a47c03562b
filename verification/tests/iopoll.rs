use hwrng::error::Error;
use hwrng::iopoll::{PollAction, PollEvent, PollState, PollTimeout};
use hwrng::ktime::Ktime;

/// Runs a poll against a device whose value is good from the read numbered
/// `ready` on, with a clock that starts at `start` and advances by `nap`
/// nanoseconds in every sleep. Returns the outcome and the number of reads.
fn settle(
    sleep_us: usize,
    timeout_us: u64,
    start: i64,
    nap: i64,
    ready: u32,
) -> (Result<(), Error>, u32, u32) {
    let mut clock = start;
    let mut reads = 0;
    let mut sleeps = 0;
    let mut poll = PollTimeout::new(sleep_us, timeout_us, false, Ktime::from_ns(clock));
    let mut action = poll.pending();
    loop {
        match action {
            PollAction::Read => {
                let satisfied = reads >= ready;
                reads += 1;
                action = poll.step(PollEvent::Value { satisfied, now: Ktime::from_ns(clock) });
            }
            PollAction::Sleep { min_us, max_us } => {
                assert!(min_us <= max_us);
                assert_eq!(max_us, sleep_us);
                assert_eq!(min_us, sleep_us / 4 + 1);
                sleeps += 1;
                clock += nap;
                action = poll.step(PollEvent::Slept);
            }
            PollAction::Done(outcome) => return (outcome, reads, sleeps),
        }
    }
}

#[test]
fn value_good_at_first_read_returns_at_once() {
    assert_eq!(settle(200, 1000, 0, 200_000, 0), (Ok(()), 1, 0));
    assert_eq!(settle(200, 0, 0, 200_000, 0), (Ok(()), 1, 0));
    assert_eq!(settle(0, 1, i64::MAX, 0, 0), (Ok(()), 1, 0));
}

#[test]
fn poll_succeeds_while_the_budget_lasts() {
    // Budget 1000 us, sleeps of 200 us: the reads 0 to 5 come at 0 to 1000 us,
    // read 6 at 1200 us is the first after which the budget is spent, and
    // read 7 is the last one.
    assert_eq!(settle(200, 1000, 0, 200_000, 5), (Ok(()), 6, 5));
    assert_eq!(settle(200, 1000, 0, 200_000, 6), (Ok(()), 7, 6));
    assert_eq!(settle(200, 1000, 0, 200_000, 7), (Ok(()), 8, 6));
}

#[test]
fn poll_times_out_when_the_budget_is_spent() {
    assert_eq!(settle(200, 1000, 0, 200_000, 8), (Err(Error::Timeout), 8, 6));
    assert_eq!(settle(200, 1000, 0, 200_000, 1000), (Err(Error::Timeout), 8, 6));
    assert_eq!(settle(200, 1, 50, 200_000, 3), (Err(Error::Timeout), 3, 1));
}

#[test]
fn poll_without_budget_never_times_out() {
    assert_eq!(settle(200, 0, 0, 200_000, 5000), (Ok(()), 5001, 5000));
    assert_eq!(settle(1, 0, -5, 1_000_000_000, 100), (Ok(()), 101, 100));
}

#[test]
fn poll_without_sleep_spins() {
    // The clock of this device stands still, so the budget is never spent.
    assert_eq!(settle(0, 10, 0, 0, 50), (Ok(()), 51, 0));
}

#[test]
fn sleep_range_is_a_quarter_plus_one_to_the_whole() {
    let mut poll = PollTimeout::new(200, 1_000_000, false, Ktime::from_ns(0));
    let action = poll.step(PollEvent::Value { satisfied: false, now: Ktime::from_ns(0) });
    assert_eq!(action, PollAction::Sleep { min_us: 51, max_us: 200 });
    let mut poll = PollTimeout::new(3, 0, true, Ktime::from_ns(0));
    assert_eq!(poll.pending(), PollAction::Sleep { min_us: 1, max_us: 3 });
    assert_eq!(poll.step(PollEvent::Slept), PollAction::Read);
}

#[test]
fn sleep_before_read_needs_a_sleep() {
    let poll = PollTimeout::new(0, 0, true, Ktime::from_ns(0));
    assert_eq!(poll.pending(), PollAction::Read);
    let poll = PollTimeout::new(8, 0, true, Ktime::from_ns(0));
    assert_eq!(poll.pending(), PollAction::Sleep { min_us: 3, max_us: 8 });
}

#[test]
fn deadline_is_start_plus_budget() {
    let poll = PollTimeout::new(200, 1000, false, Ktime::from_ns(7));
    assert_eq!(poll.deadline.to_ns(), 1_000_007);
    assert_eq!(poll.state, PollState::Reading);
}

#[test]
fn last_read_decides() {
    let mut poll = PollTimeout::new(200, 1000, false, Ktime::from_ns(0));
    let late = Ktime::from_ns(1_000_001);
    assert_eq!(poll.step(PollEvent::Value { satisfied: false, now: late }), PollAction::Read);
    assert_eq!(poll.state, PollState::LastReading);
    assert_eq!(poll.step(PollEvent::Value { satisfied: true, now: late }), PollAction::Done(Ok(())));

    let mut poll = PollTimeout::new(200, 1000, false, Ktime::from_ns(0));
    let on_time = Ktime::from_ns(1_000_000);
    assert_eq!(
        poll.step(PollEvent::Value { satisfied: false, now: on_time }),
        PollAction::Sleep { min_us: 51, max_us: 200 }
    );
}

#[test]
fn events_out_of_turn_change_nothing() {
    let mut poll = PollTimeout::new(200, 1000, false, Ktime::from_ns(0));
    assert_eq!(poll.step(PollEvent::Slept), PollAction::Read);
    assert_eq!(poll.state, PollState::Reading);
    poll.step(PollEvent::Value { satisfied: true, now: Ktime::from_ns(0) });
    assert_eq!(poll.step(PollEvent::Slept), PollAction::Done(Ok(())));
    assert_eq!(
        poll.step(PollEvent::Value { satisfied: false, now: Ktime::from_ns(i64::MAX) }),
        PollAction::Done(Ok(()))
    );
}

#[test]
fn observe_applies_the_condition() {
    let mut poll = PollTimeout::new(0, 0, false, Ktime::from_ns(0));
    assert_eq!(poll.observe(&5u32, |v: &u32| *v == 0, Ktime::from_ns(1)), PollAction::Read);
    assert_eq!(
        poll.observe(&0u32, |v: &u32| *v == 0, Ktime::from_ns(2)),
        PollAction::Done(Ok(()))
    );
}

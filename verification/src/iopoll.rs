//! Polling a device until a condition holds or a time budget runs out.
//!
//! The poll is a state machine. [`PollTimeout::pending`] says what the
//! caller has to do next (read the device, sleep, or stop), and
//! [`PollTimeout::step`] takes what came of it. The caller keeps the value
//! it read last: a poll that stops with success returns that value.

use crate::error::Error;
use crate::ktime::wrap_i64;
use crate::ktime::Ktime;
use crate::ktime::NSEC_PER_USEC;
use vstd::prelude::*;

verus! {

/// Where a poll stands.
#[derive(Clone, Copy, Debug, PartialEq, Eq, Structural)]
pub enum PollState {
    /// The caller has to sleep before the next read.
    Sleeping,
    /// The caller has to read the device.
    Reading,
    /// The budget has run out; the caller has to read one last time.
    LastReading,
    /// The value read last met the condition.
    Satisfied,
    /// The budget ran out and the last value did not meet the condition.
    TimedOut,
}

/// What the caller reports to a poll.
#[derive(Clone, Copy, Debug)]
pub enum PollEvent {
    /// The sleep that was asked for is over.
    Slept,
    /// The device was read at time `now`; `satisfied` tells whether the
    /// value met the condition.
    Value { satisfied: bool, now: Ktime },
}

/// What a poll asks of the caller.
#[derive(Clone, Copy, Debug, PartialEq, Eq)]
pub enum PollAction {
    /// Sleep for at least `min_us` and at most `max_us` microseconds.
    Sleep { min_us: usize, max_us: usize },
    /// Read the device and report the value.
    Read,
    /// Stop. On `Ok` the value read last is the result.
    Done(Result<(), Error>),
}

/// A poll with its parameters: the longest sleep between two reads, the
/// time budget (zero for none), and the time at which the budget is spent.
#[derive(Clone, Copy, Debug)]
pub struct PollTimeout {
    /// The longest sleep between two reads in microseconds; zero for none.
    pub sleep_us: usize,
    /// The time budget in microseconds; zero for none.
    pub timeout_us: u64,
    /// The time after which the budget is spent.
    pub deadline: Ktime,
    /// Where the poll stands.
    pub state: PollState,
}

impl PollTimeout {
    /// The poll as it starts at time `now`.
    pub open spec fn spec_new(
        sleep_us: usize,
        timeout_us: u64,
        sleep_before_read: bool,
        now: Ktime,
    ) -> PollTimeout {
        PollTimeout {
            sleep_us,
            timeout_us,
            deadline: Ktime::at(wrap_i64(now.ns() + timeout_us * NSEC_PER_USEC)),
            state: if sleep_before_read && sleep_us != 0 {
                PollState::Sleeping
            } else {
                PollState::Reading
            },
        }
    }

    /// Whether the state is one that a poll with these parameters can be
    /// in: without a budget there is no last read and no timeout.
    pub open spec fn consistent(self) -> bool {
        self.timeout_us == 0 ==> self.state != PollState::LastReading && self.state
            != PollState::TimedOut
    }

    /// Whether the budget is spent at time `now`. A budget of zero is never
    /// spent.
    pub open spec fn expired(self, now: Ktime) -> bool {
        self.timeout_us != 0 && now.ns() > self.deadline.ns()
    }

    /// The state after `event`. An event that does not answer what the poll
    /// asked for leaves the state as it is.
    pub open spec fn next_state(self, event: PollEvent) -> PollState {
        match (self.state, event) {
            (PollState::Sleeping, PollEvent::Slept) => PollState::Reading,
            (PollState::Reading, PollEvent::Value { satisfied, now }) => {
                if satisfied {
                    PollState::Satisfied
                } else if self.expired(now) {
                    PollState::LastReading
                } else if self.sleep_us != 0 {
                    PollState::Sleeping
                } else {
                    PollState::Reading
                }
            },
            (PollState::LastReading, PollEvent::Value { satisfied, now }) => {
                if satisfied {
                    PollState::Satisfied
                } else {
                    PollState::TimedOut
                }
            },
            _ => self.state,
        }
    }

    /// The poll after `event`: only its state changes.
    pub open spec fn next(self, event: PollEvent) -> PollTimeout {
        PollTimeout { state: self.next_state(event), ..self }
    }

    /// The poll after the events of `events`, in their order.
    pub open spec fn run(self, events: Seq<PollEvent>) -> PollTimeout
        decreases events.len(),
    {
        if events.len() == 0 {
            self
        } else {
            self.run(events.drop_last()).next(events.last())
        }
    }

    /// What the poll asks of the caller in its state.
    pub open spec fn spec_pending(self) -> PollAction {
        match self.state {
            PollState::Sleeping => PollAction::Sleep {
                min_us: (self.sleep_us / 4 + 1) as usize,
                max_us: self.sleep_us,
            },
            PollState::Reading => PollAction::Read,
            PollState::LastReading => PollAction::Read,
            PollState::Satisfied => PollAction::Done(Ok(())),
            PollState::TimedOut => PollAction::Done(Err(Error::Timeout)),
        }
    }

    /// Starts a poll at time `now`. Between two reads the caller sleeps for
    /// up to `sleep_us` microseconds, or not at all where that is zero; with
    /// `sleep_before_read` it does so before the first read too. The budget
    /// is `timeout_us` microseconds, or none where that is zero.
    pub fn new(sleep_us: usize, timeout_us: u64, sleep_before_read: bool, now: Ktime) -> (p:
        PollTimeout)
        ensures
            p == PollTimeout::spec_new(sleep_us, timeout_us, sleep_before_read, now),
            p.consistent(),
    {
        let deadline = now.add_us(timeout_us);
        proof {
            deadline.lemma_ns_at();
        }
        PollTimeout {
            sleep_us,
            timeout_us,
            deadline,
            state: if sleep_before_read && sleep_us != 0 {
                PollState::Sleeping
            } else {
                PollState::Reading
            },
        }
    }

    /// What the caller has to do now.
    pub fn pending(&self) -> (a: PollAction)
        ensures
            a == self.spec_pending(),
    {
        match self.state {
            PollState::Sleeping => PollAction::Sleep {
                min_us: self.sleep_us / 4 + 1,
                max_us: self.sleep_us,
            },
            PollState::Reading => PollAction::Read,
            PollState::LastReading => PollAction::Read,
            PollState::Satisfied => PollAction::Done(Ok(())),
            PollState::TimedOut => PollAction::Done(Err(Error::Timeout)),
        }
    }

    /// Takes `event` and says what the caller has to do next.
    pub fn step(&mut self, event: PollEvent) -> (a: PollAction)
        ensures
            *final(self) == old(self).next(event),
            a == final(self).spec_pending(),
            old(self).consistent() ==> final(self).consistent(),
            old(self).consistent() && old(self).timeout_us == 0 ==> a != PollAction::Done(
                Err(Error::Timeout),
            ),
    {
        match event {
            PollEvent::Slept => {
                if self.state == PollState::Sleeping {
                    self.state = PollState::Reading;
                }
            },
            PollEvent::Value { satisfied, now } => {
                if self.state == PollState::Reading {
                    if satisfied {
                        self.state = PollState::Satisfied;
                    } else if self.timeout_us != 0 && now.is_after(&self.deadline) {
                        self.state = PollState::LastReading;
                    } else if self.sleep_us != 0 {
                        self.state = PollState::Sleeping;
                    }
                } else if self.state == PollState::LastReading {
                    if satisfied {
                        self.state = PollState::Satisfied;
                    } else {
                        self.state = PollState::TimedOut;
                    }
                }
            },
        }
        self.pending()
    }

    /// Applies the condition `cond` to the value `value` that was read at
    /// time `now`, and takes the outcome as [`PollTimeout::step`] does.
    pub fn observe<T, F: Fn(&T) -> bool>(&mut self, value: &T, cond: F, now: Ktime) -> (a:
        PollAction)
        requires
            call_requires(cond, (value,)),
        ensures
            exists|satisfied: bool|
                call_ensures(cond, (value,), satisfied) && *final(self) == old(self).next(
                    PollEvent::Value { satisfied, now },
                ),
            a == final(self).spec_pending(),
    {
        let satisfied = cond(value);
        self.step(PollEvent::Value { satisfied, now })
    }
}

/// Starts a poll of a device at time `now`, with the first read at once:
/// the caller reads the device, applies its condition and sleeps as the poll
/// asks, until the poll stops. Between two reads it sleeps for up to
/// `sleep_us` microseconds, or not at all where that is zero; the budget is
/// `timeout_us` microseconds, or none where that is zero.
pub fn readx_poll_timeout(sleep_us: usize, timeout_us: u64, now: Ktime) -> (p: PollTimeout)
    ensures
        p == PollTimeout::spec_new(sleep_us, timeout_us, false, now),
        p.spec_pending() == PollAction::Read,
        p.consistent(),
{
    PollTimeout::new(sleep_us, timeout_us, false, now)
}

/// How many of the reads that do not yet meet the condition are still to
/// come after `reads` reads, where the read numbered `ready` (counting from
/// zero) is the first that meets it.
pub open spec fn reads_short(reads: nat, ready: nat) -> nat {
    if reads < ready {
        (ready - reads) as nat
    } else {
        0
    }
}

impl PollState {
    /// How many steps a poll in this state can take at most without reading
    /// the device.
    pub open spec fn rank(self) -> nat {
        match self {
            PollState::Sleeping => 2,
            PollState::Reading => 1,
            PollState::LastReading => 1,
            PollState::Satisfied => 0,
            PollState::TimedOut => 0,
        }
    }
}

impl PollTimeout {
    /// The poll as it ends against a device and a clock of this kind: the
    /// clock stands at `clock` nanoseconds, `reads` reads have been made,
    /// the value meets the condition from the read numbered `ready` on
    /// (counting from zero), a read takes no time, and every sleep lasts
    /// `nap` nanoseconds.
    pub open spec fn settle(self, clock: int, nap: int, reads: nat, ready: nat) -> PollTimeout
        decreases reads_short(reads, ready), self.state.rank(),
    {
        match self.state {
            PollState::Sleeping => self.next(PollEvent::Slept).settle(
                clock + nap,
                nap,
                reads,
                ready,
            ),
            PollState::Reading | PollState::LastReading => {
                let after = self.next(
                    PollEvent::Value { satisfied: reads >= ready, now: Ktime::at(clock) },
                );
                if reads >= ready {
                    after
                } else {
                    after.settle(clock, nap, reads + 1, ready)
                }
            },
            PollState::Satisfied | PollState::TimedOut => self,
        }
    }

    /// A poll without a budget never times out: whatever the caller
    /// reports, and in whatever order, the poll neither asks for a last
    /// read nor stops with a timeout.
    pub proof fn lemma_no_budget_no_timeout(
        sleep_us: usize,
        sleep_before_read: bool,
        now: Ktime,
        events: Seq<PollEvent>,
    )
        ensures
            PollTimeout::spec_new(sleep_us, 0, sleep_before_read, now).run(events).consistent(),
            PollTimeout::spec_new(sleep_us, 0, sleep_before_read, now).run(events).state
                != PollState::TimedOut,
            PollTimeout::spec_new(sleep_us, 0, sleep_before_read, now).run(
                events,
            ).spec_pending() != PollAction::Done(Err(Error::Timeout)),
        decreases events.len(),
    {
        let start = PollTimeout::spec_new(sleep_us, 0, sleep_before_read, now);
        if events.len() > 0 {
            Self::lemma_no_budget_no_timeout(sleep_us, sleep_before_read, now, events.drop_last());
            assert(start.run(events) == start.run(events.drop_last()).next(events.last()));
            assert(start.run(events.drop_last()).timeout_us == 0) by {
                Self::lemma_run_keeps_parameters(start, events.drop_last());
            }
        }
    }

    /// The events of a poll change its state only: the sleep, the budget
    /// and the deadline stay as they were set.
    pub proof fn lemma_run_keeps_parameters(p: PollTimeout, events: Seq<PollEvent>)
        ensures
            p.run(events).sleep_us == p.sleep_us,
            p.run(events).timeout_us == p.timeout_us,
            p.run(events).deadline == p.deadline,
        decreases events.len(),
    {
        if events.len() > 0 {
            Self::lemma_run_keeps_parameters(p, events.drop_last());
        }
    }

    /// A value that meets the condition at the first read ends the poll at
    /// once with success, whatever the budget and the time of the read.
    pub proof fn lemma_first_read_satisfied(
        sleep_us: usize,
        timeout_us: u64,
        now: Ktime,
        read_at: Ktime,
    )
        ensures
            PollTimeout::spec_new(sleep_us, timeout_us, false, now).spec_pending()
                == PollAction::Read,
            PollTimeout::spec_new(sleep_us, timeout_us, false, now).next(
                PollEvent::Value { satisfied: true, now: read_at },
            ).spec_pending() == PollAction::Done(Ok(())),
    {
    }
}


/// Whether a poll with a budget of `budget` nanoseconds ends with success
/// where the clock advances by `pace` nanoseconds between two reads and the
/// read numbered `ready` (counting from zero) is the first whose value meets
/// the condition: the budget must not be spent before the read that precedes
/// the first good one.
pub open spec fn in_time(ready: nat, pace: int, budget: int) -> bool {
    ready <= 1 || (ready - 2) * pace <= budget
}

impl PollTimeout {
    /// The outcome of a poll in the state of a read, against a device and a
    /// clock as [`PollTimeout::settle`] describes them.
    proof fn lemma_settle_from_read(
        self,
        start: int,
        nap: int,
        clock: int,
        reads: nat,
        ready: nat,
    )
        requires
            self.state == PollState::Reading,
            self.timeout_us > 0,
            nap >= 0,
            i64::MIN <= start,
            start + self.timeout_us * NSEC_PER_USEC <= i64::MAX,
            start + ready * self.pace(nap) <= i64::MAX || start + self.timeout_us * NSEC_PER_USEC
                + self.pace(nap) <= i64::MAX,
            self.deadline == Ktime::at(start + self.timeout_us * NSEC_PER_USEC),
            clock == start + reads * self.pace(nap),
            reads > 0 ==> (reads - 1) * self.pace(nap) <= self.timeout_us * NSEC_PER_USEC,
        ensures
            self.settle(clock, nap, reads, ready).state == if reads + 2 <= ready && (ready - 2)
                * self.pace(nap) > self.timeout_us * NSEC_PER_USEC {
                PollState::TimedOut
            } else {
                PollState::Satisfied
            },
        decreases reads_short(reads, ready),
    {
        let pace = self.pace(nap);
        let budget = self.timeout_us * NSEC_PER_USEC;
        self.deadline.lemma_ns_at();
        if reads < ready {
            assert(reads * pace <= ready * pace) by (nonlinear_arith)
                requires
                    reads < ready,
                    pace >= 0,
            ;
            assert(0 <= reads * pace) by (nonlinear_arith)
                requires
                    pace >= 0,
            ;
            assert(reads > 0 ==> reads * pace == (reads - 1) * pace + pace) by (nonlinear_arith);
            assert(clock <= i64::MAX);
            let now = Ktime::at(clock);
            assert(now.ns() == clock);
            assert(self.deadline.ns() == start + budget);
            let after = self.next(PollEvent::Value { satisfied: false, now });
            if self.expired(now) {
                assert(after.state == PollState::LastReading);
                if reads + 2 <= ready {
                    assert((ready - 2) * pace >= reads * pace) by (nonlinear_arith)
                        requires
                            reads + 2 <= ready,
                            pace >= 0,
                    ;
                    let last = after.next(
                        PollEvent::Value { satisfied: false, now: Ktime::at(clock) },
                    );
                    assert(last.state == PollState::TimedOut);
                    assert(after.settle(clock, nap, reads + 1, ready) == last.settle(
                        clock,
                        nap,
                        reads + 2,
                        ready,
                    ));
                } else {
                    assert(reads + 1 == ready);
                }
            } else {
                assert((reads + 1) * pace == reads * pace + pace) by (nonlinear_arith);
                if reads + 2 == ready {
                    assert((ready - 2) * pace == reads * pace);
                }
                if self.sleep_us != 0 {
                    assert(after.state == PollState::Sleeping);
                    let woken = after.next(PollEvent::Slept);
                    assert(after.settle(clock, nap, reads + 1, ready) == woken.settle(
                        clock + nap,
                        nap,
                        reads + 1,
                        ready,
                    ));
                    woken.lemma_settle_from_read(start, nap, clock + nap, reads + 1, ready);
                } else {
                    assert(after.state == PollState::Reading);
                    after.lemma_settle_from_read(start, nap, clock, reads + 1, ready);
                }
            }
        }
    }

    /// By how much the clock advances between two reads where every sleep
    /// lasts `nap` nanoseconds: a poll that never sleeps reads again at
    /// once.
    pub open spec fn pace(self, nap: int) -> int {
        if self.sleep_us == 0 {
            0
        } else {
            nap
        }
    }

    /// A poll with a budget ends with success exactly where the budget is
    /// not spent before the read that precedes the first good one, and with
    /// a timeout otherwise. This holds against a device whose value meets
    /// the condition from the read numbered `ready` on (counting from zero)
    /// and a clock that starts at `start` nanoseconds, stands still during
    /// a read and advances by `nap` nanoseconds in every sleep, as long as
    /// the deadline lies on the signed 64-bit scale and the clock stays on
    /// it until the poll is over: until the first good read, or until one
    /// sleep after the deadline, whichever the scale has room for.
    pub proof fn lemma_poll_outcome(
        sleep_us: usize,
        timeout_us: u64,
        start: int,
        nap: int,
        ready: nat,
    )
        requires
            timeout_us > 0,
            nap >= 0,
            i64::MIN <= start,
            start + timeout_us * NSEC_PER_USEC <= i64::MAX,
            start + ready * nap <= i64::MAX || start + timeout_us * NSEC_PER_USEC + nap
                <= i64::MAX,
        ensures
            ({
                let poll = PollTimeout::spec_new(sleep_us, timeout_us, false, Ktime::at(start));
                let end = poll.settle(start, nap, 0, ready);
                &&& in_time(ready, poll.pace(nap), timeout_us * NSEC_PER_USEC) ==> end.state
                    == PollState::Satisfied
                &&& !in_time(ready, poll.pace(nap), timeout_us * NSEC_PER_USEC) ==> end.state
                    == PollState::TimedOut
            }),
    {
        let begin = Ktime::at(start);
        begin.lemma_ns_at();
        let poll = PollTimeout::spec_new(sleep_us, timeout_us, false, begin);
        assert(begin.ns() == start);
        assert(wrap_i64(start + timeout_us * NSEC_PER_USEC) == start + timeout_us
            * NSEC_PER_USEC);
        assert(ready * poll.pace(nap) <= ready * nap) by (nonlinear_arith)
            requires
                0 <= poll.pace(nap) <= nap,
        ;
        poll.lemma_settle_from_read(start, nap, start, 0, ready);
    }
}

} // verus!

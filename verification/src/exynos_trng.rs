//! The driver for the true random number generator of Exynos chips.
//!
//! The generator is reached through a window of registers. The driver sets
//! its clock divider and switches it on, and then draws random bytes from
//! its FIFO: it asks for a number of bits, waits until the device has
//! cleared the request, and copies the bytes out.

pub mod probe;

use crate::clk::Clk;
use crate::device::Device;
use crate::error::to_result_spec;
use crate::error::Error;
use crate::hw_random::ToUse;
use crate::io_mem::IoMem;
use crate::io_mem::IoRequest;
use crate::iopoll::in_time;
use crate::iopoll::reads_short;
use crate::iopoll::PollAction;
use crate::iopoll::PollEvent;
use crate::iopoll::PollState;
use crate::iopoll::PollTimeout;
use crate::ktime::Ktime;
use crate::ktime::NSEC_PER_USEC;
use crate::pm::runtime::put_sync;
use crate::pm::runtime::resume_and_get;
use crate::pm::runtime::users_after_get;
use crate::pm::runtime::users_after_put;
use crate::pm::runtime::DisableGuard;
use crate::pm::runtime::RuntimePm;
use vstd::prelude::*;

verus! {

/// Offset of the clock divider register.
pub const EXYNOS_TRNG_CLKDIV: usize = 0x0;

/// Offset of the control register.
pub const EXYNOS_TRNG_CTRL: usize = 0x20;

/// The bit of the control register that switches the generator on.
pub const EXYNOS_TRNG_CTRL_RNGEN: u32 = 0x8000_0000;

/// Size of the register window in bytes.
pub const EXYNOS_REG_SIZE: usize = 0x100;

/// Offset of the register that controls post-processing.
pub const EXYNOS_TRNG_POST_CTRL: usize = 0x30;

/// Offset of the register that controls the FIFO.
pub const EXYNOS_TRNG_FIFO_CTRL: usize = 0x50;

/// Offset of the first word of the FIFO.
pub const EXYNOS_TRNG_FIFO_0: usize = 0x80;

/// Number of words in the FIFO.
pub const EXYNOS_TRNG_FIFO_LEN: u32 = 8;

/// Number of bytes in the FIFO.
pub const EXYNOS_TRNG_FIFO_BYTES: u32 = EXYNOS_TRNG_FIFO_LEN * 4;

/// The rate in hertz at which the generator is meant to run.
pub const EXYNOS_TRNG_CLOCK_RATE: u64 = 500000;

/// The largest value that the field of the clock divider holds.
pub const EXYNOS_TRNG_CLKDIV_MAX: u64 = 0x7fff;

/// The longest sleep between two looks at the FIFO, in microseconds.
pub const EXYNOS_TRNG_POLL_SLEEP_US: usize = 200;

/// The time that the device is given to fill the FIFO, in microseconds.
pub const EXYNOS_TRNG_POLL_TIMEOUT_US: u64 = 1000000;

/// What of a device is guarded by mutual exclusion.
#[derive(Debug)]
pub struct ExynosTrngDataInner {
    /// The clock of the security subsystem, which drives the generator.
    pub clk: Clk,
}

/// What a device holds for as long as it exists.
#[derive(Debug)]
pub struct ExynosTrngData {
    /// The device itself.
    pub dev: Device,
    /// The duty to disable run-time power management at the end.
    pub disable: DisableGuard,
    /// The guarded part.
    pub inner: ExynosTrngDataInner,
}

/// What a device holds until it is removed.
#[derive(Debug)]
pub struct ExynosTrngResources {
    /// The register window.
    pub mem: IoMem<EXYNOS_REG_SIZE>,
}

/// One device: what it holds for good, and its resources for as long as
/// they have not been taken back.
#[derive(Debug)]
pub struct DeviceData {
    resources: Option<ExynosTrngResources>,
    general: ExynosTrngData,
    power: RuntimePm,
}

impl DeviceData {
    /// The resources of the device, unless they have been taken back.
    pub closed spec fn held(&self) -> Option<ExynosTrngResources> {
        self.resources
    }

    /// What the device holds for good.
    pub closed spec fn kept(&self) -> ExynosTrngData {
        self.general
    }

    /// The run-time power management state of the device.
    pub closed spec fn power(&self) -> RuntimePm {
        self.power
    }

    /// Whether the device still has its resources.
    pub open spec fn has_resources(&self) -> bool {
        self.held() is Some
    }

    /// The clock of the device.
    pub open spec fn clock(&self) -> Clk {
        self.kept().inner.clk
    }

    /// The rate of the clock of the device in hertz.
    pub open spec fn clock_rate(&self) -> u64 {
        self.clock().rate()
    }

    /// A device with its resources, and with `power` for its run-time power
    /// management state.
    pub fn new(resources: ExynosTrngResources, general: ExynosTrngData, power: RuntimePm) -> (data:
        DeviceData)
        ensures
            data.held() == Some(resources),
            data.kept() == general,
            data.power() == power,
    {
        DeviceData { resources: Some(resources), general, power }
    }

    /// The run-time power management state of the device.
    pub fn runtime_pm(&self) -> (power: &RuntimePm)
        ensures
            *power == self.power(),
    {
        &self.power
    }

    /// The resources of the device, unless they have been taken back.
    pub fn resources(&self) -> (r: Option<&ExynosTrngResources>)
        ensures
            match r {
                Some(resources) => self.held() == Some(*resources),
                None => self.held() is None,
            },
    {
        self.resources.as_ref()
    }

    /// What the device holds for good.
    pub fn general(&self) -> (general: &ExynosTrngData)
        ensures
            *general == self.kept(),
    {
        &self.general
    }

    /// The clock of the device, to change it.
    pub fn clk_mut(&mut self) -> (clk: &mut Clk)
        ensures
            *clk == old(self).clock(),
            final(self).held() == old(self).held(),
            final(self).kept() == (ExynosTrngData {
                inner: ExynosTrngDataInner { clk: *final(clk) },
                ..old(self).kept()
            }),
            final(self).power() == old(self).power(),
    {
        &mut self.general.inner.clk
    }

    /// Takes the device apart, for the release of what it holds: its
    /// resources, unless they have been taken back, what it holds for good,
    /// and its run-time power management state.
    pub fn into_parts(self) -> (parts: (Option<ExynosTrngResources>, ExynosTrngData, RuntimePm))
        ensures
            parts.0 == self.held(),
            parts.1 == self.kept(),
            parts.2 == self.power(),
    {
        (self.resources, self.general, self.power)
    }

    /// Takes the resources of the device back. From then on the device
    /// refuses to be initialized or read.
    pub fn revoke(&mut self) -> (resources: Option<ExynosTrngResources>)
        ensures
            resources == old(self).held(),
            final(self).held() is None,
            final(self).kept() == old(self).kept(),
            final(self).power() == old(self).power(),
    {
        self.resources.take()
    }
}

/// The divider that brings a clock of `rate` hertz down to the rate of the
/// generator, which counts both edges.
pub open spec fn clock_divider(rate: u64) -> int {
    rate as int / (EXYNOS_TRNG_CLOCK_RATE as int * 2)
}

/// The register writes that set up a generator whose clock runs at `rate`
/// hertz, in their order: the divider, shifted left past the lowest bit;
/// the bit that switches the generator on; and zero for the post-processing,
/// so that the data comes out raw.
pub open spec fn init_requests(rate: u64) -> Seq<IoRequest> {
    seq![
        IoRequest::Write { offset: EXYNOS_TRNG_CLKDIV, value: (clock_divider(rate) * 2) as u32 },
        IoRequest::Write { offset: EXYNOS_TRNG_CTRL, value: EXYNOS_TRNG_CTRL_RNGEN },
        IoRequest::Write { offset: EXYNOS_TRNG_POST_CTRL, value: 0 },
    ]
}

/// What the initialization of a device comes to: `RangeExceeded` where the
/// divider does not fit its field, else `NotReady` where the device has no
/// resources, else the register writes of [`init_requests`].
pub open spec fn spec_init(has_resources: bool, rate: u64) -> Result<Seq<IoRequest>, Error> {
    if clock_divider(rate) > EXYNOS_TRNG_CLKDIV_MAX {
        Err(Error::RangeExceeded)
    } else if !has_resources {
        Err(Error::NotReady)
    } else {
        Ok(init_requests(rate))
    }
}

/// A clock that is too fast for the field of the divider is refused, with
/// or without resources, and a device without resources is refused too. In
/// both cases there is nothing to write: the generator is never switched on
/// where the initialization fails. Otherwise the divider is written first,
/// then the generator is switched on, then post-processing is switched off.
pub proof fn lemma_init_checks_before_it_writes(has_resources: bool, rate: u64)
    ensures
        rate / 1000000 > 0x7fff ==> spec_init(has_resources, rate) == Err::<
            Seq<IoRequest>,
            Error,
        >(Error::RangeExceeded),
        rate / 1000000 <= 0x7fff && !has_resources ==> spec_init(has_resources, rate) == Err::<
            Seq<IoRequest>,
            Error,
        >(Error::NotReady),
        rate / 1000000 <= 0x7fff && has_resources ==> spec_init(has_resources, rate) == Ok::<
            Seq<IoRequest>,
            Error,
        >(
            seq![
                IoRequest::Write { offset: 0x0, value: (2 * (rate / 1000000)) as u32 },
                IoRequest::Write { offset: 0x20, value: 0x8000_0000 },
                IoRequest::Write { offset: 0x30, value: 0 },
            ],
        ),
{
    if rate / 1000000 <= 0x7fff && has_resources {
        assert(init_requests(rate) =~= seq![
            IoRequest::Write { offset: 0x0, value: (2 * (rate / 1000000)) as u32 },
            IoRequest::Write { offset: 0x20, value: 0x8000_0000 },
            IoRequest::Write { offset: 0x30, value: 0 },
        ]);
    }
}

/// The driver.
pub struct ExynosTrngDevice;

impl ExynosTrngDevice {
    /// The optional callbacks that the driver offers: the initialization,
    /// and no cleanup.
    pub fn to_use() -> (to_use: ToUse)
        ensures
            to_use == (ToUse { init: true, cleanup: false }),
    {
        ToUse { init: true, cleanup: false }
    }

    /// Initializes the generator of `trng`: works out the clock divider from
    /// the rate of the clock and returns the register writes to carry out,
    /// in their order. Where it fails there is nothing to carry out: no
    /// register is written.
    pub fn init(trng: &DeviceData) -> (r: Result<Vec<IoRequest>, Error>)
        ensures
            match r {
                Ok(requests) => spec_init(trng.has_resources(), trng.clock_rate()) == Ok::<
                    Seq<IoRequest>,
                    Error,
                >(requests@),
                Err(e) => spec_init(trng.has_resources(), trng.clock_rate()) == Err::<
                    Seq<IoRequest>,
                    Error,
                >(e),
            },
            r matches Ok(requests) ==> forall|i: int|
                0 <= i < requests@.len() ==> (#[trigger] requests@[i]).fits(EXYNOS_REG_SIZE as int),
    {
        let sss_rate = trng.general.inner.clk.get_rate();
        let val: u64 = sss_rate / (EXYNOS_TRNG_CLOCK_RATE * 2);
        if val > EXYNOS_TRNG_CLKDIV_MAX {
            return Err(Error::RangeExceeded);
        }
        let resources = match trng.resources() {
            Some(resources) => resources,
            None => {
                return Err(Error::NotReady);
            },
        };
        let mut requests: Vec<IoRequest> = Vec::new();
        requests.push(resources.mem.writel_relaxed((val * 2) as u32, EXYNOS_TRNG_CLKDIV));
        requests.push(resources.mem.writel_relaxed(EXYNOS_TRNG_CTRL_RNGEN, EXYNOS_TRNG_CTRL));
        requests.push(resources.mem.writel_relaxed(0, EXYNOS_TRNG_POST_CTRL));
        assert(requests@ =~= init_requests(trng.clock_rate()));
        Ok(requests)
    }
}

/// The number of bytes that one read delivers into a buffer of `len`
/// bytes: as many as the buffer takes, and no more than the FIFO holds.
pub open spec fn read_len(len: int) -> int {
    if len <= EXYNOS_TRNG_FIFO_BYTES {
        len
    } else {
        EXYNOS_TRNG_FIFO_BYTES as int
    }
}

/// What the caller reports to a read.
#[derive(Clone, Copy, Debug)]
pub enum ReadEvent {
    /// The register write that was asked for is done; the time is `now`.
    Written { now: Ktime },
    /// The register read that was asked for gave `value` at time `now`.
    Word { value: u32, now: Ktime },
    /// The sleep that was asked for is over.
    Slept,
    /// The copy that was asked for ended with `outcome`.
    Copied { outcome: Result<(), Error> },
}

/// What a read asks of the caller.
#[derive(Clone, Copy, Debug, PartialEq, Eq)]
pub enum ReadAction {
    /// Carry out the register access. A copy goes to the start of the
    /// buffer of the caller.
    Io(IoRequest),
    /// Sleep for at least `min_us` and at most `max_us` microseconds.
    Sleep { min_us: usize, max_us: usize },
    /// Stop. On `Ok` the number is that of the bytes now in the buffer.
    Done(Result<u32, Error>),
}

/// How far a read of random bytes from the FIFO has come.
#[derive(Clone, Copy, Debug)]
pub enum ReadState {
    /// The request for `max` bytes has to be written to the FIFO control
    /// register.
    Requesting { max: u32 },
    /// The request is written. `poll` waits for the device to clear it;
    /// once it has, the bytes have to be copied out.
    Polling { max: u32, poll: PollTimeout },
    /// The read is over.
    Done { outcome: Result<u32, Error> },
}

impl ReadState {
    /// The read as it starts on a device, into a buffer of `len` bytes:
    /// over at once with `NotReady` where the device has no resources.
    pub open spec fn spec_start(has_resources: bool, len: usize) -> ReadState {
        if has_resources {
            ReadState::Requesting { max: read_len(len as int) as u32 }
        } else {
            ReadState::Done { outcome: Err(Error::NotReady) }
        }
    }

    /// Whether the read asks for no more bytes than the FIFO holds, and
    /// waits as this driver does.
    pub open spec fn wf(self) -> bool {
        match self {
            ReadState::Requesting { max } => max <= EXYNOS_TRNG_FIFO_BYTES,
            ReadState::Polling { max, poll } => {
                &&& max <= EXYNOS_TRNG_FIFO_BYTES
                &&& poll.sleep_us == EXYNOS_TRNG_POLL_SLEEP_US
                &&& poll.timeout_us == EXYNOS_TRNG_POLL_TIMEOUT_US
            },
            ReadState::Done { outcome } => true,
        }
    }

    /// The read after `event`. An event that does not answer what the read
    /// asked for leaves it as it is.
    pub open spec fn next(self, event: ReadEvent) -> ReadState {
        match (self, event) {
            (ReadState::Requesting { max }, ReadEvent::Written { now }) => ReadState::Polling {
                max,
                poll: PollTimeout::spec_new(
                    EXYNOS_TRNG_POLL_SLEEP_US,
                    EXYNOS_TRNG_POLL_TIMEOUT_US,
                    false,
                    now,
                ),
            },
            (ReadState::Polling { max, poll }, ReadEvent::Word { value, now }) => ReadState::Polling {
                max,
                poll: poll.next(PollEvent::Value { satisfied: value == 0, now }),
            },
            (ReadState::Polling { max, poll }, ReadEvent::Slept) => ReadState::Polling {
                max,
                poll: poll.next(PollEvent::Slept),
            },
            (ReadState::Polling { max, poll }, ReadEvent::Copied { outcome }) => {
                if poll.state == PollState::Satisfied {
                    ReadState::Done {
                        outcome: match outcome {
                            Ok(_) => Ok(max),
                            Err(e) => Err(e),
                        },
                    }
                } else {
                    self
                }
            },
            _ => self,
        }
    }

    /// The read after the events of `events`, in their order.
    pub open spec fn run(self, events: Seq<ReadEvent>) -> ReadState
        decreases events.len(),
    {
        if events.len() == 0 {
            self
        } else {
            self.run(events.drop_last()).next(events.last())
        }
    }

    /// What the read asks of the caller in its state: to write the number
    /// of bits to the FIFO control register; then what the wait asks for,
    /// where a read is one of the FIFO control register; once the device
    /// has cleared the request, to copy the bytes from the FIFO; and to
    /// stop with a timeout where the wait ran out.
    pub open spec fn spec_pending(self) -> ReadAction {
        match self {
            ReadState::Requesting { max } => ReadAction::Io(
                IoRequest::Write { offset: EXYNOS_TRNG_FIFO_CTRL, value: (max * 8) as u32 },
            ),
            ReadState::Polling { max, poll } => match poll.spec_pending() {
                PollAction::Read => ReadAction::Io(
                    IoRequest::Read { offset: EXYNOS_TRNG_FIFO_CTRL },
                ),
                PollAction::Sleep { min_us, max_us } => ReadAction::Sleep { min_us, max_us },
                PollAction::Done(Ok(_)) => ReadAction::Io(
                    IoRequest::Copy { offset: EXYNOS_TRNG_FIFO_0, len: max as usize },
                ),
                PollAction::Done(Err(e)) => ReadAction::Done(Err(e)),
            },
            ReadState::Done { outcome } => ReadAction::Done(outcome),
        }
    }

    /// What the read asks of the caller in this state.
    fn pending(&self) -> (a: ReadAction)
        requires
            self.wf(),
        ensures
            a == self.spec_pending(),
            a matches ReadAction::Io(request) ==> request.fits(EXYNOS_REG_SIZE as int),
    {
        match self {
            ReadState::Requesting { max } => ReadAction::Io(
                IoRequest::Write { offset: EXYNOS_TRNG_FIFO_CTRL, value: *max * 8 },
            ),
            ReadState::Polling { max, poll } => match poll.pending() {
                PollAction::Read => ReadAction::Io(
                    IoRequest::Read { offset: EXYNOS_TRNG_FIFO_CTRL },
                ),
                PollAction::Sleep { min_us, max_us } => ReadAction::Sleep { min_us, max_us },
                PollAction::Done(Ok(_)) => ReadAction::Io(
                    IoRequest::Copy { offset: EXYNOS_TRNG_FIFO_0, len: *max as usize },
                ),
                PollAction::Done(Err(e)) => ReadAction::Done(Err(e)),
            },
            ReadState::Done { outcome } => ReadAction::Done(*outcome),
        }
    }

    /// Takes `event`.
    fn step(&mut self, event: ReadEvent)
        requires
            old(self).wf(),
        ensures
            *final(self) == old(self).next(event),
            final(self).wf(),
    {
        let current = *self;
        match current {
            ReadState::Requesting { max } => {
                if let ReadEvent::Written { now } = event {
                    *self = ReadState::Polling {
                        max,
                        poll: PollTimeout::new(
                            EXYNOS_TRNG_POLL_SLEEP_US,
                            EXYNOS_TRNG_POLL_TIMEOUT_US,
                            false,
                            now,
                        ),
                    };
                }
            },
            ReadState::Polling { max, poll } => {
                let mut poll = poll;
                match event {
                    ReadEvent::Word { value, now } => {
                        poll.step(PollEvent::Value { satisfied: value == 0, now });
                        *self = ReadState::Polling { max, poll };
                    },
                    ReadEvent::Slept => {
                        poll.step(PollEvent::Slept);
                        *self = ReadState::Polling { max, poll };
                    },
                    ReadEvent::Copied { outcome } => {
                        if poll.state == PollState::Satisfied {
                            *self = ReadState::Done {
                                outcome: match outcome {
                                    Ok(_) => Ok(max),
                                    Err(e) => Err(e),
                                },
                            };
                        }
                    },
                    ReadEvent::Written { now } => {},
                }
            },
            ReadState::Done { outcome } => {},
        }
    }
}

/// One read of random bytes from the FIFO. It asks for no more bytes than
/// the FIFO holds, and waits for them as this driver does.
#[derive(Clone, Copy, Debug)]
pub struct FifoRead {
    state: ReadState,
}

impl View for FifoRead {
    type V = ReadState;

    closed spec fn view(&self) -> ReadState {
        self.state
    }
}

impl FifoRead {
    #[verifier::type_invariant]
    spec fn inv(self) -> bool {
        self.state.wf()
    }

    /// How far the read has come.
    pub fn state(&self) -> (state: ReadState)
        ensures
            state == self@,
            state.wf(),
    {
        proof {
            use_type_invariant(self);
        }
        self.state
    }

    /// What the caller has to do now. A register access that is asked for
    /// stays inside the window.
    pub fn pending(&self) -> (a: ReadAction)
        ensures
            a == self@.spec_pending(),
            a matches ReadAction::Io(request) ==> request.fits(EXYNOS_REG_SIZE as int),
    {
        proof {
            use_type_invariant(self);
        }
        self.state.pending()
    }

    /// Takes `event` and says what the caller has to do next.
    pub fn step(&mut self, event: ReadEvent) -> (a: ReadAction)
        ensures
            final(self)@ == old(self)@.next(event),
            a == final(self)@.spec_pending(),
            a matches ReadAction::Io(request) ==> request.fits(EXYNOS_REG_SIZE as int),
    {
        proof {
            use_type_invariant(&*self);
        }
        let mut state = self.state;
        state.step(event);
        self.state = state;
        state.pending()
    }
}

impl ExynosTrngDevice {
    /// Starts a read of random bytes from the generator of `trng` into a
    /// buffer of `len` bytes. The read delivers as many bytes as the buffer
    /// takes, and no more than the FIFO holds.
    pub fn read(trng: &DeviceData, len: usize, _wait: bool) -> (read: FifoRead)
        ensures
            read@ == ReadState::spec_start(trng.has_resources(), len),
    {
        if trng.resources().is_none() {
            return FifoRead { state: ReadState::Done { outcome: Err(Error::NotReady) } };
        }
        let max: u32 = if len <= EXYNOS_TRNG_FIFO_BYTES as usize {
            len as u32
        } else {
            EXYNOS_TRNG_FIFO_BYTES
        };
        FifoRead { state: ReadState::Requesting { max } }
    }
}

impl ReadState {
    /// Whether the read is one for `max` bytes: it is after that many, or
    /// it is over and has not delivered another number.
    pub open spec fn aims_at(self, max: u32) -> bool {
        match self {
            ReadState::Requesting { max: m } => m == max,
            ReadState::Polling { max: m, poll } => m == max,
            ReadState::Done { outcome } => outcome matches Ok(n) ==> n == max,
        }
    }

    /// A step keeps a read well formed and after the same number of bytes.
    pub proof fn lemma_next_keeps_aim(self, event: ReadEvent, max: u32)
        requires
            self.wf(),
            self.aims_at(max),
        ensures
            self.next(event).wf(),
            self.next(event).aims_at(max),
    {
    }

    /// A read into a buffer of `len` bytes delivers as many bytes as the
    /// buffer takes and no more than the FIFO holds, or none at all:
    /// whatever the caller reports, and in whatever order, a read that
    /// stops with success stops with that number, and every register
    /// access that it asks for stays inside the window.
    pub proof fn lemma_read_delivers_read_len(len: usize, events: Seq<ReadEvent>)
        ensures
            ({
                let end = ReadState::spec_start(true, len).run(events);
                &&& end.wf()
                &&& end.aims_at(read_len(len as int) as u32)
                &&& end.spec_pending() matches ReadAction::Done(Ok(n)) ==> n == read_len(len as int)
                &&& end.spec_pending() matches ReadAction::Io(request) ==> request.fits(
                    EXYNOS_REG_SIZE as int,
                )
            }),
        decreases events.len(),
    {
        let start = ReadState::spec_start(true, len);
        let max = read_len(len as int) as u32;
        if events.len() > 0 {
            Self::lemma_read_delivers_read_len(len, events.drop_last());
            start.run(events.drop_last()).lemma_next_keeps_aim(events.last(), max);
        }
    }

    /// A read on a device without resources asks for nothing: whatever the
    /// caller reports, it stops with `NotReady` and no register is
    /// accessed.
    pub proof fn lemma_read_without_resources(len: usize, events: Seq<ReadEvent>)
        ensures
            ReadState::spec_start(false, len).run(events) == (ReadState::Done {
                outcome: Err(Error::NotReady),
            }),
            ReadState::spec_start(false, len).run(events).spec_pending() == ReadAction::Done(
                Err(Error::NotReady),
            ),
        decreases events.len(),
    {
        if events.len() > 0 {
            Self::lemma_read_without_resources(len, events.drop_last());
        }
    }

    /// The read as it ends its wait against a device and a clock of this
    /// kind: the clock stands at `clock` nanoseconds, the FIFO control
    /// register has been looked at `looks` times, it reads `busy` until the
    /// look numbered `ready` (counting from zero) and zero from then on, a
    /// look takes no time, and every sleep lasts `nap` nanoseconds.
    pub open spec fn settle(self, clock: int, nap: int, looks: nat, ready: nat, busy: u32) -> ReadState
        decreases reads_short(looks, ready), self.wait_rank(),
    {
        match self {
            ReadState::Polling { max, poll } => match poll.state {
                PollState::Sleeping => self.next(ReadEvent::Slept).settle(
                    clock + nap,
                    nap,
                    looks,
                    ready,
                    busy,
                ),
                PollState::Reading | PollState::LastReading => {
                    let value = if looks >= ready {
                        0u32
                    } else {
                        busy
                    };
                    let after = self.next(ReadEvent::Word { value, now: Ktime::at(clock) });
                    if looks >= ready {
                        after
                    } else {
                        after.settle(clock, nap, looks + 1, ready, busy)
                    }
                },
                _ => self,
            },
            _ => self,
        }
    }

    /// How many steps a read in this state can take at most without looking
    /// at the device.
    pub open spec fn wait_rank(self) -> nat {
        match self {
            ReadState::Polling { max, poll } => poll.state.rank(),
            _ => 0,
        }
    }

    /// A read waits as its poll does: against the same device and clock,
    /// the wait of the read ends where the poll of the read ends.
    proof fn lemma_settle_is_poll_settle(
        max: u32,
        poll: PollTimeout,
        clock: int,
        nap: int,
        looks: nat,
        ready: nat,
        busy: u32,
    )
        requires
            busy != 0,
        ensures
            (ReadState::Polling { max, poll }).settle(clock, nap, looks, ready, busy) == (
            ReadState::Polling { max, poll: poll.settle(clock, nap, looks, ready) }),
        decreases reads_short(looks, ready), poll.state.rank(),
    {
        let this = ReadState::Polling { max, poll };
        match poll.state {
            PollState::Sleeping => {
                Self::lemma_settle_is_poll_settle(
                    max,
                    poll.next(PollEvent::Slept),
                    clock + nap,
                    nap,
                    looks,
                    ready,
                    busy,
                );
            },
            PollState::Reading | PollState::LastReading => {
                if looks < ready {
                    Self::lemma_settle_is_poll_settle(
                        max,
                        poll.next(PollEvent::Value { satisfied: false, now: Ktime::at(clock) }),
                        clock,
                        nap,
                        looks + 1,
                        ready,
                        busy,
                    );
                }
            },
            _ => {},
        }
    }

    /// The outcome of a read against a device that clears the request in
    /// time, and against one that does not. The write of the request is
    /// done at `start` nanoseconds; the FIFO control register reads `busy`,
    /// which is not zero, until the look numbered `ready` (counting from
    /// zero) and zero from then on; a look takes no time and every sleep
    /// lasts `nap` nanoseconds; the clock stays on the signed 64-bit scale
    /// until the first good look, or until one sleep after the budget is
    /// spent. Where the budget of the wait is not spent
    /// before the look that precedes the first good one, the read asks for
    /// the copy of its bytes from the FIFO and, once that is done, stops with
    /// their number: as many as the buffer takes, and no more than the FIFO
    /// holds. Otherwise it stops with a timeout, and no byte is copied.
    pub proof fn lemma_read_outcome(len: usize, start: int, nap: int, ready: nat, busy: u32)
        requires
            busy != 0,
            nap >= 0,
            i64::MIN <= start,
            start + EXYNOS_TRNG_POLL_TIMEOUT_US * NSEC_PER_USEC <= i64::MAX,
            start + ready * nap <= i64::MAX || start + EXYNOS_TRNG_POLL_TIMEOUT_US * NSEC_PER_USEC
                + nap <= i64::MAX,
        ensures
            ({
                let begun = ReadState::spec_start(true, len).next(
                    ReadEvent::Written { now: Ktime::at(start) },
                );
                let waited = begun.settle(start, nap, 0, ready, busy);
                let budget = EXYNOS_TRNG_POLL_TIMEOUT_US * NSEC_PER_USEC;
                &&& ReadState::spec_start(true, len).spec_pending() == ReadAction::Io(
                    IoRequest::Write {
                        offset: EXYNOS_TRNG_FIFO_CTRL,
                        value: (read_len(len as int) * 8) as u32,
                    },
                )
                &&& in_time(ready, nap, budget) ==> {
                    &&& waited.spec_pending() == ReadAction::Io(
                        IoRequest::Copy {
                            offset: EXYNOS_TRNG_FIFO_0,
                            len: read_len(len as int) as usize,
                        },
                    )
                    &&& waited.next(ReadEvent::Copied { outcome: Ok(()) }).spec_pending()
                        == ReadAction::Done(Ok(read_len(len as int) as u32))
                }
                &&& !in_time(ready, nap, budget) ==> waited.spec_pending() == ReadAction::Done(
                    Err(Error::Timeout),
                )
            }),
    {
        let max = read_len(len as int) as u32;
        let poll = PollTimeout::spec_new(
            EXYNOS_TRNG_POLL_SLEEP_US,
            EXYNOS_TRNG_POLL_TIMEOUT_US,
            false,
            Ktime::at(start),
        );
        Self::lemma_settle_is_poll_settle(max, poll, start, nap, 0, ready, busy);
        PollTimeout::lemma_poll_outcome(
            EXYNOS_TRNG_POLL_SLEEP_US,
            EXYNOS_TRNG_POLL_TIMEOUT_US,
            start,
            nap,
            ready,
        );
    }
}

impl ExynosTrngDevice {
    /// Suspends the device of `trng`: the driver gives up its hold on it.
    pub fn suspend(trng: &mut DeviceData)
        ensures
            final(trng).power().usage_count() == users_after_put(old(trng).power().usage_count()),
            final(trng).power().disable_depth() == old(trng).power().disable_depth(),
            final(trng).power().device() == old(trng).power().device(),
            final(trng).held() == old(trng).held(),
            final(trng).kept() == old(trng).kept(),
    {
        put_sync(&mut trng.power);
    }

    /// Takes the status with which the power subsystem answered the request
    /// to resume the device of `trng` and hold it awake. A negative status
    /// is a refusal with that code; any other status gives the driver its
    /// hold on the device back.
    pub fn resume(trng: &mut DeviceData, status: i32) -> (r: Result<(), Error>)
        ensures
            r == to_result_spec(status),
            final(trng).power().usage_count() == if status >= 0 {
                users_after_get(old(trng).power().usage_count())
            } else {
                old(trng).power().usage_count()
            },
            final(trng).power().disable_depth() == old(trng).power().disable_depth(),
            final(trng).power().device() == old(trng).power().device(),
            final(trng).held() == old(trng).held(),
            final(trng).kept() == old(trng).kept(),
    {
        resume_and_get(&mut trng.power, status)
    }
}

} // verus!

use hwrng::clk::devm_clk_get;
use hwrng::device::Device;
use hwrng::error::Error;
use hwrng::exynos_trng::{
    DeviceData, ExynosTrngData, ExynosTrngDataInner, ExynosTrngDevice, ExynosTrngResources,
    ReadAction, ReadEvent, ReadState,
};
use hwrng::io_mem::{IoMem, IoRequest};
use hwrng::ktime::Ktime;
use hwrng::pm::runtime::{enable, RuntimePm};

fn device(rate: u64) -> DeviceData {
    let dev = Device::new(1);
    let clk = devm_clk_get(&dev, Ok(rate)).unwrap();
    let mut power = RuntimePm::new(dev);
    let disable = enable(&mut power);
    let general = ExynosTrngData { dev, disable, inner: ExynosTrngDataInner { clk } };
    let resources = ExynosTrngResources { mem: IoMem::new(0x1000) };
    DeviceData::new(resources, general, power)
}

/// A generator in software: a register file, a FIFO filled on request, and
/// a request that it clears after a number of looks.
struct MockTrng {
    regs: [u8; 0x100],
    looks_until_clear: u32,
    clock_ns: i64,
    log: Vec<IoRequest>,
    sleeps: u32,
}

impl MockTrng {
    fn new(looks_until_clear: u32) -> MockTrng {
        let mut regs = [0u8; 0x100];
        for i in 0..32 {
            regs[0x80 + i] = 0xa0 + i as u8;
        }
        MockTrng { regs, looks_until_clear, clock_ns: 0, log: Vec::new(), sleeps: 0 }
    }

    fn word(&self, offset: usize) -> u32 {
        u32::from_le_bytes(self.regs[offset..offset + 4].try_into().unwrap())
    }

    fn carry_out(&mut self, request: IoRequest, buf: &mut [u8]) -> ReadEvent {
        self.log.push(request);
        match request {
            IoRequest::Write { offset, value } => {
                self.regs[offset..offset + 4].copy_from_slice(&value.to_le_bytes());
                ReadEvent::Written { now: Ktime::from_ns(self.clock_ns) }
            }
            IoRequest::Read { offset } => {
                if offset == 0x50 {
                    if self.looks_until_clear == 0 {
                        self.regs[0x50..0x54].copy_from_slice(&[0; 4]);
                    } else {
                        self.looks_until_clear -= 1;
                    }
                }
                ReadEvent::Word { value: self.word(offset), now: Ktime::from_ns(self.clock_ns) }
            }
            IoRequest::Copy { offset, len } => {
                buf[..len].copy_from_slice(&self.regs[offset..offset + len]);
                ReadEvent::Copied { outcome: Ok(()) }
            }
        }
    }

    fn read(&mut self, trng: &DeviceData, buf: &mut [u8]) -> Result<u32, Error> {
        let mut flow = ExynosTrngDevice::read(trng, buf.len(), true);
        let mut action = flow.pending();
        loop {
            let event = match action {
                ReadAction::Io(request) => self.carry_out(request, buf),
                ReadAction::Sleep { min_us, max_us } => {
                    assert_eq!((min_us, max_us), (51, 200));
                    self.sleeps += 1;
                    self.clock_ns += 200_000;
                    ReadEvent::Slept
                }
                ReadAction::Done(outcome) => return outcome,
            };
            action = flow.step(event);
        }
    }
}

#[test]
fn init_at_one_gigahertz_writes_divider_two_thousand() {
    let trng = device(1_000_000_000);
    assert_eq!(
        ExynosTrngDevice::init(&trng),
        Ok(vec![
            IoRequest::Write { offset: 0x0, value: 2000 },
            IoRequest::Write { offset: 0x20, value: 0x8000_0000 },
            IoRequest::Write { offset: 0x30, value: 0 },
        ])
    );
}

#[test]
fn init_at_the_largest_divider() {
    let trng = device(32_767_999_999);
    assert_eq!(
        ExynosTrngDevice::init(&trng),
        Ok(vec![
            IoRequest::Write { offset: 0x0, value: 0xfffe },
            IoRequest::Write { offset: 0x20, value: 0x8000_0000 },
            IoRequest::Write { offset: 0x30, value: 0 },
        ])
    );
}

#[test]
fn init_with_a_slow_clock_writes_divider_zero() {
    let trng = device(999_999);
    assert_eq!(
        ExynosTrngDevice::init(&trng).unwrap()[0],
        IoRequest::Write { offset: 0x0, value: 0 }
    );
}

#[test]
fn init_fails_when_the_divider_is_too_large() {
    assert_eq!(ExynosTrngDevice::init(&device(32_768_000_000)), Err(Error::RangeExceeded));
    assert_eq!(ExynosTrngDevice::init(&device(u64::MAX)), Err(Error::RangeExceeded));
}

#[test]
fn init_without_resources_is_not_ready() {
    let mut trng = device(1_000_000_000);
    assert!(trng.revoke().is_some());
    assert_eq!(ExynosTrngDevice::init(&trng), Err(Error::NotReady));
    assert!(trng.revoke().is_none());
    // The divider is checked first.
    let mut trng = device(32_768_000_000);
    trng.revoke();
    assert_eq!(ExynosTrngDevice::init(&trng), Err(Error::RangeExceeded));
}

#[test]
fn init_follows_the_rate_of_the_clock() {
    let mut trng = device(1_000_000_000);
    trng.clk_mut().set_rate(24_000_000);
    assert_eq!(
        ExynosTrngDevice::init(&trng).unwrap()[0],
        IoRequest::Write { offset: 0x0, value: 48 }
    );
}

#[test]
fn read_returns_the_smaller_of_length_and_fifo() {
    let trng = device(1_000_000_000);
    for (len, expected) in [(0usize, 0u32), (1, 1), (4, 4), (31, 31), (32, 32), (33, 32), (100, 32)]
    {
        let mut buf = vec![0u8; len];
        let mut mock = MockTrng::new(0);
        assert_eq!(mock.read(&trng, &mut buf), Ok(expected));
    }
    assert_eq!(
        ExynosTrngDevice::read(&trng, usize::MAX, false).pending(),
        ReadAction::Io(IoRequest::Write { offset: 0x50, value: 256 })
    );
}

#[test]
fn read_matches_the_fifo() {
    let trng = device(1_000_000_000);
    for len in [1usize, 4, 31, 32, 100] {
        let mut buf = vec![0u8; len];
        let mut mock = MockTrng::new(3);
        let n = mock.read(&trng, &mut buf).unwrap() as usize;
        assert_eq!(n, len.min(32));
        let expected: Vec<u8> = (0..n).map(|i| 0xa0 + i as u8).collect();
        assert_eq!(&buf[..n], &expected[..]);
        assert!(buf[n..].iter().all(|b| *b == 0));
    }
}

#[test]
fn read_asks_for_bits_polls_and_copies() {
    let trng = device(1_000_000_000);
    let mut buf = [0u8; 16];
    let mut mock = MockTrng::new(2);
    assert_eq!(mock.read(&trng, &mut buf), Ok(16));
    assert_eq!(
        mock.log,
        vec![
            IoRequest::Write { offset: 0x50, value: 128 },
            IoRequest::Read { offset: 0x50 },
            IoRequest::Read { offset: 0x50 },
            IoRequest::Read { offset: 0x50 },
            IoRequest::Copy { offset: 0x80, len: 16 },
        ]
    );
    assert_eq!(mock.sleeps, 2);
}

#[test]
fn read_times_out_after_a_second() {
    let trng = device(1_000_000_000);
    let mut buf = [0u8; 32];
    let mut mock = MockTrng::new(u32::MAX);
    assert_eq!(mock.read(&trng, &mut buf), Err(Error::Timeout));
    // Sleeps of 200 us: the look at 1 000 200 us is the first after the
    // budget of a second, and one more look follows it.
    assert_eq!(mock.sleeps, 5001);
    assert_eq!(mock.log.len(), 1 + 5003);
    assert!(!mock.log.iter().any(|r| matches!(r, IoRequest::Copy { .. })));
    assert_eq!(buf, [0u8; 32]);
}

#[test]
fn read_succeeds_at_the_last_look() {
    let trng = device(1_000_000_000);
    let mut buf = [0u8; 32];
    let mut mock = MockTrng::new(5002);
    assert_eq!(mock.read(&trng, &mut buf), Ok(32));
    assert_eq!(mock.log.len(), 1 + 5003 + 1);
}

#[test]
fn read_without_resources_touches_nothing() {
    let mut trng = device(1_000_000_000);
    trng.revoke();
    let mut buf = [0u8; 8];
    let mut mock = MockTrng::new(0);
    assert_eq!(mock.read(&trng, &mut buf), Err(Error::NotReady));
    assert!(mock.log.is_empty());
    let mut flow = ExynosTrngDevice::read(&trng, 8, true);
    assert_eq!(
        flow.step(ReadEvent::Written { now: Ktime::from_ns(0) }),
        ReadAction::Done(Err(Error::NotReady))
    );
}

#[test]
fn read_hands_on_a_failed_copy() {
    let trng = device(1_000_000_000);
    let mut flow = ExynosTrngDevice::read(&trng, 8, true);
    flow.step(ReadEvent::Written { now: Ktime::from_ns(0) });
    assert_eq!(
        flow.step(ReadEvent::Word { value: 0, now: Ktime::from_ns(1) }),
        ReadAction::Io(IoRequest::Copy { offset: 0x80, len: 8 })
    );
    assert_eq!(
        flow.step(ReadEvent::Copied { outcome: Err(Error::OutOfRange) }),
        ReadAction::Done(Err(Error::OutOfRange))
    );
}

#[test]
fn read_ignores_events_out_of_turn() {
    let trng = device(1_000_000_000);
    let mut flow = ExynosTrngDevice::read(&trng, 8, true);
    let first = IoRequest::Write { offset: 0x50, value: 64 };
    assert_eq!(flow.step(ReadEvent::Slept), ReadAction::Io(first));
    assert_eq!(flow.step(ReadEvent::Copied { outcome: Ok(()) }), ReadAction::Io(first));
    flow.step(ReadEvent::Written { now: Ktime::from_ns(0) });
    assert_eq!(
        flow.step(ReadEvent::Copied { outcome: Ok(()) }),
        ReadAction::Io(IoRequest::Read { offset: 0x50 })
    );
    assert!(matches!(flow.state(), ReadState::Polling { max: 8, .. }));
}

#[test]
fn suspend_and_resume_pair_up() {
    let mut trng = device(1_000_000_000);
    assert_eq!(trng.runtime_pm().users(), 0);
    assert!(trng.runtime_pm().enabled());
    assert_eq!(ExynosTrngDevice::resume(&mut trng, 0), Ok(()));
    assert_eq!(trng.runtime_pm().users(), 1);
    assert_eq!(
        ExynosTrngDevice::resume(&mut trng, -13),
        Err(Error::ResourceUnavailable { errno: -13 })
    );
    assert_eq!(trng.runtime_pm().users(), 1);
    ExynosTrngDevice::suspend(&mut trng);
    assert_eq!(trng.runtime_pm().users(), 0);
    ExynosTrngDevice::suspend(&mut trng);
    assert_eq!(trng.runtime_pm().users(), 0);
}

#[test]
fn driver_offers_init_and_no_cleanup() {
    let to_use = ExynosTrngDevice::to_use();
    assert!(to_use.init);
    assert!(!to_use.cleanup);
}

#[test]
fn device_comes_apart_for_release() {
    let mut trng = device(1_000_000_000);
    ExynosTrngDevice::resume(&mut trng, 0).unwrap();
    ExynosTrngDevice::suspend(&mut trng);
    let (resources, general, mut power) = trng.into_parts();
    assert!(resources.is_some());
    assert_eq!(general.dev, Device::new(1));
    assert!(power.enabled());
    assert!(general.disable.disable(&mut power).is_ok());
    assert!(!power.enabled());
    assert_eq!(power.users(), 0);
}

//! Clocks: what a consumer knows of a clock producer.

use crate::device::Device;
use crate::error::to_result;
use crate::error::to_result_spec;
use crate::error::Error;
use vstd::prelude::*;

verus! {

/// A clock, as its consumer sees it: the rate at which it runs, and whether
/// the consumer has prepared and enabled it.
#[derive(Debug)]
pub struct Clk {
    consumer: Device,
    rate: u64,
    enabled: bool,
}

impl Clk {
    /// The device that consumes the clock.
    pub closed spec fn consumer(&self) -> Device {
        self.consumer
    }

    /// The rate of the clock in hertz.
    pub closed spec fn rate(&self) -> u64 {
        self.rate
    }

    /// Whether the consumer has prepared and enabled the clock.
    pub closed spec fn enabled(&self) -> bool {
        self.enabled
    }

    /// The rate of the clock in hertz.
    pub fn get_rate(&self) -> (rate: u64)
        ensures
            rate == self.rate(),
    {
        self.rate
    }

    /// Records a rate that the clock was found to run at.
    pub fn set_rate(&mut self, rate: u64)
        ensures
            final(self).rate() == rate,
            final(self).enabled() == old(self).enabled(),
            final(self).consumer() == old(self).consumer(),
    {
        self.rate = rate;
    }

    /// Whether the clock is prepared and enabled.
    pub fn is_enabled(&self) -> (b: bool)
        ensures
            b == self.enabled(),
    {
        self.enabled
    }

    /// Takes the status with which the clock subsystem answered the request
    /// to prepare and enable the clock. A negative status is a refusal
    /// with that code and leaves the clock as it was; any other status
    /// leaves it enabled.
    pub fn prepare_enable(&mut self, status: i32) -> (r: Result<(), Error>)
        ensures
            r == to_result_spec(status),
            final(self).enabled() == (old(self).enabled() || status >= 0),
            final(self).rate() == old(self).rate(),
            final(self).consumer() == old(self).consumer(),
    {
        let r = to_result(status);
        if status >= 0 {
            self.enabled = true;
        }
        r
    }

    /// Records that the clock was disabled and unprepared, as it is when
    /// its consumer lets go of it.
    pub fn disable_unprepare(&mut self)
        ensures
            !final(self).enabled(),
            final(self).rate() == old(self).rate(),
            final(self).consumer() == old(self).consumer(),
    {
        self.enabled = false;
    }
}

/// Takes what the clock subsystem answered to the lookup of a clock for the
/// consumer `dev`: the rate of the clock that it found, or the negative
/// code of its refusal. A clock that was found is not enabled yet.
pub fn devm_clk_get(dev: &Device, found: Result<u64, i32>) -> (r: Result<Clk, Error>)
    ensures
        match found {
            Ok(rate) => r matches Ok(clk) && clk.rate() == rate && !clk.enabled()
                && clk.consumer() == *dev,
            Err(errno) => r matches Err(e) && e == Error::from_errno_spec(errno),
        },
{
    match found {
        Ok(rate) => Ok(Clk { consumer: Device::from_dev(dev), rate, enabled: false }),
        Err(errno) => Err(Error::from_kernel_errno(errno)),
    }
}

} // verus!

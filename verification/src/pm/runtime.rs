//! Run-time power management of a device: whether it is enabled for the
//! device, and how many users hold the device awake.

use crate::device::Device;
use crate::error::to_result;
use crate::error::to_result_spec;
use crate::error::Error;
use vstd::prelude::*;

verus! {

/// The depth of disabling after run-time power management was enabled at
/// the depth `depth`: one disabling is taken back, if there is any.
pub open spec fn depth_after_enable(depth: nat) -> nat {
    if depth > 0 {
        (depth - 1) as nat
    } else {
        0
    }
}

/// The depth of disabling after run-time power management was disabled at
/// the depth `depth`: one more, unless the depth cannot grow any more.
pub open spec fn depth_after_disable(depth: nat) -> nat {
    if depth < u32::MAX {
        depth + 1
    } else {
        depth
    }
}

/// The count of users after one more user holds the device awake: one
/// more, unless the count cannot grow any more.
pub open spec fn users_after_get(count: nat) -> nat {
    if count < u32::MAX {
        count + 1
    } else {
        count
    }
}

/// The count of users after one of them gave up its hold: one less, unless
/// it is zero already.
pub open spec fn users_after_put(count: nat) -> nat {
    if count > 0 {
        (count - 1) as nat
    } else {
        0
    }
}

/// Disabling undoes enabling: where run-time power management was disabled
/// at all, enabling it and disabling it again leaves the depth as it was.
pub proof fn lemma_disable_undoes_enable(depth: nat)
    requires
        0 < depth <= u32::MAX,
    ensures
        depth_after_disable(depth_after_enable(depth)) == depth,
{
}

/// Giving up a hold undoes taking it: where the count of users can still
/// grow, one more user who then gives up its hold leaves the count as it
/// was.
pub proof fn lemma_put_undoes_get(count: nat)
    requires
        count < u32::MAX,
    ensures
        users_after_put(users_after_get(count)) == count,
{
}

/// The run-time power management state of one device.
#[derive(Debug)]
pub struct RuntimePm {
    dev: Device,
    disable_depth: u32,
    usage_count: u32,
}

impl RuntimePm {
    /// The device whose state this is.
    pub closed spec fn device(&self) -> Device {
        self.dev
    }

    /// How many times run-time power management has been disabled for the
    /// device without being enabled again. It is enabled at depth zero.
    pub closed spec fn disable_depth(&self) -> nat {
        self.disable_depth as nat
    }

    /// How many users hold the device awake.
    pub closed spec fn usage_count(&self) -> nat {
        self.usage_count as nat
    }

    /// Whether run-time power management is enabled for the device.
    pub open spec fn is_enabled(&self) -> bool {
        self.disable_depth() == 0
    }

    /// Neither the depth of disabling nor the count of users exceeds what
    /// 32 bits hold.
    pub proof fn lemma_bounded(&self)
        ensures
            self.disable_depth() <= u32::MAX,
            self.usage_count() <= u32::MAX,
    {
    }

    /// The state of the device `dev` as it is just found: disabled once,
    /// and held awake by nobody.
    pub fn new(dev: Device) -> (pm: RuntimePm)
        ensures
            pm.device() == dev,
            pm.disable_depth() == 1,
            pm.usage_count() == 0,
    {
        RuntimePm { dev, disable_depth: 1, usage_count: 0 }
    }

    /// The device whose state this is.
    pub fn dev(&self) -> (dev: &Device)
        ensures
            *dev == self.device(),
    {
        &self.dev
    }

    /// Whether run-time power management is enabled for the device.
    pub fn enabled(&self) -> (b: bool)
        ensures
            b == self.is_enabled(),
    {
        self.disable_depth == 0
    }

    /// How many users hold the device awake.
    pub fn users(&self) -> (n: u32)
        ensures
            n == self.usage_count(),
    {
        self.usage_count
    }
}

/// Enables run-time power management of the device whose state is `pm`: one
/// disabling is taken back, if there is any. The guard that comes back is
/// for that device, and stands for the duty to disable it again.
pub fn enable(pm: &mut RuntimePm) -> (guard: DisableGuard)
    ensures
        final(pm).disable_depth() == depth_after_enable(old(pm).disable_depth()),
        final(pm).disable_depth() < u32::MAX,
        final(pm).usage_count() == old(pm).usage_count(),
        final(pm).device() == old(pm).device(),
        guard.device() == old(pm).device(),
{
    if pm.disable_depth > 0 {
        pm.disable_depth = pm.disable_depth - 1;
    }
    DisableGuard::new(Device::from_dev(&pm.dev))
}

/// The duty to disable run-time power management of a device again.
#[derive(Debug)]
pub struct DisableGuard {
    dev: Device,
}

impl DisableGuard {
    /// The device that the guard is for.
    pub closed spec fn device(&self) -> Device {
        self.dev
    }

    /// The guard for the device `dev`.
    pub fn new(dev: Device) -> (guard: DisableGuard)
        ensures
            guard.device() == dev,
    {
        DisableGuard { dev }
    }

    /// The device that the guard is for.
    pub fn dev(&self) -> (dev: &Device)
        ensures
            *dev == self.device(),
    {
        &self.dev
    }

    /// Disables run-time power management of the device that the guard is
    /// for, which uses the guard up, so that it is done once. `pm` has to be
    /// the state of that device: the depth of disabling then grows by one,
    /// unless it cannot grow any more. For the state of any other device
    /// nothing is done, and the guard comes back with its duty.
    pub fn disable(self, pm: &mut RuntimePm) -> (r: Result<(), DisableGuard>)
        ensures
            self.device() == old(pm).device() ==> r == Ok::<(), DisableGuard>(()),
            self.device() != old(pm).device() ==> r == Err::<(), DisableGuard>(self),
            final(pm).disable_depth() == if self.device() == old(pm).device() {
                depth_after_disable(old(pm).disable_depth())
            } else {
                old(pm).disable_depth()
            },
            final(pm).usage_count() == old(pm).usage_count(),
            final(pm).device() == old(pm).device(),
    {
        if self.dev == pm.dev {
            if pm.disable_depth < u32::MAX {
                pm.disable_depth = pm.disable_depth + 1;
            }
            Ok(())
        } else {
            Err(self)
        }
    }
}

/// Gives up one hold on the device without looking whether it can go idle:
/// the count of users drops by one unless it is zero already.
pub fn put_noidle(pm: &mut RuntimePm)
    ensures
        final(pm).usage_count() == users_after_put(old(pm).usage_count()),
        final(pm).disable_depth() == old(pm).disable_depth(),
        final(pm).device() == old(pm).device(),
{
    if pm.usage_count > 0 {
        pm.usage_count = pm.usage_count - 1;
    }
}

/// Gives up one hold on the device; the power subsystem then looks whether
/// the device can go idle. The count of users drops by one unless it is
/// zero already, whatever the subsystem finds.
pub fn put_sync(pm: &mut RuntimePm)
    ensures
        final(pm).usage_count() == users_after_put(old(pm).usage_count()),
        final(pm).disable_depth() == old(pm).disable_depth(),
        final(pm).device() == old(pm).device(),
{
    if pm.usage_count > 0 {
        pm.usage_count = pm.usage_count - 1;
    }
}

/// Takes the status with which the power subsystem answered the request to
/// resume the device and hold it awake. A negative status is a refusal with
/// that code and leaves the count of users as it was. Any other status adds
/// one user, unless the count cannot grow any more.
pub fn resume_and_get(pm: &mut RuntimePm, status: i32) -> (r: Result<(), Error>)
    ensures
        r == to_result_spec(status),
        final(pm).usage_count() == if status >= 0 {
            users_after_get(old(pm).usage_count())
        } else {
            old(pm).usage_count()
        },
        final(pm).disable_depth() == old(pm).disable_depth(),
        final(pm).device() == old(pm).device(),
{
    let r = to_result(status);
    if status >= 0 && pm.usage_count < u32::MAX {
        pm.usage_count = pm.usage_count + 1;
    }
    r
}

} // verus!

//! Devices, as the subsystems know them.

use vstd::prelude::*;

verus! {

/// A handle to one device. Two handles with the same number stand for the
/// same device.
#[derive(Clone, Copy, Debug, PartialEq, Eq, Structural)]
pub struct Device {
    id: u64,
}

impl Device {
    /// The number of the device that the handle stands for.
    pub closed spec fn spec_id(&self) -> u64 {
        self.id
    }

    /// The handle of the device numbered `id`.
    pub fn new(id: u64) -> (dev: Device)
        ensures
            dev.spec_id() == id,
    {
        Device { id }
    }

    /// Another handle to the device of `dev`.
    pub fn from_dev(dev: &Device) -> (copy: Device)
        ensures
            copy == *dev,
    {
        Device { id: dev.id }
    }

    /// The number of the device.
    pub fn id(&self) -> (id: u64)
        ensures
            id == self.spec_id(),
    {
        self.id
    }
}

} // verus!

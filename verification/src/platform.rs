//! Devices on the platform bus.

use vstd::prelude::*;

verus! {

/// A device on the platform bus: the device itself, and the name under
/// which the bus knows it.
#[derive(Debug)]
pub struct Device {
    dev: crate::device::Device,
    name: String,
}

impl Device {
    /// The device itself.
    pub closed spec fn device(&self) -> crate::device::Device {
        self.dev
    }

    /// The name under which the bus knows the device.
    pub closed spec fn spec_name(&self) -> Seq<char> {
        self.name@
    }

    /// The platform device `dev` with the name `name`.
    pub fn new(dev: crate::device::Device, name: &str) -> (pdev: Device)
        ensures
            pdev.device() == dev,
            pdev.spec_name() == name@,
    {
        Device { dev, name: name.to_owned() }
    }

    /// The device itself.
    pub fn dev(&self) -> (dev: &crate::device::Device)
        ensures
            *dev == self.device(),
    {
        &self.dev
    }

    /// The name under which the bus knows the device.
    pub fn name(&self) -> (name: &str)
        ensures
            name@ == self.spec_name(),
    {
        self.name.as_str()
    }
}

} // verus!

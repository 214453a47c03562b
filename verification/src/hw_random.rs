//! Hardware random number generators: the operations that a driver offers,
//! the callback table through which a registry reaches them, and the life
//! of a registration.

use crate::error::is_errno;
use crate::error::to_result;
use crate::error::to_result_spec;
use crate::error::Error;
use crate::error::EINVAL;
use crate::error::ENXIO;
use vstd::prelude::*;

verus! {

/// Which of the optional callbacks of a driver the callback table offers.
#[derive(Clone, Copy, Debug, PartialEq, Eq, Structural)]
pub struct ToUse {
    /// The initialization callback.
    pub init: bool,
    /// The cleanup callback.
    pub cleanup: bool,
}

impl ToUse {
    /// No optional callback is offered.
    pub fn none() -> (to_use: ToUse)
        ensures
            to_use == (ToUse { init: false, cleanup: false }),
    {
        ToUse { init: false, cleanup: false }
    }
}

/// The operations of a hardware random number generator driver.
pub trait HwrngOperations: Sized {
    /// The optional callbacks that the driver offers.
    const TO_USE: ToUse;

    /// The state of one device, as the callbacks get it.
    type Data;

    /// Prepares the device. A driver that does not offer it leaves it out
    /// of [`HwrngOperations::TO_USE`].
    fn init(_data: &Self::Data) -> (r: Result<(), Error>)
        default_ensures
            r == Err::<(), Error>(Error::Unsupported),
    {
        Err(Error::Unsupported)
    }

    /// Quiesces the device.
    fn cleanup(_data: &Self::Data) {
    }

    /// Fills up to `buffer.len()` bytes of `buffer` with random data and
    /// returns how many were filled. `wait` tells whether the caller
    /// accepts to be suspended.
    fn read(data: &Self::Data, buffer: &mut [u8], wait: bool) -> (r: Result<u32, Error>);
}

/// The callback table that a registry holds for one device. A callback is
/// either offered or absent; the registry never calls an absent one.
pub struct Hwrng<D> {
    /// The name under which the device is known.
    pub name: String,
    /// Whether the initialization callback is offered.
    pub init: bool,
    /// Whether the cleanup callback is offered.
    pub cleanup: bool,
    /// Whether the callback that tells if data is at hand is offered.
    pub data_present: bool,
    /// Whether the callback that reads one word is offered.
    pub data_read: bool,
    /// Whether the callback that reads into a buffer is offered.
    pub read: bool,
    /// The state of the device that the callbacks borrow.
    pub priv_data: Option<D>,
    /// How the registry ranks this source among others.
    pub quality: u16,
}

impl<D> Hwrng<D> {
    /// The table with nothing in it: no name, no callback, no data.
    pub fn empty() -> (hwrng: Self)
        ensures
            hwrng.name@ == Seq::<char>::empty(),
            !hwrng.init,
            !hwrng.cleanup,
            !hwrng.data_present,
            !hwrng.data_read,
            !hwrng.read,
            hwrng.priv_data is None,
            hwrng.quality == 0,
    {
        Hwrng {
            name: String::new(),
            init: false,
            cleanup: false,
            data_present: false,
            data_read: false,
            read: false,
            priv_data: None,
            quality: 0,
        }
    }
}

/// The status that goes back to the registry for the outcome of an
/// initialization: zero for success, the negative code of the failure
/// otherwise.
pub open spec fn spec_init_status(outcome: Result<(), Error>) -> int {
    match outcome {
        Ok(_) => 0,
        Err(e) => e.errno(),
    }
}

/// The status that goes back to the registry for the outcome of a read: the
/// number of bytes for success, the negative code of the failure otherwise.
/// A number of bytes that the status cannot hold counts as an invalid
/// argument.
pub open spec fn spec_read_status(outcome: Result<u32, Error>) -> int {
    match outcome {
        Ok(count) => if count <= i32::MAX {
            count as int
        } else {
            -EINVAL
        },
        Err(e) => e.errno(),
    }
}

/// Maps the outcome of an initialization onto the status for the registry.
pub fn init_status(outcome: Result<(), Error>) -> (status: i32)
    ensures
        status == spec_init_status(outcome),
        status == 0 || is_errno(status as int),
        status == 0 <==> outcome is Ok,
{
    match outcome {
        Ok(_) => 0,
        Err(e) => e.to_kernel_errno(),
    }
}

/// Maps the outcome of a read onto the status for the registry.
pub fn read_status(outcome: Result<u32, Error>) -> (status: i32)
    ensures
        status == spec_read_status(outcome),
        status >= 0 || is_errno(status as int),
        status >= 0 ==> outcome is Ok,
{
    match outcome {
        Ok(count) => {
            if count <= 0x7fff_ffff {
                count as i32
            } else {
                -EINVAL
            }
        },
        Err(e) => e.to_kernel_errno(),
    }
}

/// The entry point of the registry for initialization. It borrows the
/// state of the device from the table, has the driver initialize it and
/// maps the outcome onto a status. Without a state in the table the driver
/// is not called.
pub fn init_callback<T: HwrngOperations>(rng: &Hwrng<T::Data>) -> (status: i32)
    ensures
        status == 0 || is_errno(status as int),
        rng.priv_data is None ==> status == -ENXIO,
        rng.priv_data matches Some(data) ==> exists|outcome: Result<(), Error>|
            call_ensures(T::init, (&data,), outcome) && status == spec_init_status(outcome),
{
    match &rng.priv_data {
        Some(data) => init_status(T::init(data)),
        None => init_status(Err(Error::NotReady)),
    }
}

/// The entry point of the registry for cleanup. It borrows the state of
/// the device from the table and has the driver clean up. Without a state in
/// the table the driver is not called.
pub fn cleanup_callback<T: HwrngOperations>(rng: &Hwrng<T::Data>)
    ensures
        rng.priv_data matches Some(data) ==> call_ensures(T::cleanup, (&data,), ()),
{
    match &rng.priv_data {
        Some(data) => T::cleanup(data),
        None => {},
    }
}

/// The entry point of the registry for reading into `buffer`. It borrows
/// the state of the device from the table, has the driver read into the
/// whole of `buffer` with `wait` as it came, and maps the outcome onto a
/// status: what is in `buffer` afterwards is what the driver left there.
/// Without a state in the table the driver is not called and `buffer` stays
/// as it is.
pub fn read_callback<T: HwrngOperations>(rng: &Hwrng<T::Data>, buffer: &mut [u8], wait: bool) -> (status:
    i32)
    ensures
        status >= 0 || is_errno(status as int),
        rng.priv_data is None ==> status == -ENXIO && final(buffer)@ == old(buffer)@,
        rng.priv_data matches Some(data) ==> exists|outcome: Result<u32, Error>, lent: &mut [u8]|
            call_ensures(T::read, (&data, lent, wait), outcome) && status == spec_read_status(
                outcome,
            ) && lent@ == old(buffer)@ && final(lent)@ == final(buffer)@,
{
    match &rng.priv_data {
        Some(data) => read_status(T::read(data, buffer, wait)),
        None => read_status(Err(Error::NotReady)),
    }
}

/// The registration of one device with a registry.
pub struct Registration<T: HwrngOperations> {
    hwrng: Hwrng<T::Data>,
    registered: bool,
}

impl<T: HwrngOperations> Registration<T> {
    /// The callback table of this registration.
    pub closed spec fn table(&self) -> Hwrng<T::Data> {
        self.hwrng
    }

    /// Whether the registry has accepted this registration and has not been
    /// told to drop it.
    pub closed spec fn is_registered(&self) -> bool {
        self.registered
    }

    /// Fills the callback table `hwrng` for a device of the driver `T`: the
    /// name, the rank and the state of the device, the read callback, and
    /// the optional callbacks that the driver offers. The two callbacks of
    /// the older reading scheme are left out.
    pub fn init_hwrng(hwrng: &mut Hwrng<T::Data>, name: &str, quality: u16, data: T::Data)
        ensures
            final(hwrng).name@ == name@,
            final(hwrng).init == T::TO_USE.init,
            final(hwrng).cleanup == T::TO_USE.cleanup,
            !final(hwrng).data_present,
            !final(hwrng).data_read,
            final(hwrng).read,
            final(hwrng).priv_data == Some(data),
            final(hwrng).quality == quality,
    {
        hwrng.name = name.to_owned();
        hwrng.init = T::TO_USE.init;
        hwrng.cleanup = T::TO_USE.cleanup;
        hwrng.data_present = false;
        hwrng.data_read = false;
        hwrng.read = true;
        hwrng.priv_data = Some(data);
        hwrng.quality = quality;
    }

    /// Makes the registration of a device with the state `data`, with its
    /// callback table filled, on the heap. The registry has not seen it
    /// yet.
    pub fn new_pinned(name: &str, quality: u16, data: T::Data) -> (registration: Box<Self>)
        ensures
            !registration.is_registered(),
            registration.table().name@ == name@,
            registration.table().init == T::TO_USE.init,
            registration.table().cleanup == T::TO_USE.cleanup,
            !registration.table().data_present,
            !registration.table().data_read,
            registration.table().read,
            registration.table().priv_data == Some(data),
            registration.table().quality == quality,
    {
        let mut hwrng = Hwrng::empty();
        Self::init_hwrng(&mut hwrng, name, quality, data);
        Box::new(Registration { hwrng, registered: false })
    }

    /// The callback table, for the registry.
    pub fn hwrng(&self) -> (hwrng: &Hwrng<T::Data>)
        ensures
            *hwrng == self.table(),
    {
        &self.hwrng
    }

    /// Whether the registration is in force.
    pub fn registered(&self) -> (b: bool)
        ensures
            b == self.is_registered(),
    {
        self.registered
    }

    /// Takes the status with which the registry answered the request to
    /// register the callback table. A negative status is a refusal: the
    /// registration is not in force and the failure carries the code. Any
    /// other status puts it in force.
    pub fn register(&mut self, status: i32) -> (r: Result<(), Error>)
        ensures
            r == to_result_spec(status),
            final(self).is_registered() == (old(self).is_registered() || status >= 0),
            final(self).table() == old(self).table(),
    {
        let r = to_result(status);
        if status >= 0 {
            self.registered = true;
        }
        r
    }

    /// Ends the registration once the registry has dropped the callback
    /// table and no callback is running any more. The state of the device
    /// leaves the table and goes back to the caller, who may release it. A
    /// second call finds nothing and changes nothing.
    pub fn unregister(&mut self) -> (data: Option<T::Data>)
        ensures
            data == old(self).table().priv_data,
            !final(self).is_registered(),
            final(self).table() == (Hwrng { priv_data: None, ..old(self).table() }),
    {
        self.registered = false;
        self.hwrng.priv_data.take()
    }
}

} // verus!

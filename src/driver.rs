//! Sources of input devices.
use crate::device::Device;
use vstd::prelude::*;

verus! {

/// Why a driver could not list its devices.
#[derive(Debug, PartialEq, Eq, Structural)]
pub enum Error {
    Unknown,
}

/// Something that can list the input devices present on the system.
pub trait Driver {
    fn get_devices(&self) -> Result<Vec<Box<dyn Device>>, Error>;
}

/// Lists the devices that `driver` finds: whatever the driver reports,
/// devices or error, is handed on as it is.
pub fn get_devices<T: Driver>(driver: &T) -> (r: Result<Vec<Box<dyn Device>>, Error>)
    ensures
        call_ensures(T::get_devices, (driver,), r),
{
    driver.get_devices()
}

} // verus!

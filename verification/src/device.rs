//! Device identifiers: which instance of a device class a query addresses.

use vstd::prelude::*;

verus! {

/// The largest identifier that a device can have.
pub const MAX_DEVICE_ID: u8 = 99;

/// A validated selector of one device instance within its class.
#[derive(Clone, Copy, Debug, PartialEq, Eq, Structural)]
pub struct DeviceId {
    id: u8,
}

/// The number that was refused as a device identifier.
#[derive(Clone, Copy, Debug, PartialEq, Eq, Structural)]
pub struct InvalidDeviceId {
    pub id: u8,
}

impl View for DeviceId {
    type V = int;

    closed spec fn view(&self) -> int {
        self.id as int
    }
}

impl DeviceId {
    #[verifier::type_invariant]
    spec fn in_range(self) -> bool {
        self.id <= MAX_DEVICE_ID
    }

    /// Accepts the numbers up to `MAX_DEVICE_ID` and refuses all others.
    pub fn try_from(id: u8) -> (made: Result<DeviceId, InvalidDeviceId>)
        ensures
            id <= MAX_DEVICE_ID ==> made is Ok && made->Ok_0@ == id,
            id > MAX_DEVICE_ID ==> made == Err::<DeviceId, InvalidDeviceId>(InvalidDeviceId { id }),
    {
        if id <= MAX_DEVICE_ID {
            Ok(DeviceId { id })
        } else {
            Err(InvalidDeviceId { id })
        }
    }

    /// The identifier as a number.
    pub fn get(&self) -> (id: u8)
        ensures
            id == self@,
            id <= MAX_DEVICE_ID,
    {
        proof {
            use_type_invariant(self);
        }
        self.id
    }
}

} // verus!

//! Device ID and revision register.
//!
//! The high byte of the register identifies the device, the low byte gives
//! its revision.

use vstd::prelude::*;

verus! {

/// The device ID that every MCP9808 reports.
pub const VALID_DEVICE_ID: u8 = 0x04;

/// Device ID, the high byte of the register.
#[derive(Debug, PartialEq, PartialOrd, Copy, Clone)]
pub struct DeviceId(pub u8);

/// Device revision, the low byte of the register. The first release is
/// revision `0x00`; the number goes up with each revised release.
#[derive(Debug, PartialEq, PartialOrd, Copy, Clone)]
pub struct DeviceRevision(pub u8);

/// What the device ID and revision register holds.
#[derive(Debug, PartialEq, PartialOrd, Copy, Clone)]
pub struct DeviceInformation {
    /// Device ID
    pub device_id: DeviceId,
    /// Device revision
    pub device_revision: DeviceRevision,
}

impl DeviceId {
    /// True exactly for the device ID of the MCP9808, `0x04`.
    pub fn is_valid(self) -> (valid: bool)
        ensures
            valid <==> self.0 == 0x04,
    {
        self.0 == VALID_DEVICE_ID
    }
}

impl From<[u8; 2]> for DeviceInformation {
    /// Splits the register word into device ID and revision.
    fn from(raw: [u8; 2]) -> (information: Self) {
        DeviceInformation { device_id: DeviceId(raw[0]), device_revision: DeviceRevision(raw[1]) }
    }
}

impl vstd::std_specs::convert::FromSpecImpl<[u8; 2]> for DeviceInformation {
    open spec fn obeys_from_spec() -> bool {
        true
    }

    open spec fn from_spec(raw: [u8; 2]) -> Self {
        DeviceInformation { device_id: DeviceId(raw[0]), device_revision: DeviceRevision(raw[1]) }
    }
}

} // verus!

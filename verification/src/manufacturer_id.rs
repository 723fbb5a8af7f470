//! Manufacturer ID register.

use vstd::prelude::*;

verus! {

/// The manufacturer ID that every MCP9808 reports.
pub const VALID_MANUFACTURER_ID: u16 = 0x0054;

/// Identifies the manufacturer of the device, so that a driver can confirm
/// what it is talking to before it relies on manufacturer-specific behaviour.
#[derive(Debug, PartialEq, PartialOrd, Copy, Clone)]
pub struct ManufacturerId(pub u16);

/// The 16-bit value that a register word holds, most significant byte first.
pub open spec fn big_endian(msb: u8, lsb: u8) -> int {
    msb * 256 + lsb
}

impl ManufacturerId {
    /// True exactly for the manufacturer ID of the MCP9808, `0x0054`.
    pub fn is_valid(self) -> (valid: bool)
        ensures
            valid <==> self.0 == 0x0054,
    {
        self.0 == VALID_MANUFACTURER_ID
    }
}

impl From<[u8; 2]> for ManufacturerId {
    /// Reads the register word as one big-endian number.
    fn from(raw: [u8; 2]) -> (id: Self) {
        let msb: u16 = raw[0] as u16;
        let lsb: u16 = raw[1] as u16;
        assert((msb << 8) | lsb == msb * 256 + lsb) by (bit_vector)
            requires
                msb < 256,
                lsb < 256,
        ;
        ManufacturerId((msb << 8) | lsb)
    }
}

impl vstd::std_specs::convert::FromSpecImpl<[u8; 2]> for ManufacturerId {
    open spec fn obeys_from_spec() -> bool {
        true
    }

    open spec fn from_spec(raw: [u8; 2]) -> Self {
        ManufacturerId(big_endian(raw[0], raw[1]) as u16)
    }
}

} // verus!

//! Bus address of the device.

use vstd::prelude::*;

verus! {

/// The address of a device whose three address pins are all left low.
pub const DEFAULT_ADDRESS: u8 = 0b1_1000;

/// I2C address of the device.
///
/// The upper bits of the seven-bit address are fixed. The lowest three follow
/// the address pins A2, A1 and A0, so up to eight devices can share a bus.
///
/// Two addresses are equal when they select the same device: `Default` and
/// `Alternative` with all pins low are the same address.
#[derive(Debug, Clone, Copy)]
pub enum Address {
    /// Default address `0b1_1000`: all pins are disconnected.
    Default,
    /// Address with the pins A2, A1 and A0 wired as given. The pins are the
    /// three least significant bits of the address.
    Alternative { a2: bool, a1: bool, a0: bool },
}

/// The weight of an address pin: `weight` when the pin is high, else zero.
pub open spec fn pin(high: bool, weight: int) -> int {
    if high {
        weight
    } else {
        0
    }
}

impl Address {
    /// The seven-bit address as a number, `0b1_1000` to `0b1_1111`.
    pub open spec fn value(self) -> int {
        match self {
            Address::Default => 0b1_1000,
            Address::Alternative { a2, a1, a0 } => 0b1_1000 + pin(a2, 4) + pin(a1, 2) + pin(a0, 1),
        }
    }
}

impl From<Address> for u8 {
    /// The seven-bit address to put on the bus.
    fn from(slave_address: Address) -> (address: u8) {
        match slave_address {
            Address::Default => DEFAULT_ADDRESS,
            Address::Alternative { a2, a1, a0 } => {
                let bit2: u8 = if a2 {
                    0b100
                } else {
                    0
                };
                let bit1: u8 = if a1 {
                    0b010
                } else {
                    0
                };
                let bit0: u8 = if a0 {
                    0b001
                } else {
                    0
                };
                assert(0b1_1000u8 | bit2 | bit1 | bit0 == 0b1_1000 + bit2 + bit1 + bit0)
                    by (bit_vector)
                    requires
                        bit2 == 0 || bit2 == 4,
                        bit1 == 0 || bit1 == 2,
                        bit0 == 0 || bit0 == 1,
                ;
                DEFAULT_ADDRESS | bit2 | bit1 | bit0
            },
        }
    }
}

impl vstd::std_specs::convert::FromSpecImpl<Address> for u8 {
    open spec fn obeys_from_spec() -> bool {
        true
    }

    open spec fn from_spec(slave_address: Address) -> u8 {
        slave_address.value() as u8
    }
}

impl PartialEq for Address {
    /// True when both select the same device on the bus.
    fn eq(&self, other: &Self) -> (equal: bool) {
        let lhs: u8 = u8::from(*self);
        let rhs: u8 = u8::from(*other);
        lhs == rhs
    }
}

impl vstd::std_specs::cmp::PartialEqSpecImpl for Address {
    open spec fn obeys_eq_spec() -> bool {
        true
    }

    open spec fn eq_spec(&self, other: &Self) -> bool {
        self.value() == other.value()
    }
}

} // verus!

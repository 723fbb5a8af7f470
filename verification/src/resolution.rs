//! Resolution of the temperature sensor.
//!
//! The resolution register is one byte. Its two lowest bits select the
//! resolution; the six bits above them are reserved, ignored when the
//! register is read and written as zero.

use vstd::prelude::*;
use crate::temperature::Millicelsius;

verus! {

/// Resolution of a measurement. A finer resolution takes the sensor longer
/// to convert.
#[derive(Debug, PartialEq, Eq, Structural, Clone, Copy)]
pub enum Resolution {
    /// +0.5°C (conversion takes 30 ms, typically)
    Deg0_5C,
    /// +0.25°C (conversion takes 65 ms, typically)
    Deg0_25C,
    /// +0.125°C (conversion takes 130 ms, typically)
    Deg0_125C,
    /// +0.0625°C (power-up default; conversion takes 250 ms, typically)
    Deg0_0625C,
}

impl Resolution {
    /// The number that stands for this resolution in the register.
    pub open spec fn value(self) -> int {
        match self {
            Resolution::Deg0_5C => 0,
            Resolution::Deg0_25C => 1,
            Resolution::Deg0_125C => 2,
            Resolution::Deg0_0625C => 3,
        }
    }

    /// The resolution that `n` stands for, if any.
    pub open spec fn of_value(n: int) -> Option<Self> {
        if n == 0 {
            Some(Resolution::Deg0_5C)
        } else if n == 1 {
            Some(Resolution::Deg0_25C)
        } else if n == 2 {
            Some(Resolution::Deg0_125C)
        } else if n == 3 {
            Some(Resolution::Deg0_0625C)
        } else {
            None
        }
    }

    /// The resolution that a register byte selects: its two lowest bits
    /// decide, the rest is ignored.
    pub open spec fn of_word(raw: [u8; 1]) -> Resolution {
        Resolution::of_value(raw[0] as int % 4).unwrap()
    }

    /// The register byte that selects this resolution, reserved bits zero.
    pub open spec fn word(self) -> [u8; 1] {
        [self.value() as u8]
    }

    /// The smallest step between two temperatures at this resolution, in
    /// millicelsius, with half a millicelsius dropped: 500, 250, 125 or 62.
    pub open spec fn step(self) -> int {
        match self {
            Resolution::Deg0_5C => 500,
            Resolution::Deg0_25C => 250,
            Resolution::Deg0_125C => 125,
            Resolution::Deg0_0625C => 62,
        }
    }

    /// The register value of this resolution, `0b00` to `0b11`.
    pub fn to_u8(self) -> (n: u8)
        ensures
            n == self.value(),
            n <= 0b11,
    {
        match self {
            Resolution::Deg0_5C => 0b00,
            Resolution::Deg0_25C => 0b01,
            Resolution::Deg0_125C => 0b10,
            Resolution::Deg0_0625C => 0b11,
        }
    }

    /// The resolution with register value `n`; `None` when `n` is above
    /// `0b11`.
    pub fn from_u8(n: u8) -> (resolution: Option<Self>)
        ensures
            resolution == Self::of_value(n as int),
    {
        match n {
            0b00 => Some(Resolution::Deg0_5C),
            0b01 => Some(Resolution::Deg0_25C),
            0b10 => Some(Resolution::Deg0_125C),
            0b11 => Some(Resolution::Deg0_0625C),
            _ => None,
        }
    }

    /// The quantum of this resolution: the smallest step between two
    /// temperatures that the sensor tells apart. Fraction bits of a
    /// temperature word below the quantum carry no meaning.
    pub fn quantum(self) -> (quantum: Millicelsius)
        ensures
            quantum.0 == self.step(),
    {
        match self {
            Resolution::Deg0_5C => Millicelsius(500),
            Resolution::Deg0_25C => Millicelsius(250),
            Resolution::Deg0_125C => Millicelsius(125),
            Resolution::Deg0_0625C => Millicelsius(62),
        }
    }
}

impl Default for Resolution {
    /// The resolution of a device that has just been powered up, the finest.
    fn default() -> (resolution: Self)
        ensures
            resolution == Resolution::Deg0_0625C,
    {
        Resolution::Deg0_0625C
    }
}

impl From<[u8; 1]> for Resolution {
    /// Reads the resolution out of the register byte.
    fn from(raw: [u8; 1]) -> (resolution: Self) {
        let byte: u8 = raw[0];
        assert(byte & 0b11 == byte % 4) by (bit_vector);
        Resolution::from_u8(byte & 0b11).unwrap()
    }
}

impl vstd::std_specs::convert::FromSpecImpl<[u8; 1]> for Resolution {
    open spec fn obeys_from_spec() -> bool {
        true
    }

    open spec fn from_spec(raw: [u8; 1]) -> Self {
        Resolution::of_word(raw)
    }
}

impl From<Resolution> for [u8; 1] {
    /// The register byte that selects the resolution, reserved bits zero.
    fn from(resolution: Resolution) -> (raw: Self) {
        [resolution.to_u8()]
    }
}

impl vstd::std_specs::convert::FromSpecImpl<Resolution> for [u8; 1] {
    open spec fn obeys_from_spec() -> bool {
        true
    }

    open spec fn from_spec(resolution: Resolution) -> Self {
        resolution.word()
    }
}

/// Reading the byte written for a resolution gives that resolution back, and
/// the byte written has its six reserved bits zero.
pub proof fn lemma_resolution_round_trip(resolution: Resolution)
    ensures
        resolution.word()[0] < 4,
        Resolution::of_word(resolution.word()) == resolution,
{
    let word: [u8; 1] = resolution.word();
    assert(word[0] == resolution.value());
}

/// Writing the resolution read from a byte gives the byte back, but for the
/// six reserved bits.
pub proof fn lemma_resolution_word_round_trip(raw: [u8; 1])
    ensures
        Resolution::of_word(raw).word() == [(raw[0] % 4) as u8],
{
    let word: [u8; 1] = Resolution::of_word(raw).word();
    assert(word[0] == raw[0] % 4);
}

} // verus!

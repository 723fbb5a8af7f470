//! Ambient, critical, upper and lower temperature.
//!
//! All four temperature registers hold one 16-bit word of the same layout,
//! high byte first:
//!
//! | byte | bits | content                                             |
//! |------|------|-----------------------------------------------------|
//! | 0    | 7    | ambient ≥ critical limit (ambient register only)    |
//! | 0    | 6    | ambient > upper limit (ambient register only)       |
//! | 0    | 5    | ambient < lower limit (ambient register only)       |
//! | 0    | 4    | sign                                                |
//! | 0    | 3..0 | whole degrees, high nibble                          |
//! | 1    | 7..4 | whole degrees, low nibble                           |
//! | 1    | 3..0 | fraction, in steps of 0.0625°C                      |
//!
//! The whole degrees are an eight-bit magnitude. With the sign bit set the
//! temperature is that magnitude less 256 degrees, plus the fraction.
//!
//! Reading and writing do not take the same step. Reading takes one step of
//! the fraction as 62.5 millicelsius and drops half a millicelsius; writing
//! counts whole steps of 62 millicelsius. The two agree on every temperature
//! that a word can hold: [`lemma_read_temperature_is_written_exactly`]. Any
//! other is written as a temperature nearby, up to 61 millicelsius below it
//! or up to 7 above: [`lemma_written_temperature_is_near`]. That bound ends
//! where the fraction reaches 992 millicelsius, which counts a sixteenth
//! step that the fraction nibble cannot hold: [`lemma_low_byte_by_steps`].

use vstd::prelude::*;
use vstd::std_specs::convert::FromSpec;

verus! {

/// Bit of the high byte that reports ambient ≥ critical limit.
pub const ALERT_CRITICAL_BIT: u8 = 0b1000_0000;

/// Bit of the high byte that reports ambient > upper limit.
pub const ALERT_UPPER_BIT: u8 = 0b0100_0000;

/// Bit of the high byte that reports ambient < lower limit.
pub const ALERT_LOWER_BIT: u8 = 0b0010_0000;

/// Bit of the high byte that holds the sign.
pub const TEMPERATURE_SIGN_BIT: u8 = 0b0001_0000;

/// Width, in millicelsius, of the range that a register word can tell apart.
pub const REGISTER_SPAN: i32 = 256_000;

/// The whole degrees that a word holds, before the sign is applied: 0 to 255.
pub open spec fn word_degrees(msb: u8, lsb: u8) -> int {
    (msb as int % 16) * 16 + lsb as int / 16
}

/// The fraction that a word holds, in millicelsius. One step is 62.5
/// millicelsius; half a millicelsius is dropped, so the sixteen possible
/// values are 0, 62, 125, 187, 250, and so on up to 937.
pub open spec fn word_fraction(lsb: u8) -> int {
    (lsb as int % 16) * 625 / 10
}

/// True when the sign bit of a word is set.
pub open spec fn word_is_negative(msb: u8) -> bool {
    msb as int / 16 % 2 == 1
}

/// The temperature that a word holds, in millicelsius. The three alert bits
/// take no part in it.
pub open spec fn word_millicelsius(msb: u8, lsb: u8) -> int {
    if word_is_negative(msb) {
        (word_degrees(msb, lsb) - 256) * 1000 + word_fraction(lsb)
    } else {
        word_degrees(msb, lsb) * 1000 + word_fraction(lsb)
    }
}

/// True when a word of the ambient register reports ambient ≥ critical limit.
pub open spec fn word_is_critical(msb: u8) -> bool {
    msb as int / 128 % 2 == 1
}

/// True when a word of the ambient register reports ambient > upper limit.
pub open spec fn word_is_upper(msb: u8) -> bool {
    msb as int / 64 % 2 == 1
}

/// True when a word of the ambient register reports ambient < lower limit.
pub open spec fn word_is_lower(msb: u8) -> bool {
    msb as int / 32 % 2 == 1
}

/// A temperature brought into the range that a word can tell apart,
/// `0 <= wrapped(value) < 256_000`. Temperatures that differ by a multiple
/// of 256 degrees wrap to the same value.
pub open spec fn wrapped(value: int) -> int {
    (value + 256_000) % 256_000
}

/// The high byte of the word written for a temperature: the high nibble of
/// the wrapped whole degrees, and the sign bit when the temperature itself
/// is below zero. The alert bits are never set.
pub open spec fn millicelsius_msb(value: int) -> int {
    wrapped(value) / 1000 / 16 + if value < 0 {
        16int
    } else {
        0int
    }
}

/// The low byte of the word written for a temperature: the low nibble of the
/// wrapped whole degrees in bits 7 to 4, combined by bitwise or with the
/// number of whole 62-millicelsius steps in the fraction.
///
/// A fraction of 992 millicelsius or more counts sixteen steps, which do not
/// fit the low nibble: the sixteenth sets bit 4.
pub open spec fn millicelsius_lsb(value: int) -> u8 {
    (((wrapped(value) / 1000 % 16) * 16) as u8) | ((wrapped(value) % 1000 / 62) as u8)
}

/// Wrapping brings every temperature into `0..256_000` and changes it by a
/// multiple of 256 degrees only.
pub proof fn lemma_wrapped_range(value: int)
    ensures
        0 <= wrapped(value) < 256_000,
        wrapped(value) == value % 256_000,
        -256_000 <= value < 0 ==> wrapped(value) == value + 256_000,
        0 <= value < 256_000 ==> wrapped(value) == value,
{
}

/// Temperature in thousandths of a degree Celsius.
#[derive(Debug, PartialOrd, PartialEq, Copy, Clone)]
pub struct Millicelsius(pub i32);

impl Millicelsius {
    /// The temperature that a register word holds.
    pub open spec fn of_word(raw: [u8; 2]) -> Millicelsius {
        Millicelsius(word_millicelsius(raw[0], raw[1]) as i32)
    }

    /// The register word written for this temperature.
    pub open spec fn word(self) -> [u8; 2] {
        [millicelsius_msb(self.0 as int) as u8, millicelsius_lsb(self.0 as int)]
    }
}

impl From<[u8; 2]> for Millicelsius {
    /// Reads the temperature out of a register word, high byte first.
    /// Every word holds a temperature, from -256000 to 255937 millicelsius.
    fn from(raw: [u8; 2]) -> (temperature: Self)
        ensures
            -256_000 <= temperature.0 <= 255_937,
    {
        let msb: u8 = raw[0];
        let lsb: u8 = raw[1];
        assert({
            &&& ((msb & 0xF) << 4) | (lsb >> 4) == (msb % 16) * 16 + lsb / 16
            &&& lsb & 0xF == lsb % 16
            &&& (msb & 0b0001_0000 != 0) == (msb / 16 % 2 == 1)
        }) by (bit_vector);
        let degrees: u8 = ((msb & 0xF) << 4) | (lsb >> 4);
        let steps: u8 = lsb & 0xF;
        let fraction: i32 = (steps as i32) * 625 / 10;
        let mut celsius: i32 = degrees as i32;
        if msb & TEMPERATURE_SIGN_BIT != 0 {
            celsius = celsius - 256;
        }
        Millicelsius(celsius * 1_000 + fraction)
    }
}

impl vstd::std_specs::convert::FromSpecImpl<[u8; 2]> for Millicelsius {
    open spec fn obeys_from_spec() -> bool {
        true
    }

    open spec fn from_spec(raw: [u8; 2]) -> Self {
        Millicelsius::of_word(raw)
    }
}

impl From<Millicelsius> for [u8; 2] {
    /// Builds the register word for a temperature, high byte first.
    ///
    /// No temperature is refused. One outside -256000..256000 millicelsius
    /// is written as the temperature inside 0..256000 that differs from it
    /// by a multiple of 256 degrees, with the sign bit of the temperature
    /// that was given.
    fn from(temperature: Millicelsius) -> (raw: Self)
        ensures
            raw[0] < 32,
            temperature.0 < 0 <==> raw[0] >= 16,
    {
        let value: i32 = temperature.0;
        proof {
            lemma_wrapped_range(value as int);
        }
        let write_value: i32 = value.checked_rem_euclid(REGISTER_SPAN).unwrap();
        let integer: u8 = (write_value / 1_000) as u8;
        let steps: u8 = (write_value % 1_000 / 62) as u8;
        assert({
            &&& (integer >> 4) & 0xF == integer / 16
            &&& ((integer >> 4) & 0xF) | 0b0001_0000 == integer / 16 + 16
            &&& (integer & 0xF) << 4 == (integer % 16) * 16
        }) by (bit_vector);
        let mut msb: u8 = (integer >> 4) & 0xF;
        if value < 0 {
            msb = msb | TEMPERATURE_SIGN_BIT;
        }
        let lsb: u8 = ((integer & 0xF) << 4) | steps;
        [msb, lsb]
    }
}

impl vstd::std_specs::convert::FromSpecImpl<Millicelsius> for [u8; 2] {
    open spec fn obeys_from_spec() -> bool {
        true
    }

    open spec fn from_spec(temperature: Millicelsius) -> Self {
        temperature.word()
    }
}

/// A unit in which a temperature register can be read or written.
pub trait TemperatureUnit {}

impl TemperatureUnit for Millicelsius {}

/// A reading of the ambient temperature register: the temperature together
/// with the three alert flags that the register carries. The flags are
/// independent of each other.
#[derive(Debug, PartialOrd, PartialEq)]
pub struct TemperatureMeasurement<Unit> where Unit: TemperatureUnit {
    /// Ambient temperature
    pub temperature: Unit,
    /// Ambient temperature is greater than or equal to the critical limit
    pub is_critical: bool,
    /// Ambient temperature is greater than the upper limit
    pub is_upper: bool,
    /// Ambient temperature is lower than the lower limit
    pub is_lower: bool,
}

impl<Unit> Copy for TemperatureMeasurement<Unit> where Unit: TemperatureUnit + Copy {}

impl<Unit> Clone for TemperatureMeasurement<Unit> where Unit: TemperatureUnit + Copy {
    fn clone(&self) -> (copy: Self)
        ensures
            copy == *self,
    {
        *self
    }
}

impl<Unit> From<[u8; 2]> for TemperatureMeasurement<Unit> where
    Unit: From<[u8; 2]> + TemperatureUnit,
{
    /// Reads a word of the ambient temperature register: the temperature as
    /// `Unit` reads it, and one flag for each of the three alert bits.
    fn from(raw: [u8; 2]) -> (measurement: Self)
        ensures
            measurement.is_critical == word_is_critical(raw[0]),
            measurement.is_upper == word_is_upper(raw[0]),
            measurement.is_lower == word_is_lower(raw[0]),
    {
        let msb: u8 = raw[0];
        assert({
            &&& (msb & 0b1000_0000 != 0) == (msb / 128 % 2 == 1)
            &&& (msb & 0b0100_0000 != 0) == (msb / 64 % 2 == 1)
            &&& (msb & 0b0010_0000 != 0) == (msb / 32 % 2 == 1)
        }) by (bit_vector);
        TemperatureMeasurement {
            temperature: Unit::from(raw),
            is_critical: msb & ALERT_CRITICAL_BIT != 0,
            is_upper: msb & ALERT_UPPER_BIT != 0,
            is_lower: msb & ALERT_LOWER_BIT != 0,
        }
    }
}

impl<Unit> vstd::std_specs::convert::FromSpecImpl<[u8; 2]> for TemperatureMeasurement<Unit> where
    Unit: From<[u8; 2]> + TemperatureUnit,
{
    open spec fn obeys_from_spec() -> bool {
        Unit::obeys_from_spec()
    }

    open spec fn from_spec(raw: [u8; 2]) -> Self {
        TemperatureMeasurement {
            temperature: Unit::from_spec(raw),
            is_critical: word_is_critical(raw[0]),
            is_upper: word_is_upper(raw[0]),
            is_lower: word_is_lower(raw[0]),
        }
    }
}

/// The two bytes written for the temperature that a word holds: the word's
/// own, but for the alert bits of the high byte.
pub proof fn lemma_written_bytes_of_word(msb: u8, lsb: u8)
    ensures
        wrapped(word_millicelsius(msb, lsb)) == word_degrees(msb, lsb) * 1000 + word_fraction(lsb),
        millicelsius_msb(word_millicelsius(msb, lsb)) == msb % 32,
        millicelsius_lsb(word_millicelsius(msb, lsb)) == lsb,
{
    let value: int = word_millicelsius(msb, lsb);
    let degrees: int = word_degrees(msb, lsb);
    let fraction: int = word_fraction(lsb);
    let steps: u8 = (lsb % 16) as u8;
    assert(0 <= degrees < 256);
    assert(fraction / 62 == steps) by {
        assert((steps * 625 / 10) / 62 == steps) by (bit_vector)
            requires
                steps < 16,
        ;
    }
    assert(0 <= fraction < 1000);
    assert(wrapped(value) == degrees * 1000 + fraction);
    assert(wrapped(value) / 1000 == degrees);
    assert(wrapped(value) % 1000 == fraction);
    assert(degrees / 16 == msb % 16);
    assert(degrees % 16 == lsb / 16);
    assert(millicelsius_msb(value) == msb % 32);
    assert((((lsb / 16) * 16) as u8) | ((lsb % 16) as u8) == lsb) by (bit_vector);
    assert(millicelsius_lsb(value) == lsb);
}

/// Writing a temperature that was read from a word gives the word back, but
/// for the three alert bits, which are never written. This holds for every
/// word, whatever its fraction.
///
/// So a word with its alert bits clear, as the limit registers hold it,
/// survives reading and writing unchanged.
pub proof fn lemma_temperature_round_trip(raw: [u8; 2])
    ensures
        Millicelsius::of_word(raw).word() == [(raw[0] % 32) as u8, raw[1]],
        raw[0] < 32 ==> Millicelsius::of_word(raw).word() == raw,
{
    lemma_written_bytes_of_word(raw[0], raw[1]);
    let written: [u8; 2] = Millicelsius::of_word(raw).word();
    assert(written[0] == raw[0] % 32 && written[1] == raw[1]);
}

/// The alert bits take no part in the temperature: a word reads the same
/// with them cleared.
pub proof fn lemma_alert_bits_are_not_read(msb: u8, lsb: u8)
    ensures
        word_millicelsius((msb % 32) as u8, lsb) == word_millicelsius(msb, lsb),
{
    let cleared: u8 = (msb % 32) as u8;
    assert(cleared % 16 == msb % 16);
    assert(cleared / 16 % 2 == msb / 16 % 2);
}

/// A temperature that was read from a word is written exactly: reading the
/// written word gives the same temperature again.
pub proof fn lemma_read_temperature_is_written_exactly(raw: [u8; 2])
    ensures
        Millicelsius::of_word(Millicelsius::of_word(raw).word()) == Millicelsius::of_word(raw),
{
    lemma_temperature_round_trip(raw);
    lemma_alert_bits_are_not_read(raw[0], raw[1]);
    let written: [u8; 2] = Millicelsius::of_word(raw).word();
    assert(written[0] == (raw[0] % 32) as u8 && written[1] == raw[1]);
}

/// Where the fraction counts fewer than sixteen steps, the low byte is the
/// low nibble of the whole degrees followed by the steps: below 992
/// millicelsius of fraction the bitwise or adds up like a sum.
///
/// Where it counts sixteen, the sixteenth step is bit 4. That bit is the
/// lowest of the whole degrees: the byte reads one degree more where the
/// degrees are even, and the same degrees where they are odd, always with a
/// fraction of zero.
pub proof fn lemma_low_byte_by_steps(value: int)
    ensures
        wrapped(value) % 1000 < 992 ==> millicelsius_lsb(value) == (wrapped(value) / 1000 % 16) * 16
            + wrapped(value) % 1000 / 62,
        wrapped(value) % 1000 >= 992 && wrapped(value) / 1000 % 2 == 0 ==> millicelsius_lsb(value)
            == (wrapped(value) / 1000 % 16) * 16 + 16,
        wrapped(value) % 1000 >= 992 && wrapped(value) / 1000 % 2 == 1 ==> millicelsius_lsb(value)
            == (wrapped(value) / 1000 % 16) * 16,
{
    let nibble: u8 = (wrapped(value) / 1000 % 16) as u8;
    let steps: u8 = (wrapped(value) % 1000 / 62) as u8;
    assert({
        &&& steps < 16 ==> ((nibble * 16) as u8) | steps == nibble * 16 + steps
        &&& steps == 16 && nibble % 2 == 0 ==> ((nibble * 16) as u8) | steps == nibble * 16 + 16
        &&& steps == 16 && nibble % 2 == 1 ==> ((nibble * 16) as u8) | steps == nibble * 16
    }) by (bit_vector)
        requires
            nibble < 16,
            steps <= 16,
    ;
}

/// Reading what was written gives a temperature near the one given, as long
/// as the fraction is below 992 millicelsius: at most 61 millicelsius lower
/// and at most 7 higher.
///
/// A temperature outside `-256_000..256_000` is near the one it wraps to:
/// the temperature in `0..256_000` where it is not below zero, and the one
/// in `-256_000..0` where it is.
pub proof fn lemma_written_temperature_is_near(value: int)
    requires
        wrapped(value) % 1000 < 992,
    ensures
        ({
            let read = word_millicelsius(millicelsius_msb(value) as u8, millicelsius_lsb(value));
            let given = if value < 0 {
                wrapped(value) - 256_000
            } else {
                wrapped(value)
            };
            &&& given - 61 <= read <= given + 7
            &&& -256_000 <= value < 256_000 ==> given == value
        }),
{
    lemma_wrapped_range(value);
    lemma_low_byte_by_steps(value);
    let degrees: int = wrapped(value) / 1000;
    let fraction: int = wrapped(value) % 1000;
    let steps: int = fraction / 62;
    let msb: u8 = millicelsius_msb(value) as u8;
    let lsb: u8 = millicelsius_lsb(value);
    assert(0 <= degrees < 256);
    assert(0 <= steps < 16);
    assert(lsb == (degrees % 16) * 16 + steps);
    assert(lsb / 16 == degrees % 16 && lsb % 16 == steps);
    assert(msb % 16 == degrees / 16);
    assert(word_degrees(msb, lsb) == degrees);
    assert(word_is_negative(msb) == (value < 0));
    assert(word_fraction(lsb) == steps * 625 / 10);
    assert(62 * steps <= fraction <= 62 * steps + 61);
    assert(62 * steps <= steps * 625 / 10 <= 62 * steps + 7);
}

} // verus!

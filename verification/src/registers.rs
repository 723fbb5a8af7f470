//! The register map of the device.

use vstd::prelude::*;

verus! {

/// The registers of the MCP9808.
///
/// | register                      | address  | bytes | access     |
/// |-------------------------------|----------|-------|------------|
/// | `ConfigurationRegister`       | `0b0001` | 2     | read/write |
/// | `UpperTemperatureRegister`    | `0b0010` | 2     | read/write |
/// | `LowerTemperatureRegister`    | `0b0011` | 2     | read/write |
/// | `CriticalTemperatureRegister` | `0b0100` | 2     | read/write |
/// | `AmbientTemperatureRegister`  | `0b0101` | 2     | read only  |
/// | `ManufacturerIdRegister`      | `0b0110` | 2     | read only  |
/// | `DeviceIdRevisionRegister`    | `0b0111` | 2     | read only  |
/// | `ResolutionRegister`          | `0b1000` | 1     | read/write |
#[derive(Debug, PartialEq, Eq, Structural, Clone, Copy)]
pub enum Register {
    /// Configuration register (CONFIG): the sixteen-bit word that holds the
    /// settings of the temperature monitor.
    ConfigurationRegister,
    /// Alert temperature upper boundary trip register (T_UPPER).
    /// Power-up default is 0°C.
    UpperTemperatureRegister,
    /// Alert temperature lower boundary trip register (T_LOWER).
    /// Power-up default is 0°C.
    LowerTemperatureRegister,
    /// Critical temperature trip register (T_CRIT).
    /// Power-up default is 0°C.
    CriticalTemperatureRegister,
    /// Ambient temperature register (T_A).
    AmbientTemperatureRegister,
    /// Manufacturer ID register.
    ManufacturerIdRegister,
    /// Device ID and revision register: the upper byte identifies the device,
    /// the lower byte gives its revision.
    DeviceIdRevisionRegister,
    /// Temperature resolution register.
    /// Power-up default is +0.0625°C.
    ResolutionRegister,
}

impl Register {
    /// The pointer value that selects this register.
    pub open spec fn pointer(self) -> int {
        match self {
            Register::ConfigurationRegister => 0b0001,
            Register::UpperTemperatureRegister => 0b0010,
            Register::LowerTemperatureRegister => 0b0011,
            Register::CriticalTemperatureRegister => 0b0100,
            Register::AmbientTemperatureRegister => 0b0101,
            Register::ManufacturerIdRegister => 0b0110,
            Register::DeviceIdRevisionRegister => 0b0111,
            Register::ResolutionRegister => 0b1000,
        }
    }

    /// The number of bytes that this register holds.
    pub open spec fn width(self) -> int {
        if self == Register::ResolutionRegister {
            1
        } else {
            2
        }
    }

    /// True for the registers that the device lets a driver write.
    pub open spec fn writable(self) -> bool {
        match self {
            Register::ConfigurationRegister => true,
            Register::UpperTemperatureRegister => true,
            Register::LowerTemperatureRegister => true,
            Register::CriticalTemperatureRegister => true,
            Register::AmbientTemperatureRegister => false,
            Register::ManufacturerIdRegister => false,
            Register::DeviceIdRevisionRegister => false,
            Register::ResolutionRegister => true,
        }
    }

    /// The pointer value that selects this register.
    pub fn address(self) -> (address: u8)
        ensures
            address == self.pointer(),
    {
        match self {
            Register::ConfigurationRegister => 0b0001,
            Register::UpperTemperatureRegister => 0b0010,
            Register::LowerTemperatureRegister => 0b0011,
            Register::CriticalTemperatureRegister => 0b0100,
            Register::AmbientTemperatureRegister => 0b0101,
            Register::ManufacturerIdRegister => 0b0110,
            Register::DeviceIdRevisionRegister => 0b0111,
            Register::ResolutionRegister => 0b1000,
        }
    }

    /// The number of bytes that this register holds: one for the resolution
    /// register, two for every other.
    pub fn size(self) -> (size: usize)
        ensures
            size == self.width(),
    {
        match self {
            Register::ResolutionRegister => 1,
            _ => 2,
        }
    }

    /// True for the registers that can be written: all but the ambient
    /// temperature, the manufacturer ID and the device ID and revision.
    pub fn is_writable(self) -> (writable: bool)
        ensures
            writable == self.writable(),
    {
        match self {
            Register::AmbientTemperatureRegister => false,
            Register::ManufacturerIdRegister => false,
            Register::DeviceIdRevisionRegister => false,
            _ => true,
        }
    }
}

impl From<Register> for u8 {
    /// The pointer value that selects the register.
    fn from(register: Register) -> (address: u8) {
        register.address()
    }
}

impl vstd::std_specs::convert::FromSpecImpl<Register> for u8 {
    open spec fn obeys_from_spec() -> bool {
        true
    }

    open spec fn from_spec(register: Register) -> u8 {
        register.pointer() as u8
    }
}

} // verus!

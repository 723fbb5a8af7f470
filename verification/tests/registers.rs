use mcp9808::interface::write_payload;
use mcp9808::registers::Register;

const ALL: [Register; 8] = [
    Register::ConfigurationRegister,
    Register::UpperTemperatureRegister,
    Register::LowerTemperatureRegister,
    Register::CriticalTemperatureRegister,
    Register::AmbientTemperatureRegister,
    Register::ManufacturerIdRegister,
    Register::DeviceIdRevisionRegister,
    Register::ResolutionRegister,
];

#[test]
fn registers_have_their_pointer_values() {
    assert_eq!(0b0001, Register::ConfigurationRegister.address());
    assert_eq!(0b0010, Register::UpperTemperatureRegister.address());
    assert_eq!(0b0011, Register::LowerTemperatureRegister.address());
    assert_eq!(0b0100, Register::CriticalTemperatureRegister.address());
    assert_eq!(0b0101, Register::AmbientTemperatureRegister.address());
    assert_eq!(0b0110, Register::ManufacturerIdRegister.address());
    assert_eq!(0b0111, Register::DeviceIdRevisionRegister.address());
    assert_eq!(0b1000, Register::ResolutionRegister.address());
}

#[test]
fn register_converts_into_its_pointer_value() {
    for register in ALL {
        let pointer: u8 = register.into();
        assert_eq!(register.address(), pointer);
    }
    assert_eq!(0b0101u8, Register::AmbientTemperatureRegister.into());
}

#[test]
fn only_the_resolution_register_is_one_byte_wide() {
    for register in ALL {
        let expected = if register == Register::ResolutionRegister { 1 } else { 2 };
        assert_eq!(expected, register.size());
    }
}

#[test]
fn measurement_and_identification_registers_are_read_only() {
    assert!(Register::ConfigurationRegister.is_writable());
    assert!(Register::UpperTemperatureRegister.is_writable());
    assert!(Register::LowerTemperatureRegister.is_writable());
    assert!(Register::CriticalTemperatureRegister.is_writable());
    assert!(!Register::AmbientTemperatureRegister.is_writable());
    assert!(!Register::ManufacturerIdRegister.is_writable());
    assert!(!Register::DeviceIdRevisionRegister.is_writable());
    assert!(Register::ResolutionRegister.is_writable());
}

#[test]
fn write_payload_is_the_pointer_followed_by_the_bytes() {
    assert_eq!(
        vec![0b0001, 0b0000_0110, 0b1000_0001],
        write_payload(Register::ConfigurationRegister, &[0b0000_0110, 0b1000_0001])
    );
    assert_eq!(
        vec![0b0100, 0x01, 0x94],
        write_payload(Register::CriticalTemperatureRegister, &[0x01, 0x94])
    );
    assert_eq!(
        vec![0b1000, 0b11],
        write_payload(Register::ResolutionRegister, &[0b11])
    );
}

#[test]
fn write_payload_of_no_bytes_is_the_pointer_alone() {
    assert_eq!(vec![0b0010], write_payload(Register::UpperTemperatureRegister, &[]));
}

#[test]
fn write_payload_keeps_every_byte_in_order() {
    let bytes: Vec<u8> = (0u8..=255).collect();
    let payload = write_payload(Register::LowerTemperatureRegister, &bytes);
    assert_eq!(257, payload.len());
    assert_eq!(0b0011, payload[0]);
    assert_eq!(bytes[..], payload[1..]);
}

use mcp9808::resolution::Resolution;
use mcp9808::temperature::Millicelsius;

#[test]
fn resolution_is_read_from_the_two_lowest_bits() {
    assert_eq!(Resolution::Deg0_5C, Resolution::from([0b00]));
    assert_eq!(Resolution::Deg0_25C, Resolution::from([0b01]));
    assert_eq!(Resolution::Deg0_125C, Resolution::from([0b10]));
    assert_eq!(Resolution::Deg0_0625C, Resolution::from([0b11]));
}

#[test]
fn reserved_bits_are_ignored_when_reading() {
    assert_eq!(Resolution::Deg0_5C, Resolution::from([0b1111_1100]));
    assert_eq!(Resolution::Deg0_25C, Resolution::from([0b1000_0001]));
    assert_eq!(Resolution::Deg0_125C, Resolution::from([0b0000_0110]));
    assert_eq!(Resolution::Deg0_0625C, Resolution::from([0b1111_1111]));
    for byte in 0u8..=255 {
        assert_eq!(Resolution::from([byte & 0b11]), Resolution::from([byte]));
    }
}

#[test]
fn resolution_is_written_with_reserved_bits_zero() {
    let raw: [u8; 1] = Resolution::Deg0_5C.into();
    assert_eq!([0b00], raw);
    let raw: [u8; 1] = Resolution::Deg0_25C.into();
    assert_eq!([0b01], raw);
    let raw: [u8; 1] = Resolution::Deg0_125C.into();
    assert_eq!([0b10], raw);
    let raw: [u8; 1] = Resolution::Deg0_0625C.into();
    assert_eq!([0b11], raw);
}

#[test]
fn resolution_survives_writing_and_reading() {
    for resolution in [
        Resolution::Deg0_5C,
        Resolution::Deg0_25C,
        Resolution::Deg0_125C,
        Resolution::Deg0_0625C,
    ] {
        let raw: [u8; 1] = resolution.into();
        assert_eq!(resolution, Resolution::from(raw));
        assert_eq!(Some(resolution), Resolution::from_u8(resolution.to_u8()));
    }
}

#[test]
fn resolution_values_above_three_stand_for_nothing() {
    assert_eq!(None, Resolution::from_u8(4));
    assert_eq!(None, Resolution::from_u8(0b1000_0011));
}

#[test]
fn quantum_of_each_resolution() {
    assert_eq!(Millicelsius(500), Resolution::Deg0_5C.quantum());
    assert_eq!(Millicelsius(250), Resolution::Deg0_25C.quantum());
    assert_eq!(Millicelsius(125), Resolution::Deg0_125C.quantum());
    assert_eq!(Millicelsius(62), Resolution::Deg0_0625C.quantum());
}

#[test]
fn quantum_is_the_lowest_fraction_bit_that_the_resolution_keeps() {
    assert_eq!(Millicelsius::from([0, 0b1000]), Resolution::Deg0_5C.quantum());
    assert_eq!(Millicelsius::from([0, 0b0100]), Resolution::Deg0_25C.quantum());
    assert_eq!(Millicelsius::from([0, 0b0010]), Resolution::Deg0_125C.quantum());
    assert_eq!(Millicelsius::from([0, 0b0001]), Resolution::Deg0_0625C.quantum());
}

#[test]
fn power_up_resolution_is_the_finest() {
    assert_eq!(Resolution::Deg0_0625C, Resolution::default());
}

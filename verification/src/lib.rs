//! Verified core of a driver for the MCP9808 digital temperature sensor.
//!
//! The sensor is read and written through a handful of fixed-width registers.
//! This crate holds the part of a driver that can be reasoned about without a
//! bus: the conversion between raw register words and typed values, and the
//! rules the device enforces when its configuration is changed.
//!
//! * [`temperature`] reads and writes the words of the four temperature
//!   registers, alert flags included.
//! * [`resolution`] reads and writes the resolution register.
//! * [`configuration`] packs the ten settings of the configuration register
//!   into its word and unpacks them again.
//! * [`builder`] checks a change of configuration against the interlocks of
//!   the device before it is written.
//! * [`manufacturer_id`] and [`device_information`] read the two
//!   identification registers.
//! * [`address`], [`registers`] and [`interface`] say where the device and
//!   its registers are found on the bus and how a write to one is framed.
//!
//! A register word is a plain byte array, high byte first. Nothing here
//! touches a bus: a driver reads the bytes, hands them over, and sends the
//! bytes it gets back.

pub mod address;
pub mod builder;
pub mod configuration;
pub mod device_information;
pub mod interface;
pub mod manufacturer_id;
pub mod registers;
pub mod resolution;
pub mod temperature;

pub use crate::address::Address;
pub use crate::address::Address as SlaveAddress;

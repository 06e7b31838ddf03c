//! A platform agnostic driver to interface with the L3GD20 triaxial
//! gyroscope over its 4-wire SPI interface.
//!
//! The driver is generic over a bus transport ([`SpiBus`]) and a
//! chip-select line ([`ChipSelect`]); the host environment supplies
//! implementations of both.  Everything the driver itself computes —
//! register addresses, transaction framing, bit-field encoding and
//! decoding, sample reconstruction — is verified.

pub mod codec;
pub mod config;
pub mod driver;
pub mod registers;
pub mod transport;

pub use codec::decode_axes;
pub use codec::decode_i16;
pub use codec::decode_i8;
pub use codec::decode_measurements;
pub use codec::I16x3;
pub use codec::Measurements;
pub use codec::Status;
pub use config::apply_field;
pub use config::decode_field;
pub use config::BitValue;
pub use config::Bandwidth;
pub use config::Odr;
pub use config::Scale;
pub use driver::control_byte;
pub use driver::L3gd20;
pub use driver::MULTI;
pub use driver::READ;
pub use driver::SINGLE;
pub use driver::WRITE;
pub use registers::Register;
pub use transport::BusHistory;
pub use transport::ChipSelect;
pub use transport::SpiBus;

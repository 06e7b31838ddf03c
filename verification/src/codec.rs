//! Decoding of raw sample buffers: signed 16-bit axis readings
//! reconstructed from little-endian byte pairs, the signed 8-bit
//! temperature, and the status flag byte.

use vstd::prelude::*;

verus! {

/// The signed 16-bit reading held by a little-endian byte pair,
/// interpreted as two's complement.
pub open spec fn spec_i16_from_bytes(lo: u8, hi: u8) -> int {
    if lo + 256 * hi < 32768 {
        lo + 256 * hi
    } else {
        lo + 256 * hi - 65536
    }
}

/// The signed 8-bit reading held by one byte, interpreted as two's
/// complement.
pub open spec fn spec_i8_from_byte(byte: u8) -> int {
    if byte < 128 {
        byte as int
    } else {
        byte - 256
    }
}

/// Whether bit `bit` of `byte` is set.
pub open spec fn spec_bit_set(byte: u8, bit: u8) -> bool {
    byte & (1u8 << bit) != 0
}

/// Reconstructs a signed 16-bit reading from its low and high byte.
pub fn decode_i16(lo: u8, hi: u8) -> (r: i16)
    ensures
        r as int == spec_i16_from_bytes(lo, hi),
{
    let l: u16 = lo as u16;
    let h: u16 = hi as u16;
    assert(l + (h << 8) < 65536 && (h << 8) == 256 * h) by (bit_vector)
        requires
            l < 256 && h < 256,
    ;
    let word: u16 = l + (h << 8);
    assert(word as i16 as int == if word < 32768 {
        word as int
    } else {
        word as int - 65536
    }) by (bit_vector);
    word as i16
}

/// Reinterprets a register byte as a signed 8-bit reading.
pub fn decode_i8(byte: u8) -> (r: i8)
    ensures
        r as int == spec_i8_from_byte(byte),
{
    assert(byte as i8 as int == if byte < 128 {
        byte as int
    } else {
        byte as int - 256
    }) by (bit_vector);
    byte as i8
}

/// XYZ triple
#[derive(Debug, Clone, Copy, PartialEq, Eq, Structural)]
pub struct I16x3 {
    /// X component
    pub x: i16,
    /// Y component
    pub y: i16,
    /// Z component
    pub z: i16,
}

/// Several measurements
#[derive(Debug, Clone, Copy, PartialEq, Eq, Structural)]
pub struct Measurements {
    /// Gyroscope measurements
    pub gyro: I16x3,
    /// Temperature sensor measurement
    pub temp: i8,
}

/// Decodes three axis readings from consecutive little-endian byte pairs
/// starting at `offset`: low byte first, x then y then z.
pub fn decode_axes(bytes: &Vec<u8>, offset: usize) -> (r: I16x3)
    requires
        offset + 6 <= bytes@.len(),
    ensures
        r.x as int == spec_i16_from_bytes(bytes@[offset as int], bytes@[offset + 1]),
        r.y as int == spec_i16_from_bytes(bytes@[offset + 2], bytes@[offset + 3]),
        r.z as int == spec_i16_from_bytes(bytes@[offset + 4], bytes@[offset + 5]),
{
    // `len` is a usize, so the indices `offset + 1` … `offset + 5` fit too
    let len: usize = bytes.len();
    assert(offset + 6 <= len);
    I16x3 {
        x: decode_i16(bytes[offset], bytes[offset + 1]),
        y: decode_i16(bytes[offset + 2], bytes[offset + 3]),
        z: decode_i16(bytes[offset + 4], bytes[offset + 5]),
    }
}

/// Decodes the 9-byte burst read that starts at the temperature register:
/// byte 0 echoes the control byte and is discarded, byte 1 is the signed
/// temperature, byte 2 holds the status register that sits between
/// temperature and the axis registers, and bytes 3 to 8 are the three
/// little-endian axis pairs.
pub fn decode_measurements(bytes: &Vec<u8>) -> (r: Measurements)
    requires
        bytes@.len() == 9,
    ensures
        r.temp as int == spec_i8_from_byte(bytes@[1]),
        r.gyro.x as int == spec_i16_from_bytes(bytes@[3], bytes@[4]),
        r.gyro.y as int == spec_i16_from_bytes(bytes@[5], bytes@[6]),
        r.gyro.z as int == spec_i16_from_bytes(bytes@[7], bytes@[8]),
{
    Measurements { gyro: decode_axes(bytes, 3), temp: decode_i8(bytes[1]) }
}

/// Sensor status
#[derive(Debug, Clone, Copy, PartialEq, Eq, Structural)]
pub struct Status {
    /// Overrun (data has overwritten previously unread data)
    /// has occurred on at least one axis
    pub overrun: bool,
    /// Overrun occurred on Z-axis
    pub z_overrun: bool,
    /// Overrun occurred on Y-axis
    pub y_overrun: bool,
    /// Overrun occurred on X-axis
    pub x_overrun: bool,
    /// New data is available for either X, Y, Z - axis
    pub new_data: bool,
    /// New data is available on Z-axis
    pub z_new: bool,
    /// New data is available on Y-axis
    pub y_new: bool,
    /// New data is available on X-axis
    pub x_new: bool,
}

/// The flags a status register byte holds: one flag per bit, overrun
/// flags in the high nibble, new-data flags in the low nibble.
pub open spec fn spec_status_from_u8(byte: u8) -> Status {
    Status {
        overrun: spec_bit_set(byte, 7),
        z_overrun: spec_bit_set(byte, 6),
        y_overrun: spec_bit_set(byte, 5),
        x_overrun: spec_bit_set(byte, 4),
        new_data: spec_bit_set(byte, 3),
        z_new: spec_bit_set(byte, 2),
        y_new: spec_bit_set(byte, 1),
        x_new: spec_bit_set(byte, 0),
    }
}

impl Status {
    /// Decodes the status register byte: one flag per bit, overrun flags
    /// in the high nibble, new-data flags in the low nibble.
    pub fn from_u8(byte: u8) -> (r: Status)
        ensures
            r == spec_status_from_u8(byte),
    {
        Status {
            overrun: (byte & (1u8 << 7)) != 0,
            z_overrun: (byte & (1u8 << 6)) != 0,
            y_overrun: (byte & (1u8 << 5)) != 0,
            x_overrun: (byte & (1u8 << 4)) != 0,
            new_data: (byte & (1u8 << 3)) != 0,
            z_new: (byte & (1u8 << 2)) != 0,
            y_new: (byte & (1u8 << 1)) != 0,
            x_new: (byte & (1u8 << 0)) != 0,
        }
    }
}

} // verus!

//! The register map of the sensor: named register addresses, fixed by the
//! datasheet, all within the 6-bit address space of the control byte.

use vstd::prelude::*;

verus! {

/// The registers of the sensor that the driver can address.
///
/// The addresses are fixed by the datasheet and must not be renumbered.
#[allow(non_camel_case_types)]
#[derive(Debug, Clone, Copy, PartialEq, Eq, Structural)]
pub enum Register {
    /// Identity register; reads back `0xD4` on this sensor family
    WHO_AM_I,
    /// Control register 1: data rate, bandwidth, power and axis enables
    CTRL_REG1,
    /// Control register 2
    CTRL_REG2,
    /// Control register 3
    CTRL_REG3,
    /// Control register 4: full scale selection
    CTRL_REG4,
    /// Control register 5
    CTRL_REG5,
    /// Reference value for interrupt generation
    REFERENCE,
    /// Temperature reading
    OUT_TEMP,
    /// Status flags
    STATUS_REG,
    /// X axis reading, low byte
    OUT_X_L,
    /// X axis reading, high byte
    OUT_X_H,
    /// Y axis reading, low byte
    OUT_Y_L,
    /// Y axis reading, high byte
    OUT_Y_H,
    /// Z axis reading, low byte
    OUT_Z_L,
    /// Z axis reading, high byte
    OUT_Z_H,
    /// FIFO control
    FIFO_CTRL_REG,
    /// FIFO state
    FIFO_SRC_REG,
    /// Interrupt 1 configuration
    INT1_CFG,
    /// Interrupt 1 state
    INT1_SRC,
    /// Interrupt 1 threshold, X high byte
    INT1_TSH_XH,
    /// Interrupt 1 threshold, X low byte
    INT1_TSH_XL,
    /// Interrupt 1 threshold, Y high byte
    INT1_TSH_YH,
    /// Interrupt 1 threshold, Y low byte
    INT1_TSH_YL,
    /// Interrupt 1 threshold, Z high byte
    INT1_TSH_ZH,
    /// Interrupt 1 threshold, Z low byte
    INT1_TSH_ZL,
    /// Interrupt 1 duration
    INT1_DURATION,
}

impl Register {
    /// The datasheet address of the register.
    pub open spec fn spec_addr(self) -> u8 {
        match self {
            Register::WHO_AM_I => 0x0F,
            Register::CTRL_REG1 => 0x20,
            Register::CTRL_REG2 => 0x21,
            Register::CTRL_REG3 => 0x22,
            Register::CTRL_REG4 => 0x23,
            Register::CTRL_REG5 => 0x24,
            Register::REFERENCE => 0x25,
            Register::OUT_TEMP => 0x26,
            Register::STATUS_REG => 0x27,
            Register::OUT_X_L => 0x28,
            Register::OUT_X_H => 0x29,
            Register::OUT_Y_L => 0x2A,
            Register::OUT_Y_H => 0x2B,
            Register::OUT_Z_L => 0x2C,
            Register::OUT_Z_H => 0x2D,
            Register::FIFO_CTRL_REG => 0x2E,
            Register::FIFO_SRC_REG => 0x2F,
            Register::INT1_CFG => 0x30,
            Register::INT1_SRC => 0x31,
            Register::INT1_TSH_XH => 0x32,
            Register::INT1_TSH_XL => 0x33,
            Register::INT1_TSH_YH => 0x34,
            Register::INT1_TSH_YL => 0x35,
            Register::INT1_TSH_ZH => 0x36,
            Register::INT1_TSH_ZL => 0x37,
            Register::INT1_DURATION => 0x38,
        }
    }

    /// Address of the register on the wire.
    pub fn addr(self) -> (r: u8)
        ensures
            r == self.spec_addr(),
    {
        match self {
            Register::WHO_AM_I => 0x0F,
            Register::CTRL_REG1 => 0x20,
            Register::CTRL_REG2 => 0x21,
            Register::CTRL_REG3 => 0x22,
            Register::CTRL_REG4 => 0x23,
            Register::CTRL_REG5 => 0x24,
            Register::REFERENCE => 0x25,
            Register::OUT_TEMP => 0x26,
            Register::STATUS_REG => 0x27,
            Register::OUT_X_L => 0x28,
            Register::OUT_X_H => 0x29,
            Register::OUT_Y_L => 0x2A,
            Register::OUT_Y_H => 0x2B,
            Register::OUT_Z_L => 0x2C,
            Register::OUT_Z_H => 0x2D,
            Register::FIFO_CTRL_REG => 0x2E,
            Register::FIFO_SRC_REG => 0x2F,
            Register::INT1_CFG => 0x30,
            Register::INT1_SRC => 0x31,
            Register::INT1_TSH_XH => 0x32,
            Register::INT1_TSH_XL => 0x33,
            Register::INT1_TSH_YH => 0x34,
            Register::INT1_TSH_YL => 0x35,
            Register::INT1_TSH_ZH => 0x36,
            Register::INT1_TSH_ZL => 0x37,
            Register::INT1_DURATION => 0x38,
        }
    }
}

/// Every register address fits in the 6-bit address field of the control
/// byte, so framing never clobbers the address.
pub proof fn lemma_register_addr_in_range(r: Register)
    ensures
        r.spec_addr() <= 0x3F,
{
}

/// No two distinct registers share an address.
pub proof fn lemma_register_addr_distinct(a: Register, b: Register)
    ensures
        a.spec_addr() == b.spec_addr() ==> a == b,
{
}

} // verus!

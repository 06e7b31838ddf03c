//! The driver facade: one register access per operation, each an atomic
//! assert-transfer-deassert sequence against the owned bus.
//!
//! The contracts speak of the transport's observable history: which
//! frames an operation hands to the bus, how its result is decoded from
//! the response, and that a failing transaction's own error is returned
//! unchanged, with no retry.  Every operation, on every exit path
//! including the error path, leaves the chip-select line released
//! (`cs_deselected`), so a failed transfer never leaves the bus
//! addressed to this device.

use vstd::prelude::*;

use crate::codec::{
    decode_axes, decode_i8, decode_measurements, spec_i16_from_bytes, spec_i8_from_byte,
    spec_status_from_u8, I16x3, Measurements, Status,
};
use crate::config::{apply_field, spec_apply_field, Bandwidth, BitValue, Odr, Scale};
use crate::registers::Register;
use crate::transport::{ChipSelect, SpiBus};

verus! {

/// Control byte flag selecting a read transaction (bit 7 set).
pub const READ: u8 = 0x80;

/// Control byte flag selecting a write transaction (bit 7 clear).
pub const WRITE: u8 = 0;

/// Control byte flag selecting a multi-register sequential transaction
/// (bit 6 set); the sensor then auto-increments its register pointer.
pub const MULTI: u8 = 0x40;

/// Control byte flag selecting a single-register transaction (bit 6
/// clear).
pub const SINGLE: u8 = 0;

/// The first byte of every transaction: the register address with the
/// direction flag in bit 7 and the burst flag in bit 6.
pub open spec fn spec_control_byte(reg: Register, read: bool, multi: bool) -> u8 {
    reg.spec_addr() | (if read {
        READ
    } else {
        WRITE
    }) | (if multi {
        MULTI
    } else {
        SINGLE
    })
}

/// The 2-byte frame of a single-register read: the control byte and one
/// placeholder byte; the register value comes back in the second
/// received byte.
pub open spec fn spec_read_frame(reg: Register) -> Seq<u8> {
    seq![spec_control_byte(reg, true, false), 0u8]
}

/// The 2-byte frame of a single-register write: the control byte and
/// the new register value.
pub open spec fn spec_write_frame(reg: Register, byte: u8) -> Seq<u8> {
    seq![spec_control_byte(reg, false, false), byte]
}

/// The frame of a burst read of `count - 1` sequential registers: the
/// control byte with the burst flag, then a zero-filled payload region.
pub open spec fn spec_burst_frame(reg: Register, count: nat) -> Seq<u8> {
    Seq::new(
        count,
        |i: int|
            if i == 0 {
                spec_control_byte(reg, true, true)
            } else {
                0u8
            },
    )
}

/// Builds the first byte of a transaction from the target register, the
/// direction and the burst mode.
pub fn control_byte(reg: Register, read: bool, multi: bool) -> (r: u8)
    ensures
        r == spec_control_byte(reg, read, multi),
{
    reg.addr() | (if read {
        READ
    } else {
        WRITE
    }) | (if multi {
        MULTI
    } else {
        SINGLE
    })
}

proof fn lemma_flag_bits(a: u8, dir: u8, burst: u8)
    by (bit_vector)
    requires
        a <= 0x3F,
        dir == 0 || dir == 0x80,
        burst == 0 || burst == 0x40,
    ensures
        (a | dir | burst) & 0x3F == a,
        ((a | dir | burst) & 0x80 != 0) == (dir == 0x80),
        ((a | dir | burst) & 0x40 != 0) == (burst == 0x40),
{
}

/// The two flag bits never clobber the 6-bit address, and each flag is
/// recovered from its own bit of the control byte.
pub proof fn lemma_control_byte_fields(reg: Register, read: bool, multi: bool)
    ensures
        spec_control_byte(reg, read, multi) & 0x3F == reg.spec_addr(),
        (spec_control_byte(reg, read, multi) & 0x80 != 0) == read,
        (spec_control_byte(reg, read, multi) & 0x40 != 0) == multi,
{
    crate::registers::lemma_register_addr_in_range(reg);
    lemma_flag_bits(
        reg.spec_addr(),
        if read {
            READ
        } else {
            WRITE
        },
        if multi {
            MULTI
        } else {
            SINGLE
        },
    );
}

/// L3GD20 driver.
///
/// Owns the bus and the chip-select line for its whole lifetime; exactly
/// one owner issues transactions, so no two accesses interleave.
pub struct L3gd20<SPI, CS> {
    spi: SPI,
    cs: CS,
}

impl<SPI, CS> L3gd20<SPI, CS> where SPI: SpiBus, CS: ChipSelect {
    /// The frames this driver has handed to the bus, oldest first.
    pub closed spec fn frames_sent(self) -> Seq<Seq<u8>> {
        self.spi.history().sent
    }

    /// The responses the bus returned to this driver's successful duplex
    /// transfers, oldest first.
    pub closed spec fn frames_received(self) -> Seq<Seq<u8>> {
        self.spi.history().received
    }

    /// The errors the bus reported to this driver, oldest first.
    pub closed spec fn bus_errors(self) -> Seq<SPI::Error> {
        self.spi.history().errors
    }

    /// The chip-select line is high again: the bus is not left addressed
    /// to this device.  Holds after every operation, also when it
    /// returns a transport error.
    pub closed spec fn cs_deselected(self) -> bool {
        !self.cs.is_low()
    }

    /// Between `self` and `post`, one read of `reg` was answered with
    /// `post.frames_received().last()`, and the byte read came back with
    /// the field at (`width`, `shift`) replaced by `value` in one write
    /// to the same register — and nothing else went over the bus.
    pub open spec fn read_modify_wrote(
        self,
        post: Self,
        reg: Register,
        width: u8,
        shift: u8,
        value: u8,
    ) -> bool {
        let resp = post.frames_received().last();
        &&& post.frames_received() == self.frames_received().push(resp)
        &&& resp.len() == 2
        &&& post.frames_sent() == self.frames_sent().push(spec_read_frame(reg)).push(
            spec_write_frame(reg, spec_apply_field(resp[1], width, shift, value)),
        )
    }

    /// Between `self` and `post`, the read of `reg` was handed to the
    /// bus but no response came back, and nothing else went over the
    /// bus.
    pub open spec fn read_attempted(self, post: Self, reg: Register) -> bool {
        &&& post.frames_sent() == self.frames_sent().push(spec_read_frame(reg))
        &&& post.frames_received() == self.frames_received()
    }

    /// Creates a new driver from a bus and a chip-select pin, powering
    /// the sensor up and enabling all three axes with one write of
    /// `0b0000_1111` to control register 1 — the only frame it sends.
    /// Fails only if that write fails; no half-initialized handle
    /// escapes.
    pub fn new(spi: SPI, cs: CS) -> (r: Result<Self, SPI::Error>)
        ensures
            r matches Ok(driver) ==> ({
                &&& driver.cs_deselected()
                &&& driver.frames_sent() == spi.history().sent.push(
                    spec_write_frame(Register::CTRL_REG1, 0b0000_1111),
                )
                &&& driver.frames_received() == spi.history().received
                &&& driver.bus_errors() == spi.history().errors
            }),
    {
        let mut l3gd20 = L3gd20 { spi, cs };

        // power up and enable all the axes
        l3gd20.write_register(Register::CTRL_REG1, 0b00_00_1_111)?;

        Ok(l3gd20)
    }

    /// Temperature measurement + gyroscope measurements, from one 9-byte
    /// burst read starting at the temperature register.  Byte 1 of the
    /// response is the temperature, byte 2 the interposed status
    /// register (skipped), bytes 3 to 8 the three little-endian axis
    /// pairs.
    pub fn all(&mut self) -> (r: Result<Measurements, SPI::Error>)
        ensures
            final(self).cs_deselected(),
            final(self).frames_sent() == old(self).frames_sent().push(
                spec_burst_frame(Register::OUT_TEMP, 9),
            ),
            r matches Ok(m) ==> ({
                let resp = final(self).frames_received().last();
                &&& final(self).frames_received() == old(self).frames_received().push(resp)
                &&& resp.len() == 9
                &&& m.temp as int == spec_i8_from_byte(resp[1])
                &&& m.gyro.x as int == spec_i16_from_bytes(resp[3], resp[4])
                &&& m.gyro.y as int == spec_i16_from_bytes(resp[5], resp[6])
                &&& m.gyro.z as int == spec_i16_from_bytes(resp[7], resp[8])
                &&& final(self).bus_errors() == old(self).bus_errors()
            }),
            r matches Err(e) ==> final(self).frames_received() == old(self).frames_received()
                && final(self).bus_errors() == old(self).bus_errors().push(e),
    {
        let bytes = self.read_registers(Register::OUT_TEMP, 9)?;

        Ok(decode_measurements(&bytes))
    }

    /// Gyroscope measurements, from one 7-byte burst read starting at
    /// the low X register; byte 0 of the response echoes the control
    /// byte, the three little-endian axis pairs follow.
    pub fn gyro(&mut self) -> (r: Result<I16x3, SPI::Error>)
        ensures
            final(self).cs_deselected(),
            final(self).frames_sent() == old(self).frames_sent().push(
                spec_burst_frame(Register::OUT_X_L, 7),
            ),
            r matches Ok(axes) ==> ({
                let resp = final(self).frames_received().last();
                &&& final(self).frames_received() == old(self).frames_received().push(resp)
                &&& resp.len() == 7
                &&& axes.x as int == spec_i16_from_bytes(resp[1], resp[2])
                &&& axes.y as int == spec_i16_from_bytes(resp[3], resp[4])
                &&& axes.z as int == spec_i16_from_bytes(resp[5], resp[6])
                &&& final(self).bus_errors() == old(self).bus_errors()
            }),
            r matches Err(e) ==> final(self).frames_received() == old(self).frames_received()
                && final(self).bus_errors() == old(self).bus_errors().push(e),
    {
        let bytes = self.read_registers(Register::OUT_X_L, 7)?;

        Ok(decode_axes(&bytes, 1))
    }

    /// Temperature sensor measurement: one single read of the
    /// temperature register, reinterpreted as signed.
    pub fn temp(&mut self) -> (r: Result<i8, SPI::Error>)
        ensures
            final(self).cs_deselected(),
            final(self).frames_sent() == old(self).frames_sent().push(
                spec_read_frame(Register::OUT_TEMP),
            ),
            r matches Ok(t) ==> ({
                let resp = final(self).frames_received().last();
                &&& final(self).frames_received() == old(self).frames_received().push(resp)
                &&& resp.len() == 2
                &&& t as int == spec_i8_from_byte(resp[1])
                &&& final(self).bus_errors() == old(self).bus_errors()
            }),
            r matches Err(e) ==> final(self).frames_received() == old(self).frames_received()
                && final(self).bus_errors() == old(self).bus_errors().push(e),
    {
        let byte = self.read_register(Register::OUT_TEMP)?;
        Ok(decode_i8(byte))
    }

    /// Reads the identity register and returns the second response byte;
    /// the sensor family answers `0xD4`.  Comparing against that
    /// constant is the caller's responsibility.
    pub fn who_am_i(&mut self) -> (r: Result<u8, SPI::Error>)
        ensures
            final(self).cs_deselected(),
            final(self).frames_sent() == old(self).frames_sent().push(
                spec_read_frame(Register::WHO_AM_I),
            ),
            r matches Ok(b) ==> ({
                let resp = final(self).frames_received().last();
                &&& final(self).frames_received() == old(self).frames_received().push(resp)
                &&& resp.len() == 2
                &&& b == resp[1]
                &&& final(self).bus_errors() == old(self).bus_errors()
            }),
            r matches Err(e) ==> final(self).frames_received() == old(self).frames_received()
                && final(self).bus_errors() == old(self).bus_errors().push(e),
    {
        self.read_register(Register::WHO_AM_I)
    }

    /// Reads the status register of the sensor and decodes its eight
    /// flag bits.
    pub fn status(&mut self) -> (r: Result<Status, SPI::Error>)
        ensures
            final(self).cs_deselected(),
            final(self).frames_sent() == old(self).frames_sent().push(
                spec_read_frame(Register::STATUS_REG),
            ),
            r matches Ok(s) ==> ({
                let resp = final(self).frames_received().last();
                &&& final(self).frames_received() == old(self).frames_received().push(resp)
                &&& resp.len() == 2
                &&& s == spec_status_from_u8(resp[1])
                &&& final(self).bus_errors() == old(self).bus_errors()
            }),
            r matches Err(e) ==> final(self).frames_received() == old(self).frames_received()
                && final(self).bus_errors() == old(self).bus_errors().push(e),
    {
        let sts = self.read_register(Register::STATUS_REG)?;
        Ok(Status::from_u8(sts))
    }

    /// Gets the current output data rate: one read of control register
    /// 1, decoded at the data rate field.
    pub fn odr(&mut self) -> (r: Result<Odr, SPI::Error>)
        ensures
            final(self).cs_deselected(),
            final(self).frames_sent() == old(self).frames_sent().push(
                spec_read_frame(Register::CTRL_REG1),
            ),
            r matches Ok(o) ==> ({
                let resp = final(self).frames_received().last();
                &&& final(self).frames_received() == old(self).frames_received().push(resp)
                &&& resp.len() == 2
                &&& o == Odr::spec_from_u8(resp[1])
                &&& final(self).bus_errors() == old(self).bus_errors()
            }),
            r matches Err(e) ==> final(self).frames_received() == old(self).frames_received()
                && final(self).bus_errors() == old(self).bus_errors().push(e),
    {
        let reg1 = self.read_register(Register::CTRL_REG1)?;
        Ok(Odr::from_u8(reg1))
    }

    /// Sets the output data rate by a read-modify-write of control
    /// register 1: the byte read comes back with only the data rate
    /// field replaced.
    pub fn set_odr(&mut self, odr: Odr) -> (r: Result<(), SPI::Error>)
        ensures
            final(self).cs_deselected(),
            r is Ok ==> old(self).read_modify_wrote(
                *final(self),
                Register::CTRL_REG1,
                Odr::spec_width(),
                Odr::spec_shift(),
                odr.spec_value(),
            ) && final(self).bus_errors() == old(self).bus_errors(),
            r matches Err(e) ==> final(self).bus_errors() == old(self).bus_errors().push(e),
            r is Err ==> old(self).read_attempted(*final(self), Register::CTRL_REG1) || old(
                self,
            ).read_modify_wrote(
                *final(self),
                Register::CTRL_REG1,
                Odr::spec_width(),
                Odr::spec_shift(),
                odr.spec_value(),
            ),
    {
        self.change_config(Register::CTRL_REG1, odr)
    }

    /// Gets the current bandwidth: one read of control register 1,
    /// decoded at the bandwidth field.
    pub fn bandwidth(&mut self) -> (r: Result<Bandwidth, SPI::Error>)
        ensures
            final(self).cs_deselected(),
            final(self).frames_sent() == old(self).frames_sent().push(
                spec_read_frame(Register::CTRL_REG1),
            ),
            r matches Ok(bw) ==> ({
                let resp = final(self).frames_received().last();
                &&& final(self).frames_received() == old(self).frames_received().push(resp)
                &&& resp.len() == 2
                &&& bw == Bandwidth::spec_from_u8(resp[1])
                &&& final(self).bus_errors() == old(self).bus_errors()
            }),
            r matches Err(e) ==> final(self).frames_received() == old(self).frames_received()
                && final(self).bus_errors() == old(self).bus_errors().push(e),
    {
        let reg1 = self.read_register(Register::CTRL_REG1)?;
        Ok(Bandwidth::from_u8(reg1))
    }

    /// Sets the low-pass cut-off frequency (i.e. bandwidth) by a
    /// read-modify-write of control register 1: the byte read comes back
    /// with only the bandwidth field replaced.
    ///
    /// See `Bandwidth` for further explanation.
    pub fn set_bandwidth(&mut self, bw: Bandwidth) -> (r: Result<(), SPI::Error>)
        ensures
            final(self).cs_deselected(),
            r is Ok ==> old(self).read_modify_wrote(
                *final(self),
                Register::CTRL_REG1,
                Bandwidth::spec_width(),
                Bandwidth::spec_shift(),
                bw.spec_value(),
            ) && final(self).bus_errors() == old(self).bus_errors(),
            r matches Err(e) ==> final(self).bus_errors() == old(self).bus_errors().push(e),
            r is Err ==> old(self).read_attempted(*final(self), Register::CTRL_REG1) || old(
                self,
            ).read_modify_wrote(
                *final(self),
                Register::CTRL_REG1,
                Bandwidth::spec_width(),
                Bandwidth::spec_shift(),
                bw.spec_value(),
            ),
    {
        self.change_config(Register::CTRL_REG1, bw)
    }

    /// Gets the current full scale selection: one read of the scale
    /// control register, decoded at the full scale field.
    ///
    /// This is the sensitivity of the sensor; see `Scale` for more
    /// information.
    pub fn scale(&mut self) -> (r: Result<Scale, SPI::Error>)
        ensures
            final(self).cs_deselected(),
            final(self).frames_sent() == old(self).frames_sent().push(
                spec_read_frame(Register::CTRL_REG4),
            ),
            r matches Ok(s) ==> ({
                let resp = final(self).frames_received().last();
                &&& final(self).frames_received() == old(self).frames_received().push(resp)
                &&& resp.len() == 2
                &&& s == Scale::spec_from_u8(resp[1])
                &&& final(self).bus_errors() == old(self).bus_errors()
            }),
            r matches Err(e) ==> final(self).frames_received() == old(self).frames_received()
                && final(self).bus_errors() == old(self).bus_errors().push(e),
    {
        let scl = self.read_register(Register::CTRL_REG4)?;
        Ok(Scale::from_u8(scl))
    }

    /// Sets the full scale selection by a read-modify-write of the scale
    /// control register: the byte read comes back with only the full
    /// scale field replaced.
    ///
    /// This sets the sensitivity of the sensor; see `Scale` for more
    /// information.
    pub fn set_scale(&mut self, scale: Scale) -> (r: Result<(), SPI::Error>)
        ensures
            final(self).cs_deselected(),
            r is Ok ==> old(self).read_modify_wrote(
                *final(self),
                Register::CTRL_REG4,
                Scale::spec_width(),
                Scale::spec_shift(),
                scale.spec_value(),
            ) && final(self).bus_errors() == old(self).bus_errors(),
            r matches Err(e) ==> final(self).bus_errors() == old(self).bus_errors().push(e),
            r is Err ==> old(self).read_attempted(*final(self), Register::CTRL_REG4) || old(
                self,
            ).read_modify_wrote(
                *final(self),
                Register::CTRL_REG4,
                Scale::spec_width(),
                Scale::spec_shift(),
                scale.spec_value(),
            ),
    {
        self.change_config(Register::CTRL_REG4, scale)
    }

    /// One single-register read: lower chip-select, exchange the 2-byte
    /// frame `[control, 0]`, raise chip-select, return the second
    /// received byte.  Chip-select is raised on the error path too, and
    /// a failing transfer's own error is returned unchanged.
    fn read_register(&mut self, reg: Register) -> (r: Result<u8, SPI::Error>)
        ensures
            final(self).cs_deselected(),
            final(self).frames_sent() == old(self).frames_sent().push(spec_read_frame(reg)),
            r matches Ok(b) ==> ({
                let resp = final(self).frames_received().last();
                &&& final(self).frames_received() == old(self).frames_received().push(resp)
                &&& resp.len() == 2
                &&& b == resp[1]
                &&& final(self).bus_errors() == old(self).bus_errors()
            }),
            r matches Err(e) ==> final(self).frames_received() == old(self).frames_received()
                && final(self).bus_errors() == old(self).bus_errors().push(e),
    {
        self.cs.set_low();

        let mut buffer: Vec<u8> = Vec::new();
        buffer.push(control_byte(reg, true, false));
        buffer.push(0);
        assert(buffer@ =~= spec_read_frame(reg));
        let res = self.spi.transfer(&mut buffer);

        self.cs.set_high();

        match res {
            Ok(()) => Ok(buffer[1]),
            Err(e) => Err(e),
        }
    }

    /// One burst read of `count - 1` sequential registers: the control
    /// byte carries the burst flag, the rest of the buffer is zero-filled
    /// before the exchange and holds the auto-incremented register
    /// contents after it.  Chip-select is raised on the error path too,
    /// and a failing transfer's own error is returned unchanged.
    fn read_registers(&mut self, reg: Register, count: usize) -> (r: Result<
        Vec<u8>,
        SPI::Error,
    >)
        requires
            1 <= count,
        ensures
            final(self).cs_deselected(),
            final(self).frames_sent() == old(self).frames_sent().push(
                spec_burst_frame(reg, count as nat),
            ),
            r matches Ok(bytes) ==> ({
                let resp = final(self).frames_received().last();
                &&& final(self).frames_received() == old(self).frames_received().push(resp)
                &&& bytes@ == resp
                &&& bytes@.len() == count
                &&& final(self).bus_errors() == old(self).bus_errors()
            }),
            r matches Err(e) ==> final(self).frames_received() == old(self).frames_received()
                && final(self).bus_errors() == old(self).bus_errors().push(e),
    {
        self.cs.set_low();

        let mut buffer: Vec<u8> = Vec::new();
        buffer.push(control_byte(reg, true, true));
        while buffer.len() < count
            invariant
                1 <= buffer@.len() <= count,
                buffer@[0] == spec_control_byte(reg, true, true),
                forall|i: int| 1 <= i < buffer@.len() ==> buffer@[i] == 0u8,
            decreases count - buffer@.len(),
        {
            buffer.push(0);
        }
        assert(buffer@ =~= spec_burst_frame(reg, count as nat));
        let res = self.spi.transfer(&mut buffer);

        self.cs.set_high();

        match res {
            Ok(()) => Ok(buffer),
            Err(e) => Err(e),
        }
    }

    /// One single-register write: lower chip-select, send the 2-byte
    /// frame `[control, value]`, raise chip-select.  Chip-select is
    /// raised on the error path too, and a failing write's own error is
    /// returned unchanged.
    fn write_register(&mut self, reg: Register, byte: u8) -> (r: Result<(), SPI::Error>)
        ensures
            final(self).cs_deselected(),
            final(self).frames_sent() == old(self).frames_sent().push(spec_write_frame(reg, byte)),
            final(self).frames_received() == old(self).frames_received(),
            r is Ok ==> final(self).bus_errors() == old(self).bus_errors(),
            r matches Err(e) ==> final(self).bus_errors() == old(self).bus_errors().push(e),
    {
        self.cs.set_low();

        let mut buffer: Vec<u8> = Vec::new();
        buffer.push(control_byte(reg, false, false));
        buffer.push(byte);
        assert(buffer@ =~= spec_write_frame(reg, byte));
        let res = self.spi.write(&buffer);

        self.cs.set_high();

        res
    }

    /// Changes one configuration field of a register by a
    /// read-modify-write: read the current value, replace the field's
    /// bits through `apply_field`, write the result back.  Bits outside
    /// the field are never altered, which lets the fields sharing a
    /// register be set independently.
    fn change_config<B: BitValue>(&mut self, reg: Register, bits: B) -> (r: Result<
        (),
        SPI::Error,
    >)
        ensures
            final(self).cs_deselected(),
            r is Ok ==> old(self).read_modify_wrote(
                *final(self),
                reg,
                B::spec_width(),
                B::spec_shift(),
                bits.spec_value(),
            ) && final(self).bus_errors() == old(self).bus_errors(),
            r matches Err(e) ==> final(self).bus_errors() == old(self).bus_errors().push(e),
            r is Err ==> old(self).read_attempted(*final(self), reg) || old(
                self,
            ).read_modify_wrote(*final(self), reg, B::spec_width(), B::spec_shift(), bits.spec_value()),
    {
        proof {
            bits.lemma_field_well_formed();
        }
        let width = B::width();
        let shift = B::shift();
        let value = bits.value();
        let current = self.read_register(reg)?;
        let new_reg = apply_field(current, width, shift, value);
        self.write_register(reg, new_reg)?;
        Ok(())
    }
}

} // verus!

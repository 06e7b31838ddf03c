//! Configuration values and the bit-field codec.
//!
//! Each configuration value (data rate, bandwidth, full scale) occupies a
//! masked sub-byte region of one control register.  Encoding places the
//! value's raw code at the field's shift; decoding extracts it; a
//! read-modify-write update replaces the field while leaving every other
//! bit of the register as it was.

use vstd::prelude::*;

verus! {

/// The field's mask within its host register: `width` one-bits starting
/// at bit `shift`, that is `((1 << width) - 1) << shift`.
pub open spec fn spec_field_mask(width: u8, shift: u8) -> u8 {
    (((1u8 << width) - 1) as u8) << shift
}

/// The value's raw code shifted into place and confined to the field.
pub open spec fn spec_encode_field(value: u8, width: u8, shift: u8) -> u8 {
    (value << shift) & spec_field_mask(width, shift)
}

/// The raw code held by the field of `byte`.
pub open spec fn spec_decode_field(byte: u8, width: u8, shift: u8) -> u8 {
    (byte >> shift) & (((1u8 << width) - 1) as u8)
}

/// `current` with the field replaced by `value` and every bit outside the
/// field kept.
pub open spec fn spec_apply_field(current: u8, width: u8, shift: u8, value: u8) -> u8 {
    (current & !spec_field_mask(width, shift)) | spec_encode_field(value, width, shift)
}

/// Extracts the raw code of the field at `shift` from a register byte.
pub fn decode_field(byte: u8, width: u8, shift: u8) -> (r: u8)
    requires
        0 < width < 8,
        shift < 8,
    ensures
        r == spec_decode_field(byte, width, shift),
{
    let ones = 1u8 << width;
    assert(ones >= 1) by (bit_vector)
        requires
            ones == 1u8 << width && width < 8,
    ;
    let low = ones - 1;
    assert(low == ((1u8 << width) - 1) as u8) by (bit_vector)
        requires
            ones == 1u8 << width && low == ones - 1 && width < 8,
    ;
    (byte >> shift) & low
}

/// Replaces the field at `shift` of a register byte with `value`, keeping
/// all bits outside the field.
pub fn apply_field(current: u8, width: u8, shift: u8, value: u8) -> (r: u8)
    requires
        0 < width < 8,
        shift < 8,
    ensures
        r == spec_apply_field(current, width, shift, value),
{
    let ones = 1u8 << width;
    assert(ones >= 1) by (bit_vector)
        requires
            ones == 1u8 << width && width < 8,
    ;
    let low = ones - 1;
    assert(low == ((1u8 << width) - 1) as u8) by (bit_vector)
        requires
            ones == 1u8 << width && low == ones - 1 && width < 8,
    ;
    let mask = low << shift;
    let bits = (value << shift) & mask;
    (current & !mask) | bits
}

/// The raw code of every field is below `1 << width`.
pub proof fn lemma_decode_field_bounded(byte: u8, width: u8, shift: u8)
    by (bit_vector)
    requires
        0 < width < 8,
        shift < 8,
    ensures
        spec_decode_field(byte, width, shift) < (1u8 << width),
{
}

/// Writing a field and reading it back yields the value written,
/// whatever the register held before.
pub proof fn lemma_apply_field_reads_back(current: u8, width: u8, shift: u8, value: u8)
    by (bit_vector)
    requires
        0 < width < 8,
        shift < 8,
        width + shift <= 8,
        value < (1u8 << width),
    ensures
        spec_decode_field(spec_apply_field(current, width, shift, value), width, shift) == value,
{
}

/// Writing one field does not change what any field with a disjoint mask
/// decodes to.
pub proof fn lemma_apply_field_preserves_disjoint(
    current: u8,
    width: u8,
    shift: u8,
    value: u8,
    width2: u8,
    shift2: u8,
)
    by (bit_vector)
    requires
        0 < width < 8,
        shift < 8,
        0 < width2 < 8,
        shift2 < 8,
        width2 + shift2 <= 8,
        spec_field_mask(width, shift) & spec_field_mask(width2, shift2) == 0,
    ensures
        spec_decode_field(spec_apply_field(current, width, shift, value), width2, shift2)
            == spec_decode_field(current, width2, shift2),
{
}

/// Writing a field leaves every bit outside its mask as it was.
pub proof fn lemma_apply_field_preserves_outside(
    current: u8,
    width: u8,
    shift: u8,
    value: u8,
    other: u8,
)
    by (bit_vector)
    requires
        0 < width < 8,
        shift < 8,
        spec_field_mask(width, shift) & other == 0,
    ensures
        spec_apply_field(current, width, shift, value) & other == current & other,
{
}

/// A configuration value that lives in a masked field of one register.
///
/// `width` and `shift` locate the field; `value` is the raw code, not yet
/// shifted into place.
pub trait BitValue: Sized {
    /// The width of the field in bits.
    spec fn spec_width() -> u8;

    /// The number of bits the field is shifted by within its register.
    spec fn spec_shift() -> u8;

    /// The raw code of the value.
    spec fn spec_value(&self) -> u8;

    /// The field lies within one byte and the code fits the field.
    proof fn lemma_field_well_formed(&self)
        ensures
            0 < Self::spec_width() < 8,
            Self::spec_shift() < 8,
            Self::spec_width() + Self::spec_shift() <= 8,
            self.spec_value() < (1u8 << Self::spec_width()),
    ;

    /// The width of the field in bits.
    fn width() -> (r: u8)
        ensures
            r == Self::spec_width(),
    ;

    /// The number of bits the field is shifted by within its register.
    fn shift() -> (r: u8)
        ensures
            r == Self::spec_shift(),
    ;

    /// The raw code of the value, not yet shifted into place.
    fn value(&self) -> (r: u8)
        ensures
            r == self.spec_value(),
    ;
}

/// Output data rate: the sensor's internal sampling frequency.
#[derive(Debug, Clone, Copy, PartialEq, Eq, Structural)]
pub enum Odr {
    /// 95 Hz data rate
    Hz95,
    /// 190 Hz data rate
    Hz190,
    /// 380 Hz data rate
    Hz380,
    /// 760 Hz data rate
    Hz760,
}

impl BitValue for Odr {
    open spec fn spec_width() -> u8 {
        2
    }

    open spec fn spec_shift() -> u8 {
        6
    }

    open spec fn spec_value(&self) -> u8 {
        match *self {
            Odr::Hz95 => 0,
            Odr::Hz190 => 1,
            Odr::Hz380 => 2,
            Odr::Hz760 => 3,
        }
    }

    proof fn lemma_field_well_formed(&self) {
        assert(1u8 << 2 == 4) by (bit_vector);
    }

    fn width() -> (r: u8) {
        2
    }

    fn shift() -> (r: u8) {
        6
    }

    fn value(&self) -> (r: u8) {
        match *self {
            Odr::Hz95 => 0,
            Odr::Hz190 => 1,
            Odr::Hz380 => 2,
            Odr::Hz760 => 3,
        }
    }
}

impl Odr {
    /// The data rate a control register byte selects.
    pub open spec fn spec_from_u8(byte: u8) -> Odr {
        let code = spec_decode_field(byte, 2, 6);
        if code == 0 {
            Odr::Hz95
        } else if code == 1 {
            Odr::Hz190
        } else if code == 2 {
            Odr::Hz380
        } else {
            Odr::Hz760
        }
    }

    /// Decodes the data rate field of a control register byte.  Every
    /// value of the 2-bit field names a rate, so no input is rejected.
    pub fn from_u8(byte: u8) -> (r: Odr)
        ensures
            r == Odr::spec_from_u8(byte),
    {
        let code = decode_field(byte, 2, 6);
        if code == 0 {
            Odr::Hz95
        } else if code == 1 {
            Odr::Hz190
        } else if code == 2 {
            Odr::Hz380
        } else {
            Odr::Hz760
        }
    }
}

/// Full scale selection: the maximum measurable angular rate, inversely
/// related to per-count resolution.
///
/// The field's position follows the datasheet's layout of control
/// register 4 — `BDU BLE FS1 FS0 - ST1 ST0 SIM` — which puts `FS1:FS0`
/// at bits 5:4, so the field sits at shift 4.
#[derive(Debug, Clone, Copy, PartialEq, Eq, Structural)]
pub enum Scale {
    /// 250 Degrees Per Second
    Dps250,
    /// 500 Degrees Per Second
    Dps500,
    /// 2000 Degrees Per Second
    Dps2000,
}

impl BitValue for Scale {
    open spec fn spec_width() -> u8 {
        2
    }

    open spec fn spec_shift() -> u8 {
        4
    }

    open spec fn spec_value(&self) -> u8 {
        match *self {
            Scale::Dps250 => 0,
            Scale::Dps500 => 1,
            Scale::Dps2000 => 3,
        }
    }

    proof fn lemma_field_well_formed(&self) {
        assert(1u8 << 2 == 4) by (bit_vector);
    }

    fn width() -> (r: u8) {
        2
    }

    fn shift() -> (r: u8) {
        4
    }

    fn value(&self) -> (r: u8) {
        match *self {
            Scale::Dps250 => 0,
            Scale::Dps500 => 1,
            Scale::Dps2000 => 3,
        }
    }
}

impl Scale {
    /// The full scale a control register byte selects.  The datasheet
    /// assigns `0b11` to 2000 dps and treats the reserved code `0b10` as
    /// the same range, so both decode to `Dps2000`.
    pub open spec fn spec_from_u8(byte: u8) -> Scale {
        let code = spec_decode_field(byte, 2, 4);
        if code == 0 {
            Scale::Dps250
        } else if code == 1 {
            Scale::Dps500
        } else {
            Scale::Dps2000
        }
    }

    /// Decodes the full scale field of a control register byte.  Every
    /// value of the 2-bit field names a range (the reserved code `0b10`
    /// doubles for 2000 dps), so no input is rejected.
    pub fn from_u8(byte: u8) -> (r: Scale)
        ensures
            r == Scale::spec_from_u8(byte),
    {
        let code = decode_field(byte, 2, 4);
        if code == 0 {
            Scale::Dps250
        } else if code == 1 {
            Scale::Dps500
        } else {
            Scale::Dps2000
        }
    }
}

/// Bandwidth of the sensor: the cut-off of the low-pass filter applied to
/// raw samples.  The frequency each step selects depends on the data
/// rate; consult the datasheet.
#[derive(Debug, Clone, Copy, PartialEq, Eq, Structural)]
pub enum Bandwidth {
    /// Lowest possible cut-off for any data rate
    Low,
    /// Medium cut-off, equal to `High` for some data rates
    Medium,
    /// High cut-off
    High,
    /// Maximum cut-off for any data rate
    Maximum,
}

impl BitValue for Bandwidth {
    open spec fn spec_width() -> u8 {
        2
    }

    open spec fn spec_shift() -> u8 {
        4
    }

    open spec fn spec_value(&self) -> u8 {
        match *self {
            Bandwidth::Low => 0,
            Bandwidth::Medium => 1,
            Bandwidth::High => 2,
            Bandwidth::Maximum => 3,
        }
    }

    proof fn lemma_field_well_formed(&self) {
        assert(1u8 << 2 == 4) by (bit_vector);
    }

    fn width() -> (r: u8) {
        2
    }

    fn shift() -> (r: u8) {
        4
    }

    fn value(&self) -> (r: u8) {
        match *self {
            Bandwidth::Low => 0,
            Bandwidth::Medium => 1,
            Bandwidth::High => 2,
            Bandwidth::Maximum => 3,
        }
    }
}

impl Bandwidth {
    /// The bandwidth a control register byte selects.
    pub open spec fn spec_from_u8(byte: u8) -> Bandwidth {
        let code = spec_decode_field(byte, 2, 4);
        if code == 0 {
            Bandwidth::Low
        } else if code == 1 {
            Bandwidth::Medium
        } else if code == 2 {
            Bandwidth::High
        } else {
            Bandwidth::Maximum
        }
    }

    /// Decodes the bandwidth field of a control register byte.  Every
    /// value of the 2-bit field names a cut-off, so no input is rejected.
    pub fn from_u8(byte: u8) -> (r: Bandwidth)
        ensures
            r == Bandwidth::spec_from_u8(byte),
    {
        let code = decode_field(byte, 2, 4);
        if code == 0 {
            Bandwidth::Low
        } else if code == 1 {
            Bandwidth::Medium
        } else if code == 2 {
            Bandwidth::High
        } else {
            Bandwidth::Maximum
        }
    }
}

/// Encoding a data rate into any register byte and decoding the same
/// masked bits yields the rate again.
pub proof fn lemma_odr_round_trip(current: u8, odr: Odr)
    ensures
        Odr::spec_from_u8(spec_apply_field(current, 2, 6, odr.spec_value())) == odr,
{
    odr.lemma_field_well_formed();
    lemma_apply_field_reads_back(current, 2, 6, odr.spec_value());
}

/// Encoding a bandwidth into any register byte and decoding the same
/// masked bits yields the bandwidth again.
pub proof fn lemma_bandwidth_round_trip(current: u8, bw: Bandwidth)
    ensures
        Bandwidth::spec_from_u8(spec_apply_field(current, 2, 4, bw.spec_value())) == bw,
{
    bw.lemma_field_well_formed();
    lemma_apply_field_reads_back(current, 2, 4, bw.spec_value());
}

/// Encoding a full scale into any register byte and decoding the same
/// masked bits yields the scale again.
pub proof fn lemma_scale_round_trip(current: u8, scale: Scale)
    ensures
        Scale::spec_from_u8(spec_apply_field(current, 2, 4, scale.spec_value())) == scale,
{
    scale.lemma_field_well_formed();
    lemma_apply_field_reads_back(current, 2, 4, scale.spec_value());
}

/// The raw codes `0b10` and `0b11` of the full scale field both decode to
/// the 2000 dps range, and nothing else does.
pub proof fn lemma_scale_quirk(byte: u8)
    ensures
        Scale::spec_from_u8(byte) == Scale::Dps2000 <==> (spec_decode_field(byte, 2, 4) == 2
            || spec_decode_field(byte, 2, 4) == 3),
{
    lemma_decode_field_bounded(byte, 2, 4);
    assert(1u8 << 2 == 4) by (bit_vector);
}

/// Updating one field of control register 1 is a read-modify-write:
/// setting the bandwidth and then the data rate leaves both readable as
/// set, and the power and axis-enable bits (the low nibble) untouched.
pub proof fn lemma_ctrl_reg1_read_modify_write(current: u8, bw: Bandwidth, odr: Odr)
    ensures
        ({
            let after_bw = spec_apply_field(current, 2, 4, bw.spec_value());
            let after = spec_apply_field(after_bw, 2, 6, odr.spec_value());
            &&& Odr::spec_from_u8(after) == odr
            &&& Bandwidth::spec_from_u8(after) == bw
            &&& after & 0x0F == current & 0x0F
        }),
{
    let after_bw = spec_apply_field(current, 2, 4, bw.spec_value());
    let after = spec_apply_field(after_bw, 2, 6, odr.spec_value());
    bw.lemma_field_well_formed();
    odr.lemma_field_well_formed();
    lemma_odr_round_trip(after_bw, odr);
    lemma_bandwidth_round_trip(current, bw);
    assert(spec_field_mask(2, 6) & spec_field_mask(2, 4) == 0) by (bit_vector);
    lemma_apply_field_preserves_disjoint(after_bw, 2, 6, odr.spec_value(), 2, 4);
    assert(spec_field_mask(2, 4) & 0x0F == 0) by (bit_vector);
    assert(spec_field_mask(2, 6) & 0x0F == 0) by (bit_vector);
    lemma_apply_field_preserves_outside(current, 2, 4, bw.spec_value(), 0x0F);
    lemma_apply_field_preserves_outside(after_bw, 2, 6, odr.spec_value(), 0x0F);
}

} // verus!

use l3gd20::{
    apply_field, decode_axes, decode_field, decode_i16, decode_i8, decode_measurements, Bandwidth,
    BitValue, Odr, Register, Scale, Status,
};

const ALL_REGISTERS: [(Register, u8); 26] = [
    (Register::WHO_AM_I, 0x0F),
    (Register::CTRL_REG1, 0x20),
    (Register::CTRL_REG2, 0x21),
    (Register::CTRL_REG3, 0x22),
    (Register::CTRL_REG4, 0x23),
    (Register::CTRL_REG5, 0x24),
    (Register::REFERENCE, 0x25),
    (Register::OUT_TEMP, 0x26),
    (Register::STATUS_REG, 0x27),
    (Register::OUT_X_L, 0x28),
    (Register::OUT_X_H, 0x29),
    (Register::OUT_Y_L, 0x2A),
    (Register::OUT_Y_H, 0x2B),
    (Register::OUT_Z_L, 0x2C),
    (Register::OUT_Z_H, 0x2D),
    (Register::FIFO_CTRL_REG, 0x2E),
    (Register::FIFO_SRC_REG, 0x2F),
    (Register::INT1_CFG, 0x30),
    (Register::INT1_SRC, 0x31),
    (Register::INT1_TSH_XH, 0x32),
    (Register::INT1_TSH_XL, 0x33),
    (Register::INT1_TSH_YH, 0x34),
    (Register::INT1_TSH_YL, 0x35),
    (Register::INT1_TSH_ZH, 0x36),
    (Register::INT1_TSH_ZL, 0x37),
    (Register::INT1_DURATION, 0x38),
];

#[test]
fn register_addresses_match_datasheet() {
    for (reg, addr) in ALL_REGISTERS {
        assert_eq!(reg.addr(), addr);
        assert!(reg.addr() <= 0x3F);
    }
}

#[test]
fn register_addresses_are_distinct() {
    for (i, (a, _)) in ALL_REGISTERS.iter().enumerate() {
        for (j, (b, _)) in ALL_REGISTERS.iter().enumerate() {
            if i != j {
                assert_ne!(a.addr(), b.addr());
            }
        }
    }
}

const ODR_VARIANTS: [Odr; 4] = [Odr::Hz95, Odr::Hz190, Odr::Hz380, Odr::Hz760];
const BANDWIDTH_VARIANTS: [Bandwidth; 4] =
    [Bandwidth::Low, Bandwidth::Medium, Bandwidth::High, Bandwidth::Maximum];
const SCALE_VARIANTS: [Scale; 3] = [Scale::Dps250, Scale::Dps500, Scale::Dps2000];

#[test]
fn odr_round_trip_every_variant() {
    for odr in ODR_VARIANTS {
        for current in [0x00u8, 0xFF, 0b0000_1111, 0b0011_0101] {
            let encoded = apply_field(current, 2, 6, odr.value());
            assert_eq!(Odr::from_u8(encoded), odr);
        }
    }
}

#[test]
fn bandwidth_round_trip_every_variant() {
    for bw in BANDWIDTH_VARIANTS {
        for current in [0x00u8, 0xFF, 0b0000_1111, 0b1100_0101] {
            let encoded = apply_field(current, 2, 4, bw.value());
            assert_eq!(Bandwidth::from_u8(encoded), bw);
        }
    }
}

#[test]
fn scale_round_trip_every_variant() {
    for scale in SCALE_VARIANTS {
        for current in [0x00u8, 0xFF, 0b1000_0001] {
            let encoded = apply_field(current, 2, 4, scale.value());
            assert_eq!(Scale::from_u8(encoded), scale);
        }
    }
}

#[test]
fn scale_quirk_both_codes_mean_2000_dps() {
    // raw field 0b10 at shift 4
    assert_eq!(Scale::from_u8(0b0010_0000), Scale::Dps2000);
    // raw field 0b11 at shift 4
    assert_eq!(Scale::from_u8(0b0011_0000), Scale::Dps2000);
    // the defined codes still decode to their own ranges
    assert_eq!(Scale::from_u8(0b0000_0000), Scale::Dps250);
    assert_eq!(Scale::from_u8(0b0001_0000), Scale::Dps500);
}

#[test]
fn field_codec_formulas() {
    // mask = ((1 << width) - 1) << shift; bits = (value << shift) & mask
    assert_eq!(apply_field(0x00, 2, 6, 0b10), 0b1000_0000);
    assert_eq!(apply_field(0xFF, 2, 6, 0b00), 0b0011_1111);
    assert_eq!(apply_field(0b0101_0101, 2, 4, 0b11), 0b0111_0101);
    // decode = (byte >> shift) & ((1 << width) - 1)
    assert_eq!(decode_field(0b1000_0000, 2, 6), 0b10);
    assert_eq!(decode_field(0b0111_0101, 2, 4), 0b11);
    assert_eq!(decode_field(0xFF, 3, 2), 0b111);
}

#[test]
fn axis_decode_positive() {
    let bytes = vec![0u8, 0, 0x34, 0x12, 0, 0, 0, 0, 0];
    let axes = decode_axes(&bytes, 2);
    assert_eq!(axes.x, 0x1234);
    assert_eq!(axes.x, 4660);
}

#[test]
fn axis_decode_negative() {
    assert_eq!(decode_i16(0xFF, 0xFF), -1);
    let bytes = vec![0xFFu8, 0xFF, 0x00, 0x80, 0xFF, 0x7F];
    let axes = decode_axes(&bytes, 0);
    assert_eq!(axes.x, -1);
    assert_eq!(axes.y, i16::MIN);
    assert_eq!(axes.z, i16::MAX);
}

#[test]
fn measurement_bundle_decode() {
    // byte 0: control echo, byte 1: temperature, byte 2: status,
    // bytes 3..9: x, y, z little-endian pairs
    let bytes = vec![0xAAu8, 0xE0, 0x0F, 0x34, 0x12, 0xFF, 0xFF, 0x01, 0x00];
    let m = decode_measurements(&bytes);
    assert_eq!(m.temp, -32);
    assert_eq!(m.gyro.x, 4660);
    assert_eq!(m.gyro.y, -1);
    assert_eq!(m.gyro.z, 1);
}

#[test]
fn temperature_decode() {
    assert_eq!(decode_i8(0x00), 0);
    assert_eq!(decode_i8(0x7F), 127);
    assert_eq!(decode_i8(0x80), -128);
    assert_eq!(decode_i8(0xFF), -1);
}

#[test]
fn status_decode_bits() {
    let status = Status::from_u8(0b1000_0001);
    assert!(status.overrun);
    assert!(!status.z_overrun);
    assert!(!status.y_overrun);
    assert!(!status.x_overrun);
    assert!(!status.new_data);
    assert!(!status.z_new);
    assert!(!status.y_new);
    assert!(status.x_new);
}

#[test]
fn status_decode_all_set() {
    let status = Status::from_u8(0xFF);
    assert!(status.overrun);
    assert!(status.z_overrun);
    assert!(status.y_overrun);
    assert!(status.x_overrun);
    assert!(status.new_data);
    assert!(status.z_new);
    assert!(status.y_new);
    assert!(status.x_new);
    let none = Status::from_u8(0x00);
    assert!(!none.overrun);
    assert!(!none.x_new);
}

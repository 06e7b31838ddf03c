use std::cell::RefCell;
use std::rc::Rc;

use l3gd20::{Bandwidth, ChipSelect, L3gd20, Odr, Register, Scale, SpiBus};

/// What the simulated bus reports when a transaction fails.
#[derive(Debug, Clone, Copy, PartialEq, Eq)]
struct BusError(u8);

/// A simulated sensor: a register file addressed exactly as the real part
/// is, plus a record of every frame seen on the wire and of the
/// chip-select line.
struct Device {
    regs: [u8; 0x40],
    cs_low: bool,
    /// every transfer frame as transmitted (before the exchange)
    transfer_frames: Vec<Vec<u8>>,
    /// every write frame as transmitted
    write_frames: Vec<Vec<u8>>,
    /// fail the nth transfer (counting from 0) with this error
    fail_transfer_at: Option<(usize, BusError)>,
    /// fail the nth write (counting from 0) with this error
    fail_write_at: Option<(usize, BusError)>,
    /// set if any exchange happened while chip-select was high
    exchanged_while_deselected: bool,
}

impl Device {
    fn new() -> Rc<RefCell<Device>> {
        let mut regs = [0u8; 0x40];
        regs[0x0F] = 0xD4; // identity register
        Rc::new(RefCell::new(Device {
            regs,
            cs_low: false,
            transfer_frames: Vec::new(),
            write_frames: Vec::new(),
            fail_transfer_at: None,
            fail_write_at: None,
            exchanged_while_deselected: false,
        }))
    }
}

struct SimSpi(Rc<RefCell<Device>>);

struct SimPin(Rc<RefCell<Device>>);

impl SpiBus for SimSpi {
    type Error = BusError;

    // specification-only trait item; never called at run time
    fn history(&self) -> l3gd20::BusHistory<BusError> {
        panic!("specification function")
    }

    fn transfer(&mut self, buffer: &mut Vec<u8>) -> Result<(), BusError> {
        let mut dev = self.0.borrow_mut();
        if !dev.cs_low {
            dev.exchanged_while_deselected = true;
        }
        dev.transfer_frames.push(buffer.clone());
        let n = dev.transfer_frames.len() - 1;
        if let Some((at, err)) = dev.fail_transfer_at {
            if n == at {
                return Err(err);
            }
        }
        let ctrl = buffer[0];
        let addr = (ctrl & 0x3F) as usize;
        let read = ctrl & 0x80 != 0;
        let multi = ctrl & 0x40 != 0;
        if read {
            if multi {
                for i in 1..buffer.len() {
                    buffer[i] = dev.regs[addr + i - 1];
                }
            } else if buffer.len() > 1 {
                buffer[1] = dev.regs[addr];
            }
        }
        Ok(())
    }

    fn write(&mut self, buffer: &Vec<u8>) -> Result<(), BusError> {
        let mut dev = self.0.borrow_mut();
        if !dev.cs_low {
            dev.exchanged_while_deselected = true;
        }
        dev.write_frames.push(buffer.clone());
        let n = dev.write_frames.len() - 1;
        if let Some((at, err)) = dev.fail_write_at {
            if n == at {
                return Err(err);
            }
        }
        let ctrl = buffer[0];
        if ctrl & 0x80 == 0 && ctrl & 0x40 == 0 && buffer.len() > 1 {
            let addr = (ctrl & 0x3F) as usize;
            dev.regs[addr] = buffer[1];
        }
        Ok(())
    }
}

impl ChipSelect for SimPin {
    // specification-only trait item; never called at run time
    fn is_low(&self) -> bool {
        self.0.borrow().cs_low
    }

    fn set_low(&mut self) {
        self.0.borrow_mut().cs_low = true;
    }

    fn set_high(&mut self) {
        self.0.borrow_mut().cs_low = false;
    }
}

fn new_driver(dev: &Rc<RefCell<Device>>) -> L3gd20<SimSpi, SimPin> {
    L3gd20::new(SimSpi(dev.clone()), SimPin(dev.clone())).unwrap()
}

#[test]
fn initialize_powers_up_and_enables_axes() {
    let dev = Device::new();
    let _driver = new_driver(&dev);
    // one single write of 0b0000_1111 to CTRL_REG1 (0x20)
    assert_eq!(dev.borrow().write_frames, vec![vec![0x20, 0b0000_1111]]);
    assert_eq!(dev.borrow().regs[0x20], 0b0000_1111);
    assert!(!dev.borrow().cs_low);
}

#[test]
fn initialize_fails_when_the_write_fails() {
    let dev = Device::new();
    dev.borrow_mut().fail_write_at = Some((0, BusError(7)));
    let result = L3gd20::new(SimSpi(dev.clone()), SimPin(dev.clone()));
    assert_eq!(result.err(), Some(BusError(7)));
    assert!(!dev.borrow().cs_low);
}

#[test]
fn golden_scenario() {
    let dev = Device::new();
    let mut driver = new_driver(&dev);

    assert_eq!(driver.who_am_i().unwrap(), 0xD4);

    driver.set_odr(Odr::Hz380).unwrap();
    assert_eq!(driver.odr().unwrap(), Odr::Hz380);

    {
        let mut d = dev.borrow_mut();
        d.regs[0x28] = 0x34; // x low
        d.regs[0x29] = 0x12; // x high
        d.regs[0x2A] = 0xFF; // y low
        d.regs[0x2B] = 0xFF; // y high
        d.regs[0x2C] = 0x10; // z low
        d.regs[0x2D] = 0x00; // z high
    }
    let axes = driver.gyro().unwrap();
    assert_eq!(axes.x, 4660);
    assert_eq!(axes.y, -1);
    assert_eq!(axes.z, 16);

    assert!(!dev.borrow().cs_low);
    assert!(!dev.borrow().exchanged_while_deselected);
}

#[test]
fn read_modify_write_keeps_independent_fields() {
    let dev = Device::new();
    let mut driver = new_driver(&dev);

    driver.set_bandwidth(Bandwidth::High).unwrap();
    driver.set_odr(Odr::Hz380).unwrap();

    assert_eq!(driver.bandwidth().unwrap(), Bandwidth::High);
    assert_eq!(driver.odr().unwrap(), Odr::Hz380);
    // power and axis-enable bits written by `new` survive both updates
    assert_eq!(dev.borrow().regs[0x20] & 0x0F, 0b0000_1111);
    assert_eq!(dev.borrow().regs[0x20], 0b1010_1111);
}

#[test]
fn scale_survives_a_round_trip_through_the_device() {
    let dev = Device::new();
    let mut driver = new_driver(&dev);
    // unrelated bits of CTRL_REG4 (0x23) stay as they were
    dev.borrow_mut().regs[0x23] = 0b1000_0001;

    driver.set_scale(Scale::Dps500).unwrap();
    assert_eq!(driver.scale().unwrap(), Scale::Dps500);
    assert_eq!(dev.borrow().regs[0x23], 0b1001_0001);

    driver.set_scale(Scale::Dps2000).unwrap();
    assert_eq!(driver.scale().unwrap(), Scale::Dps2000);
    assert_eq!(dev.borrow().regs[0x23], 0b1011_0001);
}

#[test]
fn all_reads_one_nine_byte_burst_from_the_temperature_register() {
    let dev = Device::new();
    {
        let mut d = dev.borrow_mut();
        d.regs[0x26] = 0xE0; // temperature: -32
        d.regs[0x27] = 0xFF; // status sits between, and is skipped
        d.regs[0x28] = 0x01;
        d.regs[0x29] = 0x00;
        d.regs[0x2A] = 0x02;
        d.regs[0x2B] = 0x00;
        d.regs[0x2C] = 0xFE;
        d.regs[0x2D] = 0xFF;
    }
    let mut driver = new_driver(&dev);
    let m = driver.all().unwrap();
    assert_eq!(m.temp, -32);
    assert_eq!(m.gyro.x, 1);
    assert_eq!(m.gyro.y, 2);
    assert_eq!(m.gyro.z, -2);
    // the burst frame: control byte with read and burst flags, then the
    // zero-filled payload region, nine bytes in all
    let frames = &dev.borrow().transfer_frames;
    assert_eq!(frames.last().unwrap(), &vec![0x26 | 0x80 | 0x40, 0, 0, 0, 0, 0, 0, 0, 0]);
}

#[test]
fn status_reads_the_status_register() {
    let dev = Device::new();
    dev.borrow_mut().regs[0x27] = 0b1000_0001;
    let mut driver = new_driver(&dev);
    let status = driver.status().unwrap();
    assert!(status.overrun);
    assert!(status.x_new);
    assert!(!status.z_overrun);
    assert!(!status.new_data);
}

#[test]
fn temp_reads_the_temperature_register() {
    let dev = Device::new();
    dev.borrow_mut().regs[0x26] = 0xCE;
    let mut driver = new_driver(&dev);
    assert_eq!(driver.temp().unwrap(), -50);
}

#[test]
fn single_read_frame_on_the_wire() {
    let dev = Device::new();
    let mut driver = new_driver(&dev);
    driver.who_am_i().unwrap();
    // control byte: address 0x0F with the read flag, then one placeholder
    assert_eq!(dev.borrow().transfer_frames, vec![vec![0x0F | 0x80, 0x00]]);
}

#[test]
fn error_is_propagated_and_chip_select_released() {
    let dev = Device::new();
    let mut driver = new_driver(&dev);
    dev.borrow_mut().fail_transfer_at = Some((0, BusError(42)));

    let result = driver.temp();
    assert_eq!(result, Err(BusError(42)));
    // even on the failing path the line was raised again
    assert!(!dev.borrow().cs_low);

    // the driver keeps working once the fault clears
    dev.borrow_mut().fail_transfer_at = None;
    dev.borrow_mut().regs[0x26] = 5;
    assert_eq!(driver.temp().unwrap(), 5);
}

#[test]
fn burst_error_is_propagated_and_chip_select_released() {
    let dev = Device::new();
    let mut driver = new_driver(&dev);
    dev.borrow_mut().fail_transfer_at = Some((0, BusError(3)));

    assert_eq!(driver.all().err(), Some(BusError(3)));
    assert!(!dev.borrow().cs_low);
    dev.borrow_mut().fail_transfer_at = Some((1, BusError(3)));
    assert_eq!(driver.gyro().err(), Some(BusError(3)));
    assert!(!dev.borrow().cs_low);
}

#[test]
fn setter_write_failure_propagates_and_chip_select_released() {
    let dev = Device::new();
    let mut driver = new_driver(&dev);
    // write 0 is the power-up write of `new`; write 1 is the setter's
    // write-back, so the read phase succeeds and the write phase fails
    dev.borrow_mut().fail_write_at = Some((1, BusError(9)));

    assert_eq!(driver.set_odr(Odr::Hz760), Err(BusError(9)));
    assert!(!dev.borrow().cs_low);
    // the read-modify-write got as far as reading the register once
    assert_eq!(dev.borrow().transfer_frames, vec![vec![0x20 | 0x80, 0x00]]);
}

#[test]
fn chip_select_frames_every_exchange() {
    let dev = Device::new();
    let mut driver = new_driver(&dev);
    driver.who_am_i().unwrap();
    driver.all().unwrap();
    driver.set_odr(Odr::Hz95).unwrap();
    assert!(!dev.borrow().exchanged_while_deselected);
    assert!(!dev.borrow().cs_low);
}

#[test]
fn control_byte_framing() {
    assert_eq!(l3gd20::control_byte(Register::WHO_AM_I, true, false), 0x8F);
    assert_eq!(l3gd20::control_byte(Register::OUT_TEMP, true, true), 0xE6);
    assert_eq!(l3gd20::control_byte(Register::CTRL_REG1, false, false), 0x20);
    assert_eq!(l3gd20::READ, 0x80);
    assert_eq!(l3gd20::MULTI, 0x40);
    assert_eq!(l3gd20::WRITE, 0x00);
    assert_eq!(l3gd20::SINGLE, 0x00);
}

#[test]
fn registers_used_by_the_driver() {
    assert_eq!(Register::CTRL_REG1.addr(), 0x20);
    assert_eq!(Register::CTRL_REG4.addr(), 0x23);
    assert_eq!(Register::OUT_TEMP.addr(), 0x26);
    assert_eq!(Register::STATUS_REG.addr(), 0x27);
    assert_eq!(Register::OUT_X_L.addr(), 0x28);
    assert_eq!(Register::WHO_AM_I.addr(), 0x0F);
}

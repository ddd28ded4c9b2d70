//! A deterministic simulated bus: a stand-in device that answers the
//! driver's transactions from plain state. Bench runs and tests drive the
//! whole pipeline through it with no hardware attached.

use vstd::prelude::*;

use crate::codec;
use crate::driver::{BusFault, SpiTransport, EXPECTED_DEVICE_ID};
use crate::register;
use crate::register::Register;

verus! {

/// A simulated device behind a simulated bus. It answers the identity read
/// with `device_id`, every sample read with the bytes encoding `sample`,
/// and the temperature read with `temp`; register writes are recorded. With
/// `fail` set, every transaction faults, as a broken bus would.
pub struct SimBus {
    /// Identity the simulated chip reports.
    pub device_id: u8,
    /// Raw axis triple encoded into every sample answer.
    pub sample: (i32, i32, i32),
    /// Raw 12-bit temperature encoded into every temperature answer.
    pub temp: u16,
    /// When set, every transaction faults.
    pub fail: bool,
    /// Register writes seen so far, as (address, value) pairs.
    pub writes: Vec<(u8, u8)>,
}

impl SimBus {
    /// A healthy simulated device with the expected identity, answering
    /// every sample read with the given raw triple.
    pub fn new(sample: (i32, i32, i32)) -> (b: SimBus)
        requires
            -0x80000 <= sample.0 < 0x80000,
            -0x80000 <= sample.1 < 0x80000,
            -0x80000 <= sample.2 < 0x80000,
        ensures
            b.device_id == EXPECTED_DEVICE_ID,
            b.sample == sample,
            b.temp == 0,
            b.fail == false,
            b.writes@.len() == 0,
    {
        SimBus { device_id: EXPECTED_DEVICE_ID, sample, temp: 0, fail: false, writes: Vec::new() }
    }

    /// Encodes one axis value, falling back to zero if the held value is
    /// outside the 20-bit domain.
    fn encode_axis_or_zero(v: i32) -> (b: (u8, u8, u8))
        ensures
            -0x80000 <= v < 0x80000 ==> codec::decode_axis_spec(b.0, b.1, b.2) == v,
    {
        if -0x80000 <= v && v < 0x80000 {
            codec::encode_axis(v)
        } else {
            codec::encode_axis(0)
        }
    }
}

impl SpiTransport for SimBus {
    fn write(&mut self, data: &Vec<u8>) -> (r: Result<(), BusFault>) {
        if self.fail {
            return Err(BusFault);
        }
        if data.len() >= 2 {
            self.writes.push((data[0] / 2, data[1]));
        }
        Ok(())
    }

    fn transfer_in_place(&mut self, data: &mut Vec<u8>) -> (r: Result<(), BusFault>) {
        if self.fail {
            return Err(BusFault);
        }
        if data.len() == 0 {
            return Ok(());
        }
        let cmd = data[0];
        if cmd == register::read_command(Register::DEVID.addr()) {
            if data.len() >= 2 {
                data.set(1, self.device_id);
            }
        } else if cmd == register::read_command(Register::XDATA3.addr()) {
            if data.len() >= 10 {
                let bx = Self::encode_axis_or_zero(self.sample.0);
                let by = Self::encode_axis_or_zero(self.sample.1);
                let bz = Self::encode_axis_or_zero(self.sample.2);
                data.set(1, bx.0);
                data.set(2, bx.1);
                data.set(3, bx.2);
                data.set(4, by.0);
                data.set(5, by.1);
                data.set(6, by.2);
                data.set(7, bz.0);
                data.set(8, bz.1);
                data.set(9, bz.2);
            }
        } else if cmd == register::read_command(Register::TEMP2.addr()) {
            if data.len() >= 3 {
                data.set(1, ((self.temp / 0x100) % 0x10) as u8);
                data.set(2, (self.temp % 0x100) as u8);
            }
        }
        Ok(())
    }
}

} // verus!

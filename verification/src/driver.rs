//! The register-level protocol driver: a handle on one physical sensor,
//! generic over the synchronous serial bus that carries its transactions.

use vstd::prelude::*;

use crate::codec;
use crate::codec::Normalized;
use crate::conf::{Config, HPF_CORNER, ODR_LPF, Range};
use crate::register;
use crate::register::Register;

verus! {

/// Part identity that the device reports from its identity register; any
/// other value means the bus is not talking to the expected chip.
pub const EXPECTED_DEVICE_ID: u8 = 0xED;

/// A failed serial transaction. The driver never retries: the fault
/// propagates to the caller, which drops the affected sample.
#[derive(Clone, Copy, Debug, PartialEq, Eq, Structural)]
pub struct BusFault;

/// Why initialization of a device failed.
#[derive(Clone, Copy, Debug, PartialEq, Eq, Structural)]
pub enum DriverError {
    /// A serial transaction failed.
    Bus,
    /// The identity register answered with something other than
    /// [`EXPECTED_DEVICE_ID`]: the device on the bus is not the expected
    /// chip, and initialization fails fast rather than configure it.
    IdentityMismatch {
        /// The identity value actually read.
        found: u8,
    },
}

/// The port through which the driver reaches the physical bus: one write
/// transaction and one full-duplex transfer. The surrounding process supplies
/// an implementation per wired bus; a deterministic one for bench runs lives
/// in [`crate::sim`].
pub trait SpiTransport {
    /// Performs one write transaction: every byte of `data` goes to the
    /// device, command byte first.
    fn write(&mut self, data: &Vec<u8>) -> Result<(), BusFault>;

    /// Performs one full-duplex transaction: `data` goes out and is replaced
    /// in place by the bytes the device answered, so the buffer keeps its
    /// length.
    fn transfer_in_place(&mut self, data: &mut Vec<u8>) -> (r: Result<(), BusFault>)
        ensures
            final(data)@.len() == old(data)@.len(),
    ;
}

/// The live, owned connection to one sensor: the bus handle plus the
/// configuration that was applied at initialization. Register transactions
/// are not atomic with respect to each other, so the handle is exclusively
/// owned and never shared without outside serialization.
pub struct Adxl355<SPI> {
    /// The serial-bus port that carries the handle's transactions.
    pub spi: SPI,
    /// Output-data-rate selection applied at initialization.
    pub odr: ODR_LPF,
    /// High-pass-corner selection applied at initialization.
    pub hpf: HPF_CORNER,
    /// Measurement-range selection applied at initialization.
    pub range: Range,
}

/// The rate a configuration selects, with the power-on default filling an
/// unset field.
pub open spec fn configured_odr(c: Config) -> ODR_LPF {
    match c.odr {
        Some(o) => o,
        None => ODR_LPF::ODR_4000_Hz,
    }
}

/// The filter corner a configuration selects, with the power-on default
/// filling an unset field.
pub open spec fn configured_hpf(c: Config) -> HPF_CORNER {
    match c.hpf {
        Some(h) => h,
        None => HPF_CORNER::NONE,
    }
}

/// The range a configuration selects, with the power-on default filling an
/// unset field.
pub open spec fn configured_range(c: Config) -> Range {
    match c.range {
        Some(r) => r,
        None => Range::_2G,
    }
}

/// The fail-fast identity decision: initialization may proceed exactly when
/// the identity register answered [`EXPECTED_DEVICE_ID`]; any other answer
/// fails that device, carrying the value actually read. Operating an
/// unverified device is never an option.
pub fn check_identity(id: u8) -> (r: Result<(), DriverError>)
    ensures
        r is Ok <==> id == EXPECTED_DEVICE_ID,
        r matches Err(e) ==> e == (DriverError::IdentityMismatch { found: id }),
{
    if id == EXPECTED_DEVICE_ID {
        Ok(())
    } else {
        Err(DriverError::IdentityMismatch { found: id })
    }
}

/// Builds the byte written to the filter register: the high-pass corner in
/// bits 6..4 and the output data rate in bits 3..0.
pub fn filter_value(hpf: HPF_CORNER, odr: ODR_LPF) -> (v: u8)
    ensures
        v == hpf.bits() * 16 + odr.bits(),
{
    hpf.val() * 16 + odr.val()
}

impl<SPI: SpiTransport> Adxl355<SPI> {
    /// Creates a driver from a bus handle with the default configuration.
    pub fn default(spi: SPI) -> (r: Result<Self, DriverError>)
        ensures
            r matches Ok(d) ==> {
                &&& d.odr == ODR_LPF::ODR_4000_Hz
                &&& d.hpf == HPF_CORNER::NONE
                &&& d.range == Range::_2G
            },
            r matches Err(DriverError::IdentityMismatch { found }) ==> found != EXPECTED_DEVICE_ID,
    {
        Adxl355::new(spi, &Config::default())
    }

    /// Initializes one device: reads the identity register and fails fast on
    /// a mismatch, then applies the filter and range configuration. On
    /// success the handle carries exactly the configured settings (power-on
    /// defaults where the configuration left a field unset); the
    /// configuration is fixed from here on.
    pub fn new(spi: SPI, config: &Config) -> (r: Result<Self, DriverError>)
        ensures
            r matches Ok(d) ==> {
                &&& d.odr == configured_odr(*config)
                &&& d.hpf == configured_hpf(*config)
                &&& d.range == configured_range(*config)
            },
            r matches Err(DriverError::IdentityMismatch { found }) ==> found != EXPECTED_DEVICE_ID,
    {
        let odr = match config.odr {
            Some(o) => o,
            None => ODR_LPF::default(),
        };
        let hpf = match config.hpf {
            Some(h) => h,
            None => HPF_CORNER::default(),
        };
        let range = match config.range {
            Some(r) => r,
            None => Range::default(),
        };
        let mut adxl355 = Adxl355 { spi, odr, hpf, range };

        let id = match adxl355.get_device_id() {
            Ok(id) => id,
            Err(_) => {
                return Err(DriverError::Bus);
            },
        };
        match check_identity(id) {
            Ok(()) => {},
            Err(e) => {
                return Err(e);
            },
        }

        match adxl355.write_reg(Register::FILTER.addr(), filter_value(adxl355.hpf, adxl355.odr)) {
            Ok(()) => {},
            Err(_) => {
                return Err(DriverError::Bus);
            },
        }
        match adxl355.write_reg(Register::RANGE.addr(), adxl355.range.val()) {
            Ok(()) => {},
            Err(_) => {
                return Err(DriverError::Bus);
            },
        }

        Ok(adxl355)
    }

    /// Puts the device in measurement mode; after power-up it sits in
    /// standby. Calling it twice has device-defined behavior, so the engine
    /// issues it exactly once per start-up.
    pub fn start(&mut self) -> (r: Result<(), BusFault>)
        ensures
            final(self).odr == old(self).odr,
            final(self).hpf == old(self).hpf,
            final(self).range == old(self).range,
    {
        self.write_reg(Register::POWER_CTL.addr(), 0)
    }

    /// Reads the raw contents of the temperature registers: a 12-bit value,
    /// decoded by [`codec::decode_temp`] from whatever the bus answered. A
    /// failed transaction propagates, as every driver operation's does.
    pub fn read_temp_raw(&mut self) -> (r: Result<u16, BusFault>)
        ensures
            final(self).odr == old(self).odr,
            final(self).hpf == old(self).hpf,
            final(self).range == old(self).range,
            r matches Ok(t) ==> t < 0x1000,
    {
        let mut bytes: Vec<u8> = Vec::new();
        bytes.push(register::read_command(Register::TEMP2.addr()));
        bytes.push(0);
        bytes.push(0);
        match self.read(&mut bytes) {
            Ok(()) => Ok(codec::decode_temp(bytes[1], bytes[2])),
            Err(f) => Err(f),
        }
    }

    /// Reads the device-identity register and hands back whatever the device
    /// answered.
    pub fn get_device_id(&mut self) -> (r: Result<u8, BusFault>)
        ensures
            final(self).odr == old(self).odr,
            final(self).hpf == old(self).hpf,
            final(self).range == old(self).range,
    {
        self.read_reg(Register::DEVID.addr())
    }

    /// One register write transaction: the command byte then the value.
    fn write_reg(&mut self, reg: u8, value: u8) -> (r: Result<(), BusFault>)
        requires
            reg < 0x80,
        ensures
            final(self).odr == old(self).odr,
            final(self).hpf == old(self).hpf,
            final(self).range == old(self).range,
    {
        let mut bytes: Vec<u8> = Vec::new();
        bytes.push(register::write_command(reg));
        bytes.push(value);
        self.spi.write(&bytes)
    }

    /// One register read transaction: hands back the byte the device put in
    /// the answer slot.
    fn read_reg(&mut self, reg: u8) -> (r: Result<u8, BusFault>)
        requires
            reg < 0x80,
        ensures
            final(self).odr == old(self).odr,
            final(self).hpf == old(self).hpf,
            final(self).range == old(self).range,
    {
        let mut bytes: Vec<u8> = Vec::new();
        bytes.push(register::read_command(reg));
        bytes.push(0);
        match self.spi.transfer_in_place(&mut bytes) {
            Ok(()) => Ok(bytes[1]),
            Err(f) => Err(f),
        }
    }

    /// One multi-byte transfer: the buffer keeps its length and holds the
    /// device's answer on success; a failed transaction propagates.
    fn read(&mut self, bytes: &mut Vec<u8>) -> (r: Result<(), BusFault>)
        ensures
            final(self).odr == old(self).odr,
            final(self).hpf == old(self).hpf,
            final(self).range == old(self).range,
            final(bytes)@.len() == old(bytes)@.len(),
    {
        self.spi.transfer_in_place(bytes)
    }

    /// One sample transaction: reads the nine data bytes (three axes of
    /// three bytes each) and decodes them with [`codec::decode_sample`],
    /// which pins the value of every axis as a function of the answered
    /// bytes. Whatever the device answered, each axis decodes to a 20-bit
    /// signed value; a failed transaction propagates instead.
    pub fn accel_raw(&mut self) -> (r: Result<(i32, i32, i32), BusFault>)
        ensures
            final(self).odr == old(self).odr,
            final(self).hpf == old(self).hpf,
            final(self).range == old(self).range,
            r matches Ok(s) ==> {
                &&& -0x80000 <= s.0 < 0x80000
                &&& -0x80000 <= s.1 < 0x80000
                &&& -0x80000 <= s.2 < 0x80000
            },
    {
        let mut bytes: Vec<u8> = Vec::new();
        let mut i: usize = 0;
        while i < 10
            invariant
                bytes@.len() == i,
                i <= 10,
            decreases 10 - i,
        {
            bytes.push(0);
            i = i + 1;
        }
        bytes.set(0, register::read_command(Register::XDATA3.addr()));
        match self.read(&mut bytes) {
            Ok(()) => Ok(codec::decode_sample(&bytes)),
            Err(f) => Err(f),
        }
    }

    /// One sample transaction with normalization: the raw triple scaled to g
    /// by the handle's configured range, exactly as
    /// [`codec::normalize_sample`] states. Fails only when the bus
    /// transaction fails; no in-range input can overflow the fixed-point
    /// arithmetic.
    pub fn accel_norm(&mut self) -> (r: Result<(Normalized, Normalized, Normalized), BusFault>)
        ensures
            final(self).odr == old(self).odr,
            final(self).hpf == old(self).hpf,
            final(self).range == old(self).range,
            r matches Ok(n) ==> {
                &&& n.0.den == codec::ACCEL_MAX_I20
                &&& n.1.den == codec::ACCEL_MAX_I20
                &&& n.2.den == codec::ACCEL_MAX_I20
            },
    {
        let raw = match self.accel_raw() {
            Ok(raw) => raw,
            Err(f) => {
                return Err(f);
            },
        };
        Ok(codec::normalize_sample(raw, self.range))
    }
}

} // verus!

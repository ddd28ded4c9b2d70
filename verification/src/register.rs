//! The slice of the sensor's register map that the driver touches, and the
//! command framing that puts a register address on the bus.

use vstd::prelude::*;

verus! {

/// Low bit of a command byte that marks a read transaction.
pub const SPI_READ: u8 = 0x01;

/// Low bit of a command byte that marks a write transaction.
pub const SPI_WRITE: u8 = 0x00;

/// Registers the driver reads or writes.
#[allow(non_camel_case_types)]
#[derive(Clone, Copy, Debug, PartialEq, Eq, Structural)]
pub enum Register {
    /// Device-identity register; reads back a fixed part identifier.
    DEVID,
    /// High temperature-data register (bits 11..8 of the raw temperature).
    TEMP2,
    /// First acceleration-data register; the eight registers after it hold
    /// the rest of the three 24-bit axis windows.
    XDATA3,
    /// Filter configuration: high-pass corner in bits 6..4, output data rate
    /// in bits 3..0.
    FILTER,
    /// Range configuration.
    RANGE,
    /// Power control; clearing its standby bit starts measurement.
    POWER_CTL,
}

impl Register {
    /// The register's address in the device's map.
    pub open spec fn addr_spec(self) -> u8 {
        match self {
            Register::DEVID => 0x02,
            Register::TEMP2 => 0x06,
            Register::XDATA3 => 0x08,
            Register::FILTER => 0x28,
            Register::RANGE => 0x2C,
            Register::POWER_CTL => 0x2D,
        }
    }

    /// The register's address in the device's map. Every address fits in
    /// seven bits, leaving the low bit of a command byte for the
    /// read/write mark.
    pub fn addr(self) -> (a: u8)
        ensures
            a == self.addr_spec(),
            a < 0x80,
    {
        match self {
            Register::DEVID => 0x02,
            Register::TEMP2 => 0x06,
            Register::XDATA3 => 0x08,
            Register::FILTER => 0x28,
            Register::RANGE => 0x2C,
            Register::POWER_CTL => 0x2D,
        }
    }
}

/// Command byte of a read transaction on `reg`: the address shifted left by
/// one with the read mark in the low bit.
pub open spec fn read_command_spec(reg: u8) -> u8
    recommends
        reg < 0x80,
{
    (reg * 2 + SPI_READ) as u8
}

/// Command byte of a write transaction on `reg`.
pub open spec fn write_command_spec(reg: u8) -> u8
    recommends
        reg < 0x80,
{
    (reg * 2 + SPI_WRITE) as u8
}

/// Builds the command byte of a read transaction.
pub fn read_command(reg: u8) -> (c: u8)
    requires
        reg < 0x80,
    ensures
        c == read_command_spec(reg),
{
    reg * 2 + SPI_READ
}

/// Builds the command byte of a write transaction.
pub fn write_command(reg: u8) -> (c: u8)
    requires
        reg < 0x80,
    ensures
        c == write_command_spec(reg),
{
    reg * 2 + SPI_WRITE
}

} // verus!

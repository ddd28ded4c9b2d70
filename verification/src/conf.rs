//! Device configuration: output data rate, high-pass filter corner and
//! measurement range, with their register encodings and derived quantities.

use vstd::prelude::*;

verus! {

/// Output-data-rate / low-pass-filter setting. Each variant names the nominal
/// sampling frequency in Hz.
#[allow(non_camel_case_types)]
#[derive(Clone, Copy, Debug, PartialEq, Eq, Structural)]
pub enum ODR_LPF {
    ODR_4000_Hz,
    ODR_2000_Hz,
    ODR_1000_Hz,
    ODR_500_Hz,
    ODR_250_Hz,
    ODR_125_Hz,
    ODR_62_5_Hz,
    ODR_31_25_Hz,
    ODR_15_625_Hz,
    ODR_7_813_Hz,
    ODR_3_906_Hz,
}

/// High-pass-filter corner setting. Each variant names the -3 dB corner as a
/// multiple of the output data rate, in units of 10^-4 x ODR; `NONE` disables
/// the filter.
#[allow(non_camel_case_types)]
#[derive(Clone, Copy, Debug, PartialEq, Eq, Structural)]
pub enum HPF_CORNER {
    NONE,
    _24_7_ODR,
    _6_2084_ODR,
    _1_5545_ODR,
    _0_3862_ODR,
    _0_0954_ODR,
    _0_0238_ODR,
}

/// Measurement range of the sensor, in +-g.
#[allow(non_camel_case_types)]
#[derive(Clone, Copy, Debug, PartialEq, Eq, Structural)]
pub enum Range {
    _2G,
    _4G,
    _8G,
}

impl ODR_LPF {
    /// Register encoding of the rate selection (low nibble of the filter
    /// register).
    pub open spec fn bits(self) -> u8 {
        match self {
            ODR_LPF::ODR_4000_Hz => 0x0,
            ODR_LPF::ODR_2000_Hz => 0x1,
            ODR_LPF::ODR_1000_Hz => 0x2,
            ODR_LPF::ODR_500_Hz => 0x3,
            ODR_LPF::ODR_250_Hz => 0x4,
            ODR_LPF::ODR_125_Hz => 0x5,
            ODR_LPF::ODR_62_5_Hz => 0x6,
            ODR_LPF::ODR_31_25_Hz => 0x7,
            ODR_LPF::ODR_15_625_Hz => 0x8,
            ODR_LPF::ODR_7_813_Hz => 0x9,
            ODR_LPF::ODR_3_906_Hz => 0xA,
        }
    }

    /// Register value of the rate selection.
    pub fn val(self) -> (v: u8)
        ensures
            v == self.bits(),
    {
        match self {
            ODR_LPF::ODR_4000_Hz => 0x0,
            ODR_LPF::ODR_2000_Hz => 0x1,
            ODR_LPF::ODR_1000_Hz => 0x2,
            ODR_LPF::ODR_500_Hz => 0x3,
            ODR_LPF::ODR_250_Hz => 0x4,
            ODR_LPF::ODR_125_Hz => 0x5,
            ODR_LPF::ODR_62_5_Hz => 0x6,
            ODR_LPF::ODR_31_25_Hz => 0x7,
            ODR_LPF::ODR_15_625_Hz => 0x8,
            ODR_LPF::ODR_7_813_Hz => 0x9,
            ODR_LPF::ODR_3_906_Hz => 0xA,
        }
    }

    /// Nominal sample period that the rate selection yields, in microseconds.
    pub open spec fn period_micros_spec(self) -> u32 {
        match self {
            ODR_LPF::ODR_4000_Hz => 250,
            ODR_LPF::ODR_2000_Hz => 500,
            ODR_LPF::ODR_1000_Hz => 1000,
            ODR_LPF::ODR_500_Hz => 2000,
            ODR_LPF::ODR_250_Hz => 4000,
            ODR_LPF::ODR_125_Hz => 8000,
            ODR_LPF::ODR_62_5_Hz => 16000,
            ODR_LPF::ODR_31_25_Hz => 32000,
            ODR_LPF::ODR_15_625_Hz => 64000,
            ODR_LPF::ODR_7_813_Hz => 128000,
            ODR_LPF::ODR_3_906_Hz => 256000,
        }
    }

    /// Nominal sample period in microseconds, from 250 us at 4000 Hz up to
    /// 256 ms at the slowest rate.
    pub fn period_micros(self) -> (us: u32)
        ensures
            us == self.period_micros_spec(),
            250 <= us <= 256000,
    {
        match self {
            ODR_LPF::ODR_4000_Hz => 250,
            ODR_LPF::ODR_2000_Hz => 500,
            ODR_LPF::ODR_1000_Hz => 1000,
            ODR_LPF::ODR_500_Hz => 2000,
            ODR_LPF::ODR_250_Hz => 4000,
            ODR_LPF::ODR_125_Hz => 8000,
            ODR_LPF::ODR_62_5_Hz => 16000,
            ODR_LPF::ODR_31_25_Hz => 32000,
            ODR_LPF::ODR_15_625_Hz => 64000,
            ODR_LPF::ODR_7_813_Hz => 128000,
            ODR_LPF::ODR_3_906_Hz => 256000,
        }
    }
}

impl Default for ODR_LPF {
    /// The power-on rate selection of the device.
    fn default() -> (r: Self)
        ensures
            r == ODR_LPF::ODR_4000_Hz,
    {
        ODR_LPF::ODR_4000_Hz
    }
}

impl HPF_CORNER {
    /// Register encoding of the corner selection (bits 6:4 of the filter
    /// register, before shifting).
    pub open spec fn bits(self) -> u8 {
        match self {
            HPF_CORNER::NONE => 0x0,
            HPF_CORNER::_24_7_ODR => 0x1,
            HPF_CORNER::_6_2084_ODR => 0x2,
            HPF_CORNER::_1_5545_ODR => 0x3,
            HPF_CORNER::_0_3862_ODR => 0x4,
            HPF_CORNER::_0_0954_ODR => 0x5,
            HPF_CORNER::_0_0238_ODR => 0x6,
        }
    }

    /// Register value of the corner selection.
    pub fn val(self) -> (v: u8)
        ensures
            v == self.bits(),
            v <= 0x6,
    {
        match self {
            HPF_CORNER::NONE => 0x0,
            HPF_CORNER::_24_7_ODR => 0x1,
            HPF_CORNER::_6_2084_ODR => 0x2,
            HPF_CORNER::_1_5545_ODR => 0x3,
            HPF_CORNER::_0_3862_ODR => 0x4,
            HPF_CORNER::_0_0954_ODR => 0x5,
            HPF_CORNER::_0_0238_ODR => 0x6,
        }
    }
}

impl Default for HPF_CORNER {
    /// The power-on corner selection: high-pass filtering disabled.
    fn default() -> (r: Self)
        ensures
            r == HPF_CORNER::NONE,
    {
        HPF_CORNER::NONE
    }
}

impl Range {
    /// Register encoding of the range selection.
    pub open spec fn bits(self) -> u8 {
        match self {
            Range::_2G => 0x1,
            Range::_4G => 0x2,
            Range::_8G => 0x3,
        }
    }

    /// Register value of the range selection.
    pub fn val(self) -> (v: u8)
        ensures
            v == self.bits(),
    {
        match self {
            Range::_2G => 0x1,
            Range::_4G => 0x2,
            Range::_8G => 0x3,
        }
    }

    /// Full-scale magnitude of the range, in g: the factor that scales a
    /// normalized raw sample to physical acceleration.
    pub open spec fn scale_spec(self) -> u32 {
        match self {
            Range::_2G => 2,
            Range::_4G => 4,
            Range::_8G => 8,
        }
    }

    /// Full-scale magnitude of the range, in g.
    pub fn scale(self) -> (s: u32)
        ensures
            s == self.scale_spec(),
            2 <= s <= 8,
    {
        match self {
            Range::_2G => 2,
            Range::_4G => 4,
            Range::_8G => 8,
        }
    }
}

impl Default for Range {
    /// The power-on range selection of the device.
    fn default() -> (r: Self)
        ensures
            r == Range::_2G,
    {
        Range::_2G
    }
}

/// Declarative device configuration, applied once at initialization. A field
/// left unset falls back to the device's power-on default.
#[derive(Clone, Copy, Debug, PartialEq, Eq, Structural)]
pub struct Config {
    /// Output-data-rate selection.
    pub odr: Option<ODR_LPF>,
    /// High-pass-filter corner selection.
    pub hpf: Option<HPF_CORNER>,
    /// Measurement-range selection.
    pub range: Option<Range>,
}

impl Config {
    /// A configuration with every field unset.
    pub fn new() -> (c: Config)
        ensures
            c.odr is None,
            c.hpf is None,
            c.range is None,
    {
        Config { odr: None, hpf: None, range: None }
    }

    /// Selects the output data rate.
    pub fn odr(self, odr: ODR_LPF) -> (c: Config)
        ensures
            c.odr == Some(odr),
            c.hpf == self.hpf,
            c.range == self.range,
    {
        Config { odr: Some(odr), ..self }
    }

    /// Selects the high-pass-filter corner.
    pub fn hpf(self, hpf: HPF_CORNER) -> (c: Config)
        ensures
            c.hpf == Some(hpf),
            c.odr == self.odr,
            c.range == self.range,
    {
        Config { hpf: Some(hpf), ..self }
    }

    /// Selects the measurement range.
    pub fn range(self, range: Range) -> (c: Config)
        ensures
            c.range == Some(range),
            c.odr == self.odr,
            c.hpf == self.hpf,
    {
        Config { range: Some(range), ..self }
    }
}

impl Default for Config {
    /// A configuration with every field unset.
    fn default() -> (c: Config)
        ensures
            c.odr is None,
            c.hpf is None,
            c.range is None,
    {
        Config { odr: None, hpf: None, range: None }
    }
}

} // verus!

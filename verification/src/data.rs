//! The reading a device publishes, and the fixed little-endian record layout
//! under which the distribution layer serializes one.

use vstd::prelude::*;

use crate::codec::{Normalized, ACCEL_MAX_I20};
use crate::timing;

verus! {

/// One timestamped sample from one device. Immutable value, copied freely;
/// produced once per successful sample and consumed by any number of
/// subscribers. Failures never travel in-band: a failed read produces no
/// reading at all.
#[derive(Clone, Copy, Debug, PartialEq, Eq, Structural)]
pub struct Reading {
    /// Index of the device the sample came from.
    pub idx: u32,
    /// Microseconds since this device's previous reading; zero for the
    /// first.
    pub gap: u32,
    /// Normalized x-axis acceleration, in g.
    pub x: Normalized,
    /// Normalized y-axis acceleration, in g.
    pub y: Normalized,
    /// Normalized z-axis acceleration, in g.
    pub z: Normalized,
}

impl Reading {
    /// A well-formed reading carries fractions over the fixed 20-bit
    /// denominator.
    pub open spec fn wf(self) -> bool {
        &&& self.x.den == ACCEL_MAX_I20
        &&& self.y.den == ACCEL_MAX_I20
        &&& self.z.den == ACCEL_MAX_I20
    }

    /// Assembles a reading for device `idx` from the gap context and a
    /// normalized sample.
    pub fn assemble(idx: u32, prev: Option<u64>, now: u64, n: (Normalized, Normalized, Normalized))
        -> (r: Reading)
        requires
            prev matches Some(p) ==> p <= now,
        ensures
            r.idx == idx,
            r.gap == timing::gap_of(prev, now),
            r.x == n.0 && r.y == n.1 && r.z == n.2,
    {
        let gap = gap_micros(prev, now);
        Reading { idx, gap, x: n.0, y: n.1, z: n.2 }
    }
}

/// Computes the gap a reading reports: zero for the first sample, otherwise
/// the elapsed microseconds, saturated to the 32-bit gap field.
pub fn gap_micros(prev: Option<u64>, now: u64) -> (g: u32)
    requires
        prev matches Some(p) ==> p <= now,
    ensures
        g == timing::gap_of(prev, now),
{
    match prev {
        None => 0,
        Some(p) => {
            let d: u64 = now - p;
            if d <= u32::MAX as u64 {
                d as u32
            } else {
                u32::MAX
            }
        },
    }
}

/// The four little-endian bytes of a 32-bit word, least significant first.
pub open spec fn le_bytes_32(v: u32) -> Seq<u8> {
    seq![
        (v % 0x100) as u8,
        ((v / 0x100) % 0x100) as u8,
        ((v / 0x10000) % 0x100) as u8,
        ((v / 0x1000000) % 0x100) as u8,
    ]
}

/// The 20-byte wire record of one reading: device index, gap, then the three
/// axis words, each 32 bits little-endian. The axis words are handed in as
/// plain 32-bit patterns (the distribution layer passes the bit image of its
/// single-precision values).
pub open spec fn record_spec(idx: u32, gap: u32, x_bits: u32, y_bits: u32, z_bits: u32) -> Seq<
    u8,
> {
    le_bytes_32(idx) + le_bytes_32(gap) + le_bytes_32(x_bits) + le_bytes_32(y_bits) + le_bytes_32(
        z_bits,
    )
}

/// Appends the four little-endian bytes of `v` to `out`.
fn push_le_32(out: &mut Vec<u8>, v: u32)
    ensures
        final(out)@ == old(out)@ + le_bytes_32(v),
{
    out.push((v % 0x100) as u8);
    out.push(((v / 0x100) % 0x100) as u8);
    out.push(((v / 0x10000) % 0x100) as u8);
    out.push(((v / 0x1000000) % 0x100) as u8);
    proof {
        assert(out@ =~= old(out)@ + le_bytes_32(v));
    }
}

/// Serializes one reading into the fixed 20-byte little-endian record:
/// device index, gap microseconds, then x, y, z as 32-bit words.
pub fn record_bytes(idx: u32, gap: u32, x_bits: u32, y_bits: u32, z_bits: u32) -> (b: Vec<u8>)
    ensures
        b@ == record_spec(idx, gap, x_bits, y_bits, z_bits),
        b@.len() == 20,
{
    let mut out: Vec<u8> = Vec::new();
    push_le_32(&mut out, idx);
    push_le_32(&mut out, gap);
    push_le_32(&mut out, x_bits);
    push_le_32(&mut out, y_bits);
    push_le_32(&mut out, z_bits);
    proof {
        assert(out@ =~= record_spec(idx, gap, x_bits, y_bits, z_bits));
    }
    out
}

} // verus!

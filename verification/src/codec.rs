//! Bit-level decoding of the sensor's sample format: 20-bit two's-complement
//! fields packed into 24-bit register windows, and range-scaled normalization
//! of the decoded values.

use vstd::prelude::*;

use crate::conf::Range;

verus! {

/// Largest magnitude of a 20-bit signed sample: 2^19 - 1. Normalization
/// divides by this value.
pub const ACCEL_MAX_I20: u32 = 524287;

/// The unsigned 20-bit field held by one axis's three data registers: the
/// first byte gives bits 19..12, the second bits 11..4, and the high nibble
/// of the third bits 3..0.
pub open spec fn axis_field(b0: u8, b1: u8, b2: u8) -> int {
    b0 * 0x1000 + b1 * 0x10 + (b2 as int) / 0x10
}

/// Two's-complement reading of an unsigned 20-bit field: values with bit 19
/// set stand for negatives.
pub open spec fn sign_extend_20(field: int) -> int
    recommends
        0 <= field < 0x100000,
{
    if field < 0x80000 {
        field
    } else {
        field - 0x100000
    }
}

/// The unsigned 20-bit field that encodes a signed value: the inverse of
/// [`sign_extend_20`].
pub open spec fn field_of_value(v: int) -> int
    recommends
        -0x80000 <= v < 0x80000,
{
    if v >= 0 {
        v
    } else {
        v + 0x100000
    }
}

/// Sign extension decodes every unsigned 20-bit field to its two's-complement
/// value: the result lies in [-2^19, 2^19), and re-encoding it gives the
/// field back, so the decoding is one to one over the whole 20-bit domain.
pub proof fn lemma_sign_extend_20_bijective(field: int)
    requires
        0 <= field < 0x100000,
    ensures
        -0x80000 <= sign_extend_20(field) < 0x80000,
        field_of_value(sign_extend_20(field)) == field,
{
}

/// Re-encoding is the inverse in the other direction: every signed value in
/// [-2^19, 2^19) decodes back from its 20-bit field.
pub proof fn lemma_field_of_value_round_trip(v: int)
    requires
        -0x80000 <= v < 0x80000,
    ensures
        0 <= field_of_value(v) < 0x100000,
        sign_extend_20(field_of_value(v)) == v,
{
}

/// Reconstructs one axis value from its three data bytes: the 20-bit field is
/// read out of the 24-bit window and sign-extended to a full signed integer.
pub fn decode_axis(b0: u8, b1: u8, b2: u8) -> (v: i32)
    ensures
        v == sign_extend_20(axis_field(b0, b1, b2)),
        -0x80000 <= v < 0x80000,
{
    let field: u32 = (b0 as u32) * 0x1000 + (b1 as u32) * 0x10 + (b2 as u32) / 0x10;
    if field < 0x80000 {
        field as i32
    } else {
        (field as i32) - 0x100000
    }
}

/// Packs a signed axis value back into the three data bytes the sensor would
/// report for it; [`decode_axis`] recovers the value exactly.
pub fn encode_axis(v: i32) -> (b: (u8, u8, u8))
    requires
        -0x80000 <= v < 0x80000,
    ensures
        decode_axis_spec(b.0, b.1, b.2) == v,
{
    let field: u32 = if v >= 0 {
        v as u32
    } else {
        (v + 0x100000) as u32
    };
    let b0: u8 = (field / 0x1000) as u8;
    let b1: u8 = ((field / 0x10) % 0x100) as u8;
    let b2: u8 = ((field % 0x10) * 0x10) as u8;
    proof {
        lemma_field_of_value_round_trip(v as int);
        assert(field == field_of_value(v as int));
        assert(axis_field(b0, b1, b2) == field) by {
            assert(b0 == field / 0x1000 && b1 == (field / 0x10) % 0x100 && b2 == (field % 0x10)
                * 0x10);
        }
    }
    (b0, b1, b2)
}

/// What [`decode_axis`] returns, as a function of the three bytes.
pub open spec fn decode_axis_spec(b0: u8, b1: u8, b2: u8) -> int {
    sign_extend_20(axis_field(b0, b1, b2))
}

/// What [`decode_temp`] returns: the 12-bit raw temperature held by the two
/// temperature registers, high nibble first.
pub open spec fn decode_temp_spec(b1: u8, b2: u8) -> u16 {
    ((b1 % 0x10) * 0x100 + b2) as u16
}

/// Reconstructs the 12-bit raw temperature from the two temperature-register
/// bytes: the low nibble of the first byte gives bits 11..8, the second byte
/// bits 7..0.
pub fn decode_temp(b1: u8, b2: u8) -> (t: u16)
    ensures
        t == decode_temp_spec(b1, b2),
        t < 0x1000,
{
    (b1 % 0x10) as u16 * 0x100 + b2 as u16
}

/// Decodes one 10-byte sample transaction: byte 0 echoes the command, bytes
/// 1..=3, 4..=6 and 7..=9 hold the x, y and z axis windows. Each axis is the
/// sign-extended 20-bit field of its three bytes, whatever those bytes are.
pub fn decode_sample(bytes: &Vec<u8>) -> (s: (i32, i32, i32))
    requires
        bytes@.len() == 10,
    ensures
        s.0 == decode_axis_spec(bytes@[1], bytes@[2], bytes@[3]),
        s.1 == decode_axis_spec(bytes@[4], bytes@[5], bytes@[6]),
        s.2 == decode_axis_spec(bytes@[7], bytes@[8], bytes@[9]),
        -0x80000 <= s.0 < 0x80000,
        -0x80000 <= s.1 < 0x80000,
        -0x80000 <= s.2 < 0x80000,
{
    let x = decode_axis(bytes[1], bytes[2], bytes[3]);
    let y = decode_axis(bytes[4], bytes[5], bytes[6]);
    let z = decode_axis(bytes[7], bytes[8], bytes[9]);
    (x, y, z)
}

/// A normalized acceleration: the exact rational `num / den` in units of g.
/// Kept as a fraction so that no precision is lost; a consumer divides when
/// it needs a machine real.
#[derive(Clone, Copy, Debug, PartialEq, Eq, Structural)]
pub struct Normalized {
    /// Numerator: the raw sample times the range's scale factor.
    pub num: i32,
    /// Denominator: the largest 20-bit magnitude, [`ACCEL_MAX_I20`].
    pub den: u32,
}

/// Normalization is linear and range-scaled: the result is exactly
/// `raw / 524287 * scale(range)` in g, held as the fraction
/// `(raw * scale(range)) / 524287`.
pub fn normalize(raw: i32, range: Range) -> (n: Normalized)
    requires
        -0x80000 <= raw < 0x80000,
    ensures
        n.num == raw * range.scale_spec(),
        n.den == ACCEL_MAX_I20,
{
    let num: i32 = match range {
        Range::_2G => raw * 2,
        Range::_4G => raw * 4,
        Range::_8G => raw * 8,
    };
    Normalized { num, den: ACCEL_MAX_I20 }
}

/// Normalizes a raw axis triple under one measurement range: each component
/// is exactly `raw / 524287 * scale(range)` in g.
pub fn normalize_sample(s: (i32, i32, i32), range: Range) -> (n: (
    Normalized,
    Normalized,
    Normalized,
))
    requires
        -0x80000 <= s.0 < 0x80000,
        -0x80000 <= s.1 < 0x80000,
        -0x80000 <= s.2 < 0x80000,
    ensures
        n.0.num == s.0 * range.scale_spec() && n.0.den == ACCEL_MAX_I20,
        n.1.num == s.1 * range.scale_spec() && n.1.den == ACCEL_MAX_I20,
        n.2.num == s.2 * range.scale_spec() && n.2.den == ACCEL_MAX_I20,
{
    (normalize(s.0, range), normalize(s.1, range), normalize(s.2, range))
}

} // verus!

//! Angle codec: converts the unsigned wraparound counter reported by an
//! actuator into a signed angle and back.
//!
//! Counter values below the signed maximum are positive angles read off
//! directly; values at or above it count down from the unsigned maximum and
//! stand for negative angles.

use vstd::prelude::*;

verus! {

/// The signed angle that an unsigned counter value stands for.
pub open spec fn spec_decode(raw: int) -> int {
    if raw < 0x7fff_ffff {
        raw
    } else {
        -(0xffff_ffff - raw)
    }
}

/// The counter value that a signed angle is written as: nonnegative angles
/// directly, negative angles counting down from the unsigned maximum.
pub open spec fn spec_encode(angle: int) -> int {
    if angle >= 0 {
        angle
    } else {
        0xffff_ffff + angle
    }
}

/// Decode one raw counter value into a signed angle.
pub fn read_i32_angle(angle: u32) -> (r: i32)
    ensures
        r as int == spec_decode(angle as int),
{
    if angle < i32::MAX as u32 {
        angle as i32
    } else {
        let distance: i64 = (u32::MAX as i64) - (angle as i64);
        (-distance) as i32
    }
}

/// Encode a signed angle as the raw counter value an actuator accepts.
pub fn encode_i32_angle(angle: i32) -> (r: u32)
    ensures
        r as int == spec_encode(angle as int),
{
    if angle >= 0 {
        angle as u32
    } else {
        ((u32::MAX as i64) + (angle as i64)) as u32
    }
}

/// Every decoded angle lies strictly within one counter range of zero, is
/// nonnegative exactly on the low half of the counter, and the wrap point
/// itself decodes to zero.
pub proof fn lemma_decode_range(raw: int)
    requires
        0 <= raw <= 0xffff_ffff,
    ensures
        -0x8000_0000 <= spec_decode(raw) <= 0x7fff_fffe,
        raw < 0x7fff_ffff ==> spec_decode(raw) == raw && spec_decode(raw) >= 0,
        raw >= 0x7fff_ffff ==> spec_decode(raw) == -(0xffff_ffff - raw) && spec_decode(raw) <= 0,
        spec_decode(0xffff_ffff) == 0,
{
}

/// Decoding inverts encoding for every angle the counter can represent:
/// all of the signed range except the signed maximum itself, whose counter
/// value is taken by the most negative angle.
pub proof fn lemma_decode_encode_roundtrip(angle: int)
    requires
        -0x8000_0000 <= angle < 0x7fff_ffff,
    ensures
        0 <= spec_encode(angle) <= 0xffff_ffff,
        spec_decode(spec_encode(angle)) == angle,
{
}

/// Encoding inverts decoding for every counter value except the wrap point,
/// which decodes to zero and re-encodes as zero.
pub proof fn lemma_encode_decode_roundtrip(raw: int)
    requires
        0 <= raw < 0xffff_ffff,
    ensures
        spec_encode(spec_decode(raw)) == raw,
{
}

} // verus!

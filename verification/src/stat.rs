//! Difficulty statistics. The decoded value of a statistic is the bit pattern
//! of an IEEE 754 single-precision floating value. Newer files store those
//! four bytes directly; older files store a single byte, whose integer value
//! the game client widens to the floating value it denotes. Every byte
//! value is exactly representable, so the widened bit pattern is a pure
//! integer function of the byte, defined here and computed without any
//! floating-point arithmetic.

use vstd::prelude::*;

use crate::context::s_version_context;
use crate::context::STAT_WIDTH_VERSION;
use crate::error::DecodeError;
use crate::primitive::s_u32;
use crate::primitive::s_u8;
use crate::primitive::decode_u32;
use crate::primitive::decode_u8;

verus! {

/// The IEEE 754 single-precision bit pattern whose value is exactly `b`:
/// for `b == 0` the zero pattern, otherwise a biased exponent of `127 + k`
/// where `2^k <= b < 2^(k+1)`, with the remaining bits of `b` left-aligned
/// in the significand.
pub open spec fn s_single_of_byte(b: u8) -> u32 {
    if b == 0 {
        0
    } else if b < 2 {
        0x3f800000
    } else if b < 4 {
        (0x40000000 + (b - 2) * 0x400000) as u32
    } else if b < 8 {
        (0x40800000 + (b - 4) * 0x200000) as u32
    } else if b < 16 {
        (0x41000000 + (b - 8) * 0x100000) as u32
    } else if b < 32 {
        (0x41800000 + (b - 16) * 0x80000) as u32
    } else if b < 64 {
        (0x42000000 + (b - 32) * 0x40000) as u32
    } else if b < 128 {
        (0x42800000 + (b - 64) * 0x20000) as u32
    } else {
        (0x43000000 + (b - 128) * 0x10000) as u32
    }
}

/// Computes the single-precision bit pattern whose value is exactly `b`.
pub fn single_bits_of_byte(b: u8) -> (r: u32)
    ensures
        r == s_single_of_byte(b),
{
    if b == 0 {
        0
    } else if b < 2 {
        0x3f800000
    } else if b < 4 {
        0x40000000 + (b as u32 - 2) * 0x400000
    } else if b < 8 {
        0x40800000 + (b as u32 - 4) * 0x200000
    } else if b < 16 {
        0x41000000 + (b as u32 - 8) * 0x100000
    } else if b < 32 {
        0x41800000 + (b as u32 - 16) * 0x80000
    } else if b < 64 {
        0x42000000 + (b as u32 - 32) * 0x40000
    } else if b < 128 {
        0x42800000 + (b as u32 - 64) * 0x20000
    } else {
        0x43000000 + (b as u32 - 128) * 0x10000
    }
}

/// Layout of one difficulty statistic at `pos`: a single byte widened to its
/// floating bit pattern when `as_byte` holds, the four raw bytes of the
/// pattern otherwise.
pub open spec fn s_stat(s: Seq<u8>, pos: int, as_byte: bool) -> Result<(u32, int), DecodeError> {
    if as_byte {
        match s_u8(s, pos) {
            Ok((b, p)) => Ok((s_single_of_byte(b), p)),
            Err(e) => Err(e),
        }
    } else {
        s_u32(s, pos)
    }
}

/// Decodes one difficulty statistic under the given width selector.
pub fn decode_stat(input: &[u8], pos: usize, as_byte: bool) -> (r: Result<
    (u32, usize),
    DecodeError,
>)
    ensures
        match r {
            Ok((v, p)) => s_stat(input@, pos as int, as_byte) == Ok::<_, DecodeError>((
                v,
                p as int,
            )) && pos < p <= input.len(),
            Err(e) => s_stat(input@, pos as int, as_byte) == Err::<(u32, int), _>(e),
        },
{
    if as_byte {
        match decode_u8(input, pos) {
            Ok((b, p)) => Ok((single_bits_of_byte(b), p)),
            Err(e) => Err(e),
        }
    } else {
        decode_u32(input, pos)
    }
}

/// The version boundary for statistic width: the same bytes, at the same
/// position, decode as one widened byte under any version below the
/// threshold, and as a raw 4-byte floating pattern under any version at or
/// above it. The outcome depends on the header version alone, never on the
/// entry's content.
pub proof fn lemma_stat_version_boundary(s: Seq<u8>, pos: int, v_old: u32, v_new: u32)
    requires
        v_old < STAT_WIDTH_VERSION,
        v_new >= STAT_WIDTH_VERSION,
    ensures
        s_stat(s, pos, s_version_context(v_old).stats_as_bytes) == (match s_u8(s, pos) {
            Ok((b, p)) => Ok::<_, DecodeError>((s_single_of_byte(b), p)),
            Err(e) => Err::<(u32, int), _>(e),
        }),
        s_stat(s, pos, s_version_context(v_new).stats_as_bytes) == s_u32(s, pos),
{
}

} // verus!

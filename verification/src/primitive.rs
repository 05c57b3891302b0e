//! Primitive decoders: fixed-width little-endian integers, single-byte
//! booleans, 7-bit continuation lengths, and presence-tagged strings.
//!
//! Every decoder takes the whole buffer and a cursor position and returns the
//! decoded value together with the position just past it, or an error. Each is
//! verified against a specification function that defines the layout exactly.

use vstd::prelude::*;

use crate::error::DecodeError;

verus! {

/// Layout of a single byte at `pos`.
pub open spec fn s_u8(s: Seq<u8>, pos: int) -> Result<(u8, int), DecodeError> {
    if 0 <= pos && pos + 1 <= s.len() {
        Ok((s[pos], pos + 1))
    } else {
        Err(DecodeError::Truncated)
    }
}

/// Layout of a 2-byte little-endian unsigned integer at `pos`.
pub open spec fn s_u16(s: Seq<u8>, pos: int) -> Result<(u16, int), DecodeError> {
    if 0 <= pos && pos + 2 <= s.len() {
        Ok((((s[pos] as nat) + 0x100 * (s[pos + 1] as nat)) as u16, pos + 2))
    } else {
        Err(DecodeError::Truncated)
    }
}

/// Layout of a 4-byte little-endian unsigned integer at `pos`.
pub open spec fn s_u32(s: Seq<u8>, pos: int) -> Result<(u32, int), DecodeError> {
    if 0 <= pos && pos + 4 <= s.len() {
        Ok(
            (
                ((s[pos] as nat) + 0x100 * (s[pos + 1] as nat) + 0x10000 * (s[pos + 2] as nat)
                    + 0x1000000 * (s[pos + 3] as nat)) as u32,
                pos + 4,
            ),
        )
    } else {
        Err(DecodeError::Truncated)
    }
}

/// Layout of an 8-byte little-endian unsigned integer at `pos`.
pub open spec fn s_u64(s: Seq<u8>, pos: int) -> Result<(u64, int), DecodeError> {
    if 0 <= pos && pos + 8 <= s.len() {
        Ok(
            (
                ((s[pos] as nat) + 0x100 * (s[pos + 1] as nat) + 0x10000 * (s[pos + 2] as nat)
                    + 0x1000000 * (s[pos + 3] as nat) + 0x100000000 * (s[pos + 4] as nat)
                    + 0x10000000000 * (s[pos + 5] as nat) + 0x1000000000000 * (s[pos + 6] as nat)
                    + 0x100000000000000 * (s[pos + 7] as nat)) as u64,
                pos + 8,
            ),
        )
    } else {
        Err(DecodeError::Truncated)
    }
}

/// Layout of a single-byte boolean at `pos`: any non-zero byte is true.
pub open spec fn s_bool(s: Seq<u8>, pos: int) -> Result<(bool, int), DecodeError> {
    match s_u8(s, pos) {
        Ok((b, p)) => Ok((b != 0, p)),
        Err(e) => Err(e),
    }
}

/// Layout of a variable-length unsigned integer at `pos`: 7 value bits per
/// byte, least significant chunk first, the high bit of each byte marking a
/// continuation. The mathematical value is unbounded.
pub open spec fn s_uleb(s: Seq<u8>, pos: int) -> Result<(nat, int), DecodeError>
    decreases s.len() - pos,
{
    if pos < 0 || pos + 1 > s.len() {
        Err(DecodeError::Truncated)
    } else if s[pos] < 0x80 {
        Ok(((s[pos] as nat), pos + 1))
    } else {
        match s_uleb(s, pos + 1) {
            Ok((v, p)) => Ok((((s[pos] - 0x80) as nat + 0x80 * v) as nat, p)),
            Err(e) => Err(e),
        }
    }
}

/// A successful 7-bit continuation decode always ends past its start and
/// within the buffer.
pub proof fn lemma_uleb_bounds(s: Seq<u8>, pos: int)
    requires
        s_uleb(s, pos) is Ok,
    ensures
        pos < s_uleb(s, pos)->Ok_0.1 <= s.len(),
    decreases s.len() - pos,
{
    if 0 <= pos && pos + 1 <= s.len() && s[pos] >= 0x80 {
        lemma_uleb_bounds(s, pos + 1);
    }
}

/// Decodes one byte.
pub fn decode_u8(input: &[u8], pos: usize) -> (r: Result<(u8, usize), DecodeError>)
    ensures
        match r {
            Ok((v, p)) => s_u8(input@, pos as int) == Ok::<_, DecodeError>((v, p as int)) && pos < p
                <= input.len(),
            Err(e) => s_u8(input@, pos as int) == Err::<(u8, int), _>(e),
        },
{
    if pos < input.len() {
        Ok((input[pos], pos + 1))
    } else {
        Err(DecodeError::Truncated)
    }
}

/// Decodes a 2-byte little-endian unsigned integer.
pub fn decode_u16(input: &[u8], pos: usize) -> (r: Result<(u16, usize), DecodeError>)
    ensures
        match r {
            Ok((v, p)) => s_u16(input@, pos as int) == Ok::<_, DecodeError>((v, p as int)) && pos
                < p <= input.len(),
            Err(e) => s_u16(input@, pos as int) == Err::<(u16, int), _>(e),
        },
{
    if pos < input.len() && input.len() - pos >= 2 {
        let v: u16 = (input[pos] as u16) + 0x100 * (input[pos + 1] as u16);
        Ok((v, pos + 2))
    } else {
        Err(DecodeError::Truncated)
    }
}

/// Decodes a 4-byte little-endian unsigned integer.
pub fn decode_u32(input: &[u8], pos: usize) -> (r: Result<(u32, usize), DecodeError>)
    ensures
        match r {
            Ok((v, p)) => s_u32(input@, pos as int) == Ok::<_, DecodeError>((v, p as int)) && pos
                < p <= input.len(),
            Err(e) => s_u32(input@, pos as int) == Err::<(u32, int), _>(e),
        },
{
    if pos < input.len() && input.len() - pos >= 4 {
        let v: u32 = (input[pos] as u32) + 0x100 * (input[pos + 1] as u32) + 0x10000 * (input[pos
            + 2] as u32) + 0x1000000 * (input[pos + 3] as u32);
        Ok((v, pos + 4))
    } else {
        Err(DecodeError::Truncated)
    }
}

/// Decodes an 8-byte little-endian unsigned integer.
pub fn decode_u64(input: &[u8], pos: usize) -> (r: Result<(u64, usize), DecodeError>)
    ensures
        match r {
            Ok((v, p)) => s_u64(input@, pos as int) == Ok::<_, DecodeError>((v, p as int)) && pos
                < p <= input.len(),
            Err(e) => s_u64(input@, pos as int) == Err::<(u64, int), _>(e),
        },
{
    if pos < input.len() && input.len() - pos >= 8 {
        let v: u64 = (input[pos] as u64) + 0x100 * (input[pos + 1] as u64) + 0x10000 * (input[pos
            + 2] as u64) + 0x1000000 * (input[pos + 3] as u64) + 0x100000000 * (input[pos
            + 4] as u64) + 0x10000000000 * (input[pos + 5] as u64) + 0x1000000000000 * (input[pos
            + 6] as u64) + 0x100000000000000 * (input[pos + 7] as u64);
        Ok((v, pos + 8))
    } else {
        Err(DecodeError::Truncated)
    }
}

/// Decodes a single-byte boolean: any non-zero byte is true.
pub fn boolean(input: &[u8], pos: usize) -> (r: Result<(bool, usize), DecodeError>)
    ensures
        match r {
            Ok((v, p)) => s_bool(input@, pos as int) == Ok::<_, DecodeError>((v, p as int)) && pos
                < p <= input.len(),
            Err(e) => s_bool(input@, pos as int) == Err::<(bool, int), _>(e),
        },
{
    match decode_u8(input, pos) {
        Ok((b, p)) => Ok((b != 0, p)),
        Err(e) => Err(e),
    }
}

/// Decodes a 7-bit continuation length. A value too large for `u64` is
/// reported as `Truncated`, since such a length always exceeds any buffer
/// that can exist in memory.
pub fn decode_uleb(input: &[u8], pos: usize) -> (r: Result<(u64, usize), DecodeError>)
    ensures
        match r {
            Ok((v, p)) => s_uleb(input@, pos as int) == Ok::<_, DecodeError>((v as nat, p as int))
                && pos < p <= input.len(),
            Err(e) => e == DecodeError::Truncated && (s_uleb(input@, pos as int) == Err::<
                (nat, int),
                _,
            >(DecodeError::Truncated) || exists|v: nat, p: int|
                s_uleb(input@, pos as int) == Ok::<_, DecodeError>((v, p)) && v > u64::MAX),
        },
    decreases input.len() - pos,
{
    if pos >= input.len() {
        return Err(DecodeError::Truncated);
    }
    let b = input[pos];
    if b < 0x80 {
        Ok((b as u64, pos + 1))
    } else {
        match decode_uleb(input, pos + 1) {
            Err(e) => Err(e),
            Ok((v, p)) => {
                if v > 0x01ff_ffff_ffff_ffff {
                    Err(DecodeError::Truncated)
                } else {
                    Ok(((b - 0x80) as u64 + 0x80 * v, p))
                }
            },
        }
    }
}

/// A presence-tagged string field: absent, or the raw text bytes of the
/// field. The bytes are copied out of the buffer at decode time.
#[derive(Clone, Debug, PartialEq, Eq)]
pub struct OsuStr {
    pub text: Option<Vec<u8>>,
}

impl View for OsuStr {
    type V = Option<Seq<u8>>;

    open spec fn view(&self) -> Option<Seq<u8>> {
        match self.text {
            Some(v) => Some(v@),
            None => None,
        }
    }
}

/// Layout of a presence-tagged string at `pos`: a flag byte, which marks the
/// field absent unless it is 0x0b, then a 7-bit continuation byte count, then
/// that many text bytes.
pub open spec fn s_osu_str(s: Seq<u8>, pos: int) -> Result<(Option<Seq<u8>>, int), DecodeError> {
    match s_u8(s, pos) {
        Err(e) => Err(e),
        Ok((flag, p)) => {
            if flag != 0x0b {
                Ok((None, p))
            } else {
                match s_uleb(s, p) {
                    Err(e) => Err(e),
                    Ok((n, q)) => {
                        if q + n <= s.len() {
                            Ok((Some(s.subrange(q, q + n)), q + n))
                        } else {
                            Err(DecodeError::Truncated)
                        }
                    },
                }
            }
        },
    }
}

/// Decodes a presence-tagged string.
pub fn osu_string(input: &[u8], pos: usize) -> (r: Result<(OsuStr, usize), DecodeError>)
    ensures
        match r {
            Ok((v, p)) => s_osu_str(input@, pos as int) == Ok::<_, DecodeError>((v@, p as int))
                && pos < p <= input.len(),
            Err(e) => s_osu_str(input@, pos as int) == Err::<(Option<Seq<u8>>, int), _>(e),
        },
{
    let (flag, p) = match decode_u8(input, pos) {
        Ok(x) => x,
        Err(e) => {
            return Err(e);
        },
    };
    if flag != 0x0b {
        return Ok((OsuStr { text: None }, p));
    }
    let (n, q) = match decode_uleb(input, p) {
        Ok(x) => x,
        Err(e) => {
            // Either the length itself runs past the buffer, or it encodes a
            // count too large for `u64`, which no buffer can satisfy.
            proof {
                if s_uleb(input@, p as int) is Ok {
                    lemma_uleb_bounds(input@, p as int);
                    let (v, qq) = s_uleb(input@, p as int)->Ok_0;
                    assert(qq + v > input@.len());
                }
            }
            return Err(e);
        },
    };
    if n > (input.len() - q) as u64 {
        return Err(DecodeError::Truncated);
    }
    let count = n as usize;
    let mut text: Vec<u8> = Vec::new();
    let mut i: usize = 0;
    while i < count
        invariant
            i <= count,
            q + count <= input.len(),
            text@ == input@.subrange(q as int, q + i as int),
        decreases count - i,
    {
        text.push(input[q + i]);
        proof {
            assert(text@ =~= input@.subrange(q as int, q + i + 1 as int));
        }
        i = i + 1;
    }
    Ok((OsuStr { text: Some(text) }, q + count))
}

} // verus!

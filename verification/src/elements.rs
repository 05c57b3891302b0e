//! Enum decoders and the small composite records: the tagged numeric pair,
//! the timing point, and their count-prefixed lists.

use vstd::prelude::*;

use crate::error::DecodeError;
use crate::error::FieldKind;
use crate::primitive::s_bool;
use crate::primitive::s_u32;
use crate::primitive::s_u64;
use crate::primitive::s_u8;
use crate::primitive::boolean;
use crate::primitive::decode_u32;
use crate::primitive::decode_u64;
use crate::primitive::decode_u8;

verus! {

/// The ranked status of a beatmap, a closed set of seven discriminants.
/// The raw value 3 is reserved and rejected like any unknown code.
#[derive(Clone, Copy, Debug, PartialEq, Eq, Structural)]
pub enum RankedStatus {
    Unknown,
    Unsubmitted,
    /// Pending / WIP / Graveyard.
    Pending,
    Ranked,
    Approved,
    Qualified,
    Loved,
}

/// The gameplay mode of a beatmap, a closed set of four discriminants.
#[derive(Clone, Copy, Debug, PartialEq, Eq, Structural)]
pub enum GameplayMode {
    Standard,
    Taiko,
    Catch,
    Mania,
}

/// A timing point: tempo and offset are the bit patterns of 8-byte floating
/// values.
#[derive(Clone, Copy, Debug, PartialEq, Eq, Structural)]
pub struct TimingPoint {
    /// Bit pattern of the BPM of this timing point.
    pub bpm: u64,
    /// Bit pattern of the offset into the song.
    pub song_offset: u64,
    /// Whether this timing point is inherited.
    pub inherited: bool,
}

/// The variant a ranked-status byte maps to, if any.
pub open spec fn ranked_status_of_byte(b: u8) -> Option<RankedStatus> {
    if b == 0 {
        Some(RankedStatus::Unknown)
    } else if b == 1 {
        Some(RankedStatus::Unsubmitted)
    } else if b == 2 {
        Some(RankedStatus::Pending)
    } else if b == 4 {
        Some(RankedStatus::Ranked)
    } else if b == 5 {
        Some(RankedStatus::Approved)
    } else if b == 6 {
        Some(RankedStatus::Qualified)
    } else if b == 7 {
        Some(RankedStatus::Loved)
    } else {
        None
    }
}

/// The variant a gameplay-mode byte maps to, if any.
pub open spec fn gameplay_mode_of_byte(b: u8) -> Option<GameplayMode> {
    if b == 0 {
        Some(GameplayMode::Standard)
    } else if b == 1 {
        Some(GameplayMode::Taiko)
    } else if b == 2 {
        Some(GameplayMode::Catch)
    } else if b == 3 {
        Some(GameplayMode::Mania)
    } else {
        None
    }
}

/// Layout of a ranked-status byte at `pos`.
pub open spec fn s_ranked_status(s: Seq<u8>, pos: int) -> Result<(RankedStatus, int), DecodeError> {
    match s_u8(s, pos) {
        Err(e) => Err(e),
        Ok((b, p)) => match ranked_status_of_byte(b) {
            Some(st) => Ok((st, p)),
            None => Err(DecodeError::InvalidDiscriminant { field: FieldKind::RankedStatus, value: b }),
        },
    }
}

/// Layout of a gameplay-mode byte at `pos`.
pub open spec fn s_gameplay_mode(s: Seq<u8>, pos: int) -> Result<(GameplayMode, int), DecodeError> {
    match s_u8(s, pos) {
        Err(e) => Err(e),
        Ok((b, p)) => match gameplay_mode_of_byte(b) {
            Some(m) => Ok((m, p)),
            None => Err(DecodeError::InvalidDiscriminant { field: FieldKind::GameplayMode, value: b }),
        },
    }
}

/// Layout of a tagged numeric pair at `pos`: marker 0x08, a 4-byte unsigned
/// integer, marker 0x0d, then the bit pattern of an 8-byte floating value.
pub open spec fn s_int_double_pair(s: Seq<u8>, pos: int) -> Result<((u32, u64), int), DecodeError> {
    match s_u8(s, pos) {
        Err(e) => Err(e),
        Ok((m, p)) => {
            if m != 0x08 {
                Err(DecodeError::InvalidDiscriminant { field: FieldKind::PairIntMarker, value: m })
            } else {
                match s_u32(s, p) {
                    Err(e) => Err(e),
                    Ok((iv, p2)) => match s_u8(s, p2) {
                        Err(e) => Err(e),
                        Ok((m2, p3)) => {
                            if m2 != 0x0d {
                                Err(
                                    DecodeError::InvalidDiscriminant {
                                        field: FieldKind::PairDoubleMarker,
                                        value: m2,
                                    },
                                )
                            } else {
                                match s_u64(s, p3) {
                                    Err(e) => Err(e),
                                    Ok((dv, p4)) => Ok(((iv, dv), p4)),
                                }
                            }
                        },
                    },
                }
            }
        },
    }
}

/// Layout of a timing point at `pos`: two 8-byte floating bit patterns
/// followed by one boolean byte, with no framing.
pub open spec fn s_timing_point(s: Seq<u8>, pos: int) -> Result<(TimingPoint, int), DecodeError> {
    match s_u64(s, pos) {
        Err(e) => Err(e),
        Ok((bpm, p)) => match s_u64(s, p) {
            Err(e) => Err(e),
            Ok((off, p2)) => match s_bool(s, p2) {
                Err(e) => Err(e),
                Ok((inh, p3)) => Ok((TimingPoint { bpm, song_offset: off, inherited: inh }, p3)),
            },
        },
    }
}

/// Layout of exactly `n` tagged numeric pairs starting at `pos`, in stream
/// order, the first failure short-circuiting.
pub open spec fn s_pairs(s: Seq<u8>, pos: int, n: nat) -> Result<(Seq<(u32, u64)>, int), DecodeError>
    decreases n,
{
    if n == 0 {
        Ok((Seq::empty(), pos))
    } else {
        match s_int_double_pair(s, pos) {
            Err(e) => Err(e),
            Ok((v, p)) => match s_pairs(s, p, (n - 1) as nat) {
                Err(e) => Err(e),
                Ok((rest, q)) => Ok((seq![v] + rest, q)),
            },
        }
    }
}

/// Layout of exactly `n` timing points starting at `pos`, in stream order.
pub open spec fn s_timing_points(s: Seq<u8>, pos: int, n: nat) -> Result<
    (Seq<TimingPoint>, int),
    DecodeError,
>
    decreases n,
{
    if n == 0 {
        Ok((Seq::empty(), pos))
    } else {
        match s_timing_point(s, pos) {
            Err(e) => Err(e),
            Ok((v, p)) => match s_timing_points(s, p, (n - 1) as nat) {
                Err(e) => Err(e),
                Ok((rest, q)) => Ok((seq![v] + rest, q)),
            },
        }
    }
}

/// Layout of a rating list at `pos`: a 4-byte count, then exactly that many
/// tagged numeric pairs.
pub open spec fn s_star_ratings(s: Seq<u8>, pos: int) -> Result<(Seq<(u32, u64)>, int), DecodeError> {
    match s_u32(s, pos) {
        Err(e) => Err(e),
        Ok((n, p)) => s_pairs(s, p, n as nat),
    }
}

/// Layout of a timing-point list at `pos`: a 4-byte count, then exactly that
/// many timing points.
pub open spec fn s_timing_point_list(s: Seq<u8>, pos: int) -> Result<
    (Seq<TimingPoint>, int),
    DecodeError,
> {
    match s_u32(s, pos) {
        Err(e) => Err(e),
        Ok((n, p)) => s_timing_points(s, p, n as nat),
    }
}

/// A successful repeated decode of tagged numeric pairs yields exactly the
/// count asked of it.
pub proof fn lemma_pairs_length(s: Seq<u8>, pos: int, n: nat)
    requires
        s_pairs(s, pos, n) is Ok,
    ensures
        s_pairs(s, pos, n)->Ok_0.0.len() == n,
    decreases n,
{
    if n > 0 {
        let (_v, p) = s_int_double_pair(s, pos)->Ok_0;
        lemma_pairs_length(s, p, (n - 1) as nat);
    }
}

/// A successful repeated decode of timing points yields exactly the count
/// asked of it.
pub proof fn lemma_timing_points_length(s: Seq<u8>, pos: int, n: nat)
    requires
        s_timing_points(s, pos, n) is Ok,
    ensures
        s_timing_points(s, pos, n)->Ok_0.0.len() == n,
    decreases n,
{
    if n > 0 {
        let (_v, p) = s_timing_point(s, pos)->Ok_0;
        lemma_timing_points_length(s, p, (n - 1) as nat);
    }
}

/// Decodes a ranked-status byte. Succeeds exactly on the seven accepted
/// codes; any other byte yields `InvalidDiscriminant` carrying that byte.
pub fn ranked_status(input: &[u8], pos: usize) -> (r: Result<(RankedStatus, usize), DecodeError>)
    ensures
        match r {
            Ok((v, p)) => s_ranked_status(input@, pos as int) == Ok::<_, DecodeError>((v, p as int))
                && pos < p <= input.len(),
            Err(e) => s_ranked_status(input@, pos as int) == Err::<(RankedStatus, int), _>(e),
        },
{
    let (b, p) = match decode_u8(input, pos) {
        Ok(x) => x,
        Err(e) => {
            return Err(e);
        },
    };
    match b {
        0 => Ok((RankedStatus::Unknown, p)),
        1 => Ok((RankedStatus::Unsubmitted, p)),
        2 => Ok((RankedStatus::Pending, p)),
        4 => Ok((RankedStatus::Ranked, p)),
        5 => Ok((RankedStatus::Approved, p)),
        6 => Ok((RankedStatus::Qualified, p)),
        7 => Ok((RankedStatus::Loved, p)),
        _ => Err(DecodeError::InvalidDiscriminant { field: FieldKind::RankedStatus, value: b }),
    }
}

/// Decodes a gameplay-mode byte. Succeeds exactly on the four accepted
/// codes; any other byte yields `InvalidDiscriminant` carrying that byte.
pub fn gameplay_mode(input: &[u8], pos: usize) -> (r: Result<(GameplayMode, usize), DecodeError>)
    ensures
        match r {
            Ok((v, p)) => s_gameplay_mode(input@, pos as int) == Ok::<_, DecodeError>((v, p as int))
                && pos < p <= input.len(),
            Err(e) => s_gameplay_mode(input@, pos as int) == Err::<(GameplayMode, int), _>(e),
        },
{
    let (b, p) = match decode_u8(input, pos) {
        Ok(x) => x,
        Err(e) => {
            return Err(e);
        },
    };
    match b {
        0 => Ok((GameplayMode::Standard, p)),
        1 => Ok((GameplayMode::Taiko, p)),
        2 => Ok((GameplayMode::Catch, p)),
        3 => Ok((GameplayMode::Mania, p)),
        _ => Err(DecodeError::InvalidDiscriminant { field: FieldKind::GameplayMode, value: b }),
    }
}

/// Decodes a tagged numeric pair: marker 0x08, integer, marker 0x0d, floating
/// bit pattern. A mismatched marker fails with `InvalidDiscriminant` naming
/// which of the two markers was wrong.
pub fn int_double_pair(input: &[u8], pos: usize) -> (r: Result<((u32, u64), usize), DecodeError>)
    ensures
        match r {
            Ok((v, p)) => s_int_double_pair(input@, pos as int) == Ok::<_, DecodeError>((
                v,
                p as int,
            )) && pos < p <= input.len(),
            Err(e) => s_int_double_pair(input@, pos as int) == Err::<((u32, u64), int), _>(e),
        },
{
    let (m, p) = match decode_u8(input, pos) {
        Ok(x) => x,
        Err(e) => {
            return Err(e);
        },
    };
    if m != 0x08 {
        return Err(DecodeError::InvalidDiscriminant { field: FieldKind::PairIntMarker, value: m });
    }
    let (iv, p2) = match decode_u32(input, p) {
        Ok(x) => x,
        Err(e) => {
            return Err(e);
        },
    };
    let (m2, p3) = match decode_u8(input, p2) {
        Ok(x) => x,
        Err(e) => {
            return Err(e);
        },
    };
    if m2 != 0x0d {
        return Err(
            DecodeError::InvalidDiscriminant { field: FieldKind::PairDoubleMarker, value: m2 },
        );
    }
    let (dv, p4) = match decode_u64(input, p3) {
        Ok(x) => x,
        Err(e) => {
            return Err(e);
        },
    };
    Ok(((iv, dv), p4))
}

/// Decodes a timing point: tempo, offset, inherited flag.
pub fn timing_point(input: &[u8], pos: usize) -> (r: Result<(TimingPoint, usize), DecodeError>)
    ensures
        match r {
            Ok((v, p)) => s_timing_point(input@, pos as int) == Ok::<_, DecodeError>((v, p as int))
                && pos < p <= input.len(),
            Err(e) => s_timing_point(input@, pos as int) == Err::<(TimingPoint, int), _>(e),
        },
{
    let (bpm, p) = match decode_u64(input, pos) {
        Ok(x) => x,
        Err(e) => {
            return Err(e);
        },
    };
    let (off, p2) = match decode_u64(input, p) {
        Ok(x) => x,
        Err(e) => {
            return Err(e);
        },
    };
    let (inh, p3) = match boolean(input, p2) {
        Ok(x) => x,
        Err(e) => {
            return Err(e);
        },
    };
    Ok((TimingPoint { bpm, song_offset: off, inherited: inh }, p3))
}

/// Decodes a rating list: a 4-byte count, then exactly that many tagged
/// numeric pairs, in stream order, the first failure short-circuiting.
pub fn star_ratings(input: &[u8], pos: usize) -> (r: Result<(Vec<(u32, u64)>, usize), DecodeError>)
    ensures
        match r {
            Ok((v, p)) => s_star_ratings(input@, pos as int) == Ok::<_, DecodeError>((
                v@,
                p as int,
            )) && pos < p <= input.len(),
            Err(e) => s_star_ratings(input@, pos as int) == Err::<(Seq<(u32, u64)>, int), _>(e),
        },
{
    let (n, start) = match decode_u32(input, pos) {
        Ok(x) => x,
        Err(e) => {
            return Err(e);
        },
    };
    let mut items: Vec<(u32, u64)> = Vec::new();
    let mut cur: usize = start;
    let mut i: u32 = 0;
    proof {
        if s_pairs(input@, start as int, n as nat) is Ok {
            let (rest, q) = s_pairs(input@, start as int, n as nat)->Ok_0;
            assert(Seq::<(u32, u64)>::empty() + rest =~= rest);
        }
    }
    while i < n
        invariant
            i <= n,
            pos < cur <= input.len(),
            s_u32(input@, pos as int) == Ok::<_, DecodeError>((n, start as int)),
            s_pairs(input@, start as int, n as nat) == (match s_pairs(
                input@,
                cur as int,
                (n - i) as nat,
            ) {
                Ok((rest, q)) => Ok::<_, DecodeError>((items@ + rest, q)),
                Err(e) => Err::<(Seq<(u32, u64)>, int), _>(e),
            }),
        decreases n - i,
    {
        match int_double_pair(input, cur) {
            Err(e) => {
                return Err(e);
            },
            Ok((v, q)) => {
                let ghost old_items = items@;
                items.push(v);
                proof {
                    if s_pairs(input@, q as int, (n - i - 1) as nat) is Ok {
                        let (rest, qq) = s_pairs(input@, q as int, (n - i - 1) as nat)->Ok_0;
                        assert(old_items + (seq![v] + rest) =~= items@ + rest);
                    }
                }
                cur = q;
                i = i + 1;
            },
        }
    }
    proof {
        assert(items@ + Seq::<(u32, u64)>::empty() =~= items@);
    }
    Ok((items, cur))
}

/// Decodes a timing-point list: a 4-byte count, then exactly that many
/// timing points, in stream order, the first failure short-circuiting.
pub fn timing_point_list(input: &[u8], pos: usize) -> (r: Result<
    (Vec<TimingPoint>, usize),
    DecodeError,
>)
    ensures
        match r {
            Ok((v, p)) => s_timing_point_list(input@, pos as int) == Ok::<_, DecodeError>((
                v@,
                p as int,
            )) && pos < p <= input.len(),
            Err(e) => s_timing_point_list(input@, pos as int) == Err::<(Seq<TimingPoint>, int), _>(
                e,
            ),
        },
{
    let (n, start) = match decode_u32(input, pos) {
        Ok(x) => x,
        Err(e) => {
            return Err(e);
        },
    };
    let mut items: Vec<TimingPoint> = Vec::new();
    let mut cur: usize = start;
    let mut i: u32 = 0;
    proof {
        if s_timing_points(input@, start as int, n as nat) is Ok {
            let (rest, q) = s_timing_points(input@, start as int, n as nat)->Ok_0;
            assert(Seq::<TimingPoint>::empty() + rest =~= rest);
        }
    }
    while i < n
        invariant
            i <= n,
            pos < cur <= input.len(),
            s_u32(input@, pos as int) == Ok::<_, DecodeError>((n, start as int)),
            s_timing_points(input@, start as int, n as nat) == (match s_timing_points(
                input@,
                cur as int,
                (n - i) as nat,
            ) {
                Ok((rest, q)) => Ok::<_, DecodeError>((items@ + rest, q)),
                Err(e) => Err::<(Seq<TimingPoint>, int), _>(e),
            }),
        decreases n - i,
    {
        match timing_point(input, cur) {
            Err(e) => {
                return Err(e);
            },
            Ok((v, q)) => {
                let ghost old_items = items@;
                items.push(v);
                proof {
                    if s_timing_points(input@, q as int, (n - i - 1) as nat) is Ok {
                        let (rest, qq) = s_timing_points(input@, q as int, (n - i - 1) as nat)->Ok_0;
                        assert(old_items + (seq![v] + rest) =~= items@ + rest);
                    }
                }
                cur = q;
                i = i + 1;
            },
        }
    }
    proof {
        assert(items@ + Seq::<TimingPoint>::empty() =~= items@);
    }
    Ok((items, cur))
}

} // verus!

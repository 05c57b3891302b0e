//! Decode errors for the catalog format.

use vstd::prelude::*;

verus! {

/// Names the field whose discriminant byte was rejected, so that an
/// `InvalidDiscriminant` error carries its context.
#[derive(Clone, Copy, Debug, PartialEq, Eq, Structural)]
pub enum FieldKind {
    /// The ranked-status byte of an entry.
    RankedStatus,
    /// The gameplay-mode byte of an entry.
    GameplayMode,
    /// The marker byte expected before the integer of a tagged numeric pair.
    PairIntMarker,
    /// The marker byte expected before the floating value of a tagged numeric pair.
    PairDoubleMarker,
}

/// The two ways a decode can fail. Decoding is fail-fast: the first error at
/// any depth aborts the whole decode and is returned unmodified.
#[derive(Clone, Copy, Debug, PartialEq, Eq, Structural)]
pub enum DecodeError {
    /// Fewer bytes remain in the buffer than the field requires.
    Truncated,
    /// An enum or framing-marker byte matched no accepted value; carries the
    /// field context and the offending byte.
    InvalidDiscriminant { field: FieldKind, value: u8 },
}

} // verus!

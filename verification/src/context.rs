//! The version-dispatch layer: the file's format version, read once from the
//! header, fixes the shape of three version-sensitive parts of every entry.
//! The context is computed once per listing and threaded through every entry
//! decode, never re-derived per field.

use vstd::prelude::*;

verus! {

/// Format versions below this threshold encode the four difficulty statistics
/// as single bytes and carry one extra unused floating field per entry.
pub const STAT_WIDTH_VERSION: u32 = 20140609;

/// Format versions below this threshold carry a per-entry size field.
pub const ENTRY_SIZE_VERSION: u32 = 20191106;

/// Precomputed dispatch decisions for one listing's format version.
#[derive(Clone, Copy, Debug, PartialEq, Eq, Structural)]
pub struct VersionContext {
    /// Whether each entry begins with a 4-byte size field.
    pub entry_size_present: bool,
    /// Whether the four difficulty statistics are single bytes rather than
    /// 4-byte floating values.
    pub stats_as_bytes: bool,
    /// Whether one unused 4-byte floating field precedes the final byte of
    /// each entry.
    pub extra_unused_single: bool,
}

/// The dispatch decisions that a format version fixes.
pub open spec fn s_version_context(version: u32) -> VersionContext {
    VersionContext {
        entry_size_present: version < ENTRY_SIZE_VERSION,
        stats_as_bytes: version < STAT_WIDTH_VERSION,
        extra_unused_single: version < STAT_WIDTH_VERSION,
    }
}

impl VersionContext {
    /// Resolves the dispatch decisions for a header version.
    pub fn from_version(version: u32) -> (r: VersionContext)
        ensures
            r == s_version_context(version),
    {
        VersionContext {
            entry_size_present: version < ENTRY_SIZE_VERSION,
            stats_as_bytes: version < STAT_WIDTH_VERSION,
            extra_unused_single: version < STAT_WIDTH_VERSION,
        }
    }
}

} // verus!

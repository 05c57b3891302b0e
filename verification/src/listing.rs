//! The listing decoder, the root of the format: the file header, the entry
//! list driven by the header's entry count, and the trailing permissions
//! field. The decoder returns how many bytes it consumed; it does not demand
//! that the buffer be fully consumed — trailing bytes are the caller's to
//! judge.

use vstd::prelude::*;

use crate::context::VersionContext;
use crate::context::s_version_context;
use crate::entry::BeatmapEntry;
use crate::entry::EntryModel;
use crate::entry::beatmap_entry;
use crate::entry::s_beatmap_entry;
use crate::error::DecodeError;
use crate::primitive::OsuStr;
use crate::primitive::s_bool;
use crate::primitive::s_osu_str;
use crate::primitive::s_u32;
use crate::primitive::boolean;
use crate::primitive::decode_u32;
use crate::primitive::osu_string;
use crate::timestamp::WindowsTimestamp;
use crate::timestamp::s_windows_datetime;
use crate::timestamp::windows_datetime;

verus! {

/// The whole decoded catalog file.
#[derive(Clone, Debug, PartialEq)]
pub struct BeatmapListing {
    /// Format version (e.g. 20150203).
    pub version: u32,
    /// Folder count.
    pub folder_count: u32,
    /// Whether the account is unlocked (false only when locked or banned).
    pub account_unlocked: bool,
    /// Date the account will be unlocked.
    pub account_unlock_date: WindowsTimestamp,
    /// Player name.
    pub player_name: OsuStr,
    /// Catalog entries, in on-disk order.
    pub beatmaps: Vec<BeatmapEntry>,
    /// User permissions.
    pub user_permissions: u32,
}

/// The mathematical model of the decoded catalog file.
#[verifier::ext_equal]
pub ghost struct ListingModel {
    pub version: u32,
    pub folder_count: u32,
    pub account_unlocked: bool,
    pub account_unlock_date: WindowsTimestamp,
    pub player_name: Option<Seq<u8>>,
    pub beatmaps: Seq<EntryModel>,
    pub user_permissions: u32,
}

/// The models of a sequence of entries.
pub open spec fn entry_models_of(v: Seq<BeatmapEntry>) -> Seq<EntryModel> {
    v.map_values(|e: BeatmapEntry| e@)
}

impl View for BeatmapListing {
    type V = ListingModel;

    open spec fn view(&self) -> ListingModel {
        ListingModel {
            version: self.version,
            folder_count: self.folder_count,
            account_unlocked: self.account_unlocked,
            account_unlock_date: self.account_unlock_date,
            player_name: self.player_name@,
            beatmaps: entry_models_of(self.beatmaps@),
            user_permissions: self.user_permissions,
        }
    }
}

/// Layout of exactly `n` entries starting at `pos`, in stream order, the
/// first failure short-circuiting.
pub open spec fn s_entries(s: Seq<u8>, pos: int, n: nat, ctx: VersionContext) -> Result<
    (Seq<EntryModel>, int),
    DecodeError,
>
    decreases n,
{
    if n == 0 {
        Ok((Seq::empty(), pos))
    } else {
        match s_beatmap_entry(s, pos, ctx) {
            Err(e) => Err(e),
            Ok((v, p)) => match s_entries(s, p, (n - 1) as nat, ctx) {
                Err(e) => Err(e),
                Ok((rest, q)) => Ok((seq![v] + rest, q)),
            },
        }
    }
}

/// Layout of the whole catalog file starting at `pos`: the header fields,
/// the entry count, that many entries under the context the header version
/// fixes, and the trailing permissions field.
pub open spec fn s_beatmap_listing(s: Seq<u8>, pos: int) -> Result<
    (ListingModel, int),
    DecodeError,
> {
    match s_u32(s, pos) {
        Err(e) => Err(e),
        Ok((version, p0)) => match s_u32(s, p0) {
            Err(e) => Err(e),
            Ok((folder_count, p1)) => match s_bool(s, p1) {
                Err(e) => Err(e),
                Ok((account_unlocked, p2)) => match s_windows_datetime(s, p2) {
                    Err(e) => Err(e),
                    Ok((account_unlock_date, p3)) => match s_osu_str(s, p3) {
                        Err(e) => Err(e),
                        Ok((player_name, p4)) => match s_u32(s, p4) {
                            Err(e) => Err(e),
                            Ok((n, p5)) => match s_entries(
                                s,
                                p5,
                                n as nat,
                                s_version_context(version),
                            ) {
                                Err(e) => Err(e),
                                Ok((beatmaps, p6)) => match s_u32(s, p6) {
                                    Err(e) => Err(e),
                                    Ok((user_permissions, p7)) => Ok(
                                        (
                                            ListingModel {
                                                version,
                                                folder_count,
                                                account_unlocked,
                                                account_unlock_date,
                                                player_name,
                                                beatmaps,
                                                user_permissions,
                                            },
                                            p7,
                                        ),
                                    ),
                                },
                            },
                        },
                    },
                },
            },
        },
    }
}

/// A successful repeated decode of entries yields exactly the count asked of
/// it: a decoded listing holds exactly as many entries as the count field
/// declared before them.
pub proof fn lemma_entries_length(s: Seq<u8>, pos: int, n: nat, ctx: VersionContext)
    requires
        s_entries(s, pos, n, ctx) is Ok,
    ensures
        s_entries(s, pos, n, ctx)->Ok_0.0.len() == n,
    decreases n,
{
    if n > 0 {
        let (_v, p) = s_beatmap_entry(s, pos, ctx)->Ok_0;
        lemma_entries_length(s, p, (n - 1) as nat, ctx);
    }
}

/// Decodes the entry list: exactly `n` entries in stream order.
#[verifier::rlimit(60)]
fn decode_entries(input: &[u8], pos: usize, n: u32, ctx: VersionContext) -> (r: Result<
    (Vec<BeatmapEntry>, usize),
    DecodeError,
>)
    requires
        pos <= input.len(),
    ensures
        match r {
            Ok((v, p)) => s_entries(input@, pos as int, n as nat, ctx) == Ok::<_, DecodeError>((
                entry_models_of(v@),
                p as int,
            )) && pos <= p <= input.len(),
            Err(e) => s_entries(input@, pos as int, n as nat, ctx) == Err::<
                (Seq<EntryModel>, int),
                _,
            >(e),
        },
{
    let mut items: Vec<BeatmapEntry> = Vec::new();
    let mut cur: usize = pos;
    let mut i: u32 = 0;
    proof {
        assert(entry_models_of(items@) =~= Seq::<EntryModel>::empty());
        if s_entries(input@, pos as int, n as nat, ctx) is Ok {
            let (rest, q) = s_entries(input@, pos as int, n as nat, ctx)->Ok_0;
            assert(Seq::<EntryModel>::empty() + rest =~= rest);
        }
    }
    while i < n
        invariant
            i <= n,
            pos <= cur <= input.len(),
            s_entries(input@, pos as int, n as nat, ctx) == (match s_entries(
                input@,
                cur as int,
                (n - i) as nat,
                ctx,
            ) {
                Ok((rest, q)) => Ok::<_, DecodeError>((entry_models_of(items@) + rest, q)),
                Err(e) => Err::<(Seq<EntryModel>, int), _>(e),
            }),
        decreases n - i,
    {
        match beatmap_entry(input, cur, ctx) {
            Err(e) => {
                return Err(e);
            },
            Ok((v, q)) => {
                let ghost old_models = entry_models_of(items@);
                let ghost vm = v@;
                items.push(v);
                proof {
                    assert(entry_models_of(items@) =~= old_models.push(vm));
                    if s_entries(input@, q as int, (n - i - 1) as nat, ctx) is Ok {
                        let (rest, qq) = s_entries(input@, q as int, (n - i - 1) as nat, ctx)->Ok_0;
                        assert(old_models + (seq![vm] + rest) =~= old_models.push(vm) + rest);
                    }
                }
                cur = q;
                i = i + 1;
            },
        }
    }
    proof {
        assert(entry_models_of(items@) + Seq::<EntryModel>::empty() =~= entry_models_of(items@));
    }
    Ok((items, cur))
}

/// Decodes a whole catalog file from the start of `input`. On success the
/// returned count says how many bytes of `input` the listing occupied;
/// `input` from that point on is left over, and the caller decides how to
/// treat it.
pub fn beatmap_listing(input: &[u8]) -> (r: Result<(BeatmapListing, usize), DecodeError>)
    ensures
        match r {
            Ok((v, consumed)) => s_beatmap_listing(input@, 0) == Ok::<_, DecodeError>((
                v@,
                consumed as int,
            )) && consumed <= input.len(),
            Err(e) => s_beatmap_listing(input@, 0) == Err::<(ListingModel, int), _>(e),
        },
{
    let (version, p0) = decode_u32(input, 0)?;
    let (folder_count, p1) = decode_u32(input, p0)?;
    let (account_unlocked, p2) = boolean(input, p1)?;
    let (account_unlock_date, p3) = windows_datetime(input, p2)?;
    let (player_name, p4) = osu_string(input, p3)?;
    let (n, p5) = decode_u32(input, p4)?;
    let ctx = VersionContext::from_version(version);
    let (beatmaps, p6) = decode_entries(input, p5, n, ctx)?;
    let (user_permissions, p7) = decode_u32(input, p6)?;
    Ok(
        (
            BeatmapListing {
                version,
                folder_count,
                account_unlocked,
                account_unlock_date,
                player_name,
                beatmaps,
                user_permissions,
            },
            p7,
        ),
    )
}

/// Decoding is deterministic: the outcome of a decode is a pure function of
/// the input bytes, so any two decodes of the same buffer — in the same
/// process or another — agree exactly, errors included.
pub proof fn lemma_decode_deterministic(
    bytes: Seq<u8>,
    r1: Result<(ListingModel, int), DecodeError>,
    r2: Result<(ListingModel, int), DecodeError>,
)
    requires
        r1 == s_beatmap_listing(bytes, 0),
        r2 == s_beatmap_listing(bytes, 0),
    ensures
        r1 == r2,
{
}

} // verus!

//! The entry decoder: one full catalog record, decoded as a fixed sequence of
//! field decodes, consulting the version-dispatch context for the
//! version-sensitive fields. Any single field failure aborts the whole entry
//! and is propagated unmodified.
//!
//! The record is decoded in six consecutive groups; each group has its own
//! specification function, and the entry's layout is their composition.

use vstd::prelude::*;

use crate::context::VersionContext;
use crate::elements::GameplayMode;
use crate::elements::RankedStatus;
use crate::elements::TimingPoint;
use crate::elements::s_gameplay_mode;
use crate::elements::s_ranked_status;
use crate::elements::s_star_ratings;
use crate::elements::s_timing_point_list;
use crate::elements::gameplay_mode;
use crate::elements::ranked_status;
use crate::elements::star_ratings;
use crate::elements::timing_point_list;
use crate::error::DecodeError;
use crate::primitive::OsuStr;
use crate::primitive::s_bool;
use crate::primitive::s_osu_str;
use crate::primitive::s_u16;
use crate::primitive::s_u32;
use crate::primitive::s_u64;
use crate::primitive::s_u8;
use crate::primitive::boolean;
use crate::primitive::decode_u16;
use crate::primitive::decode_u32;
use crate::primitive::decode_u64;
use crate::primitive::decode_u8;
use crate::primitive::osu_string;
use crate::stat::s_stat;
use crate::stat::decode_stat;
use crate::timestamp::WindowsTimestamp;
use crate::timestamp::s_windows_datetime;
use crate::timestamp::windows_datetime;

verus! {

/// One catalog record. Floating-valued fields hold the bit patterns of their
/// encoded values; timestamps hold raw tick counts.
#[derive(Clone, Debug, PartialEq)]
pub struct BeatmapEntry {
    /// Size in bytes of the entry; present only below the size-field version
    /// threshold.
    pub size: Option<u32>,
    /// Artist name.
    pub artist_name: OsuStr,
    /// Artist name, in Unicode.
    pub artist_name_unicode: OsuStr,
    /// Song title.
    pub song_title: OsuStr,
    /// Song title, in Unicode.
    pub song_title_unicode: OsuStr,
    /// Creator name.
    pub creator_name: OsuStr,
    /// Difficulty name.
    pub difficulty: OsuStr,
    /// Audio file name.
    pub audio_filename: OsuStr,
    /// Content hash of the beatmap.
    pub md5: OsuStr,
    /// Name of the beatmap file corresponding to this entry.
    pub beatmap_filename: OsuStr,
    /// Ranked status.
    pub ranked_status: RankedStatus,
    /// Number of hitcircles.
    pub hitcircle_count: u16,
    /// Number of sliders.
    pub slider_count: u16,
    /// Number of spinners.
    pub spinner_count: u16,
    /// Last modification time.
    pub last_modification_time: WindowsTimestamp,
    /// Approach rate, as a single-precision bit pattern.
    pub approach_rate: u32,
    /// Circle size, as a single-precision bit pattern.
    pub circle_size: u32,
    /// HP drain, as a single-precision bit pattern.
    pub hp_drain: u32,
    /// Overall difficulty, as a single-precision bit pattern.
    pub overall_difficulty: u32,
    /// Slider velocity, as a double-precision bit pattern.
    pub slider_velocity: u64,
    /// Rating pairs for the standard mode.
    pub star_ratings_std: Vec<(u32, u64)>,
    /// Rating pairs for the taiko mode.
    pub star_ratings_taiko: Vec<(u32, u64)>,
    /// Rating pairs for the catch mode.
    pub star_ratings_ctb: Vec<(u32, u64)>,
    /// Rating pairs for the mania mode.
    pub star_ratings_mania: Vec<(u32, u64)>,
    /// Drain time, in seconds.
    pub drain_time: u32,
    /// Total time, in milliseconds.
    pub total_time: u32,
    /// Audio preview start time, in milliseconds.
    pub audio_preview_time: u32,
    /// Timing points, in stream order.
    pub timing_points: Vec<TimingPoint>,
    /// Difficulty identifier.
    pub difficulty_id: u32,
    /// Beatmap identifier.
    pub beatmap_id: u32,
    /// Thread identifier.
    pub thread_id: u32,
    /// Grade achieved in the standard mode.
    pub grade_std: u8,
    /// Grade achieved in the taiko mode.
    pub grade_taiko: u8,
    /// Grade achieved in the catch mode.
    pub grade_catch: u8,
    /// Grade achieved in the mania mode.
    pub grade_mania: u8,
    /// Local beatmap offset.
    pub local_offset: u16,
    /// Stack leniency, as a single-precision bit pattern.
    pub stack_leniency: u32,
    /// Gameplay mode.
    pub gameplay_mode: GameplayMode,
    /// Song source.
    pub song_source: OsuStr,
    /// Song tags.
    pub song_tags: OsuStr,
    /// Online offset.
    pub online_offset: u16,
    /// Font used for the song title.
    pub font: OsuStr,
    /// Whether the beatmap is unplayed.
    pub is_unplayed: bool,
    /// Last time the beatmap was played.
    pub last_played: WindowsTimestamp,
    /// Whether the beatmap is in the osz2 format.
    pub is_osz2: bool,
    /// Folder name of the beatmap.
    pub folder_name: OsuStr,
    /// Last time the beatmap was checked online.
    pub last_checked_online: WindowsTimestamp,
    /// Ignore beatmap hitsounds.
    pub ignore_beatmap_hitsounds: bool,
    /// Ignore beatmap skin.
    pub ignore_beatmap_skin: bool,
    /// Disable storyboard.
    pub disable_storyboard: bool,
    /// Disable video.
    pub disable_video: bool,
    /// Mania scroll speed.
    pub mania_scroll_speed: u8,
}

/// The mathematical model of one catalog record: string fields become
/// optional byte sequences, lists become sequences.
#[verifier::ext_equal]
pub ghost struct EntryModel {
    pub size: Option<u32>,
    pub artist_name: Option<Seq<u8>>,
    pub artist_name_unicode: Option<Seq<u8>>,
    pub song_title: Option<Seq<u8>>,
    pub song_title_unicode: Option<Seq<u8>>,
    pub creator_name: Option<Seq<u8>>,
    pub difficulty: Option<Seq<u8>>,
    pub audio_filename: Option<Seq<u8>>,
    pub md5: Option<Seq<u8>>,
    pub beatmap_filename: Option<Seq<u8>>,
    pub ranked_status: RankedStatus,
    pub hitcircle_count: u16,
    pub slider_count: u16,
    pub spinner_count: u16,
    pub last_modification_time: WindowsTimestamp,
    pub approach_rate: u32,
    pub circle_size: u32,
    pub hp_drain: u32,
    pub overall_difficulty: u32,
    pub slider_velocity: u64,
    pub star_ratings_std: Seq<(u32, u64)>,
    pub star_ratings_taiko: Seq<(u32, u64)>,
    pub star_ratings_ctb: Seq<(u32, u64)>,
    pub star_ratings_mania: Seq<(u32, u64)>,
    pub drain_time: u32,
    pub total_time: u32,
    pub audio_preview_time: u32,
    pub timing_points: Seq<TimingPoint>,
    pub difficulty_id: u32,
    pub beatmap_id: u32,
    pub thread_id: u32,
    pub grade_std: u8,
    pub grade_taiko: u8,
    pub grade_catch: u8,
    pub grade_mania: u8,
    pub local_offset: u16,
    pub stack_leniency: u32,
    pub gameplay_mode: GameplayMode,
    pub song_source: Option<Seq<u8>>,
    pub song_tags: Option<Seq<u8>>,
    pub online_offset: u16,
    pub font: Option<Seq<u8>>,
    pub is_unplayed: bool,
    pub last_played: WindowsTimestamp,
    pub is_osz2: bool,
    pub folder_name: Option<Seq<u8>>,
    pub last_checked_online: WindowsTimestamp,
    pub ignore_beatmap_hitsounds: bool,
    pub ignore_beatmap_skin: bool,
    pub disable_storyboard: bool,
    pub disable_video: bool,
    pub mania_scroll_speed: u8,
}

impl View for BeatmapEntry {
    type V = EntryModel;

    open spec fn view(&self) -> EntryModel {
        EntryModel {
            size: self.size,
            artist_name: self.artist_name@,
            artist_name_unicode: self.artist_name_unicode@,
            song_title: self.song_title@,
            song_title_unicode: self.song_title_unicode@,
            creator_name: self.creator_name@,
            difficulty: self.difficulty@,
            audio_filename: self.audio_filename@,
            md5: self.md5@,
            beatmap_filename: self.beatmap_filename@,
            ranked_status: self.ranked_status,
            hitcircle_count: self.hitcircle_count,
            slider_count: self.slider_count,
            spinner_count: self.spinner_count,
            last_modification_time: self.last_modification_time,
            approach_rate: self.approach_rate,
            circle_size: self.circle_size,
            hp_drain: self.hp_drain,
            overall_difficulty: self.overall_difficulty,
            slider_velocity: self.slider_velocity,
            star_ratings_std: self.star_ratings_std@,
            star_ratings_taiko: self.star_ratings_taiko@,
            star_ratings_ctb: self.star_ratings_ctb@,
            star_ratings_mania: self.star_ratings_mania@,
            drain_time: self.drain_time,
            total_time: self.total_time,
            audio_preview_time: self.audio_preview_time,
            timing_points: self.timing_points@,
            difficulty_id: self.difficulty_id,
            beatmap_id: self.beatmap_id,
            thread_id: self.thread_id,
            grade_std: self.grade_std,
            grade_taiko: self.grade_taiko,
            grade_catch: self.grade_catch,
            grade_mania: self.grade_mania,
            local_offset: self.local_offset,
            stack_leniency: self.stack_leniency,
            gameplay_mode: self.gameplay_mode,
            song_source: self.song_source@,
            song_tags: self.song_tags@,
            online_offset: self.online_offset,
            font: self.font@,
            is_unplayed: self.is_unplayed,
            last_played: self.last_played,
            is_osz2: self.is_osz2,
            folder_name: self.folder_name@,
            last_checked_online: self.last_checked_online,
            ignore_beatmap_hitsounds: self.ignore_beatmap_hitsounds,
            ignore_beatmap_skin: self.ignore_beatmap_skin,
            disable_storyboard: self.disable_storyboard,
            disable_video: self.disable_video,
            mania_scroll_speed: self.mania_scroll_speed,
        }
    }
}

/// Layout of the optional per-entry size field.
pub open spec fn s_opt_size(s: Seq<u8>, pos: int, present: bool) -> Result<
    (Option<u32>, int),
    DecodeError,
> {
    if present {
        match s_u32(s, pos) {
            Ok((v, p)) => Ok((Some(v), p)),
            Err(e) => Err(e),
        }
    } else {
        Ok((None, pos))
    }
}

/// The first group of an entry: the optional size, the nine identifying
/// strings, and the ranked status.
#[verifier::ext_equal]
pub ghost struct HeadModel {
    pub size: Option<u32>,
    pub artist_name: Option<Seq<u8>>,
    pub artist_name_unicode: Option<Seq<u8>>,
    pub song_title: Option<Seq<u8>>,
    pub song_title_unicode: Option<Seq<u8>>,
    pub creator_name: Option<Seq<u8>>,
    pub difficulty: Option<Seq<u8>>,
    pub audio_filename: Option<Seq<u8>>,
    pub md5: Option<Seq<u8>>,
    pub beatmap_filename: Option<Seq<u8>>,
    pub ranked_status: RankedStatus,
}

/// Layout of the first group of an entry at `pos`.
pub open spec fn s_entry_head(s: Seq<u8>, pos: int, ctx: VersionContext) -> Result<
    (HeadModel, int),
    DecodeError,
> {
    match s_opt_size(s, pos, ctx.entry_size_present) {
        Err(e) => Err(e),
        Ok((size, p0)) => match s_osu_str(s, p0) {
            Err(e) => Err(e),
            Ok((artist_name, p1)) => match s_osu_str(s, p1) {
                Err(e) => Err(e),
                Ok((artist_name_unicode, p2)) => match s_osu_str(s, p2) {
                    Err(e) => Err(e),
                    Ok((song_title, p3)) => match s_osu_str(s, p3) {
                        Err(e) => Err(e),
                        Ok((song_title_unicode, p4)) => match s_osu_str(s, p4) {
                            Err(e) => Err(e),
                            Ok((creator_name, p5)) => match s_osu_str(s, p5) {
                                Err(e) => Err(e),
                                Ok((difficulty, p6)) => match s_osu_str(s, p6) {
                                    Err(e) => Err(e),
                                    Ok((audio_filename, p7)) => match s_osu_str(s, p7) {
                                        Err(e) => Err(e),
                                        Ok((md5, p8)) => match s_osu_str(s, p8) {
                                            Err(e) => Err(e),
                                            Ok((beatmap_filename, p9)) => match s_ranked_status(
                                                s,
                                                p9,
                                            ) {
                                                Err(e) => Err(e),
                                                Ok((ranked_status, p10)) => Ok(
                                                    (
                                                        HeadModel {
                                                            size,
                                                            artist_name,
                                                            artist_name_unicode,
                                                            song_title,
                                                            song_title_unicode,
                                                            creator_name,
                                                            difficulty,
                                                            audio_filename,
                                                            md5,
                                                            beatmap_filename,
                                                            ranked_status,
                                                        },
                                                        p10,
                                                    ),
                                                ),
                                            },
                                        },
                                    },
                                },
                            },
                        },
                    },
                },
            },
        },
    }
}

/// The second group of an entry: object counts, the modification time, the
/// four difficulty statistics, and the slider velocity. All fields are plain
/// values, so the group is its own model.
#[derive(Clone, Copy, Debug, PartialEq, Eq, Structural)]
pub struct EntryStats {
    pub hitcircle_count: u16,
    pub slider_count: u16,
    pub spinner_count: u16,
    pub last_modification_time: WindowsTimestamp,
    pub approach_rate: u32,
    pub circle_size: u32,
    pub hp_drain: u32,
    pub overall_difficulty: u32,
    pub slider_velocity: u64,
}

/// Layout of the second group of an entry at `pos`.
pub open spec fn s_entry_stats(s: Seq<u8>, pos: int, ctx: VersionContext) -> Result<
    (EntryStats, int),
    DecodeError,
> {
    match s_u16(s, pos) {
        Err(e) => Err(e),
        Ok((hitcircle_count, p0)) => match s_u16(s, p0) {
            Err(e) => Err(e),
            Ok((slider_count, p1)) => match s_u16(s, p1) {
                Err(e) => Err(e),
                Ok((spinner_count, p2)) => match s_windows_datetime(s, p2) {
                    Err(e) => Err(e),
                    Ok((last_modification_time, p3)) => match s_stat(s, p3, ctx.stats_as_bytes) {
                        Err(e) => Err(e),
                        Ok((approach_rate, p4)) => match s_stat(s, p4, ctx.stats_as_bytes) {
                            Err(e) => Err(e),
                            Ok((circle_size, p5)) => match s_stat(s, p5, ctx.stats_as_bytes) {
                                Err(e) => Err(e),
                                Ok((hp_drain, p6)) => match s_stat(s, p6, ctx.stats_as_bytes) {
                                    Err(e) => Err(e),
                                    Ok((overall_difficulty, p7)) => match s_u64(s, p7) {
                                        Err(e) => Err(e),
                                        Ok((slider_velocity, p8)) => Ok(
                                            (
                                                EntryStats {
                                                    hitcircle_count,
                                                    slider_count,
                                                    spinner_count,
                                                    last_modification_time,
                                                    approach_rate,
                                                    circle_size,
                                                    hp_drain,
                                                    overall_difficulty,
                                                    slider_velocity,
                                                },
                                                p8,
                                            ),
                                        ),
                                    },
                                },
                            },
                        },
                    },
                },
            },
        },
    }
}

/// The third group of an entry: the four per-mode rating lists.
#[verifier::ext_equal]
pub ghost struct RatingsModel {
    pub star_ratings_std: Seq<(u32, u64)>,
    pub star_ratings_taiko: Seq<(u32, u64)>,
    pub star_ratings_ctb: Seq<(u32, u64)>,
    pub star_ratings_mania: Seq<(u32, u64)>,
}

/// Layout of the third group of an entry at `pos`.
pub open spec fn s_entry_ratings(s: Seq<u8>, pos: int) -> Result<(RatingsModel, int), DecodeError> {
    match s_star_ratings(s, pos) {
        Err(e) => Err(e),
        Ok((star_ratings_std, p0)) => match s_star_ratings(s, p0) {
            Err(e) => Err(e),
            Ok((star_ratings_taiko, p1)) => match s_star_ratings(s, p1) {
                Err(e) => Err(e),
                Ok((star_ratings_ctb, p2)) => match s_star_ratings(s, p2) {
                    Err(e) => Err(e),
                    Ok((star_ratings_mania, p3)) => Ok(
                        (
                            RatingsModel {
                                star_ratings_std,
                                star_ratings_taiko,
                                star_ratings_ctb,
                                star_ratings_mania,
                            },
                            p3,
                        ),
                    ),
                },
            },
        },
    }
}

/// The fourth group of an entry: durations, the timing-point list, and the
/// numeric identifiers.
#[verifier::ext_equal]
pub ghost struct TimingModel {
    pub drain_time: u32,
    pub total_time: u32,
    pub audio_preview_time: u32,
    pub timing_points: Seq<TimingPoint>,
    pub difficulty_id: u32,
    pub beatmap_id: u32,
    pub thread_id: u32,
}

/// Layout of the fourth group of an entry at `pos`.
pub open spec fn s_entry_timing(s: Seq<u8>, pos: int) -> Result<(TimingModel, int), DecodeError> {
    match s_u32(s, pos) {
        Err(e) => Err(e),
        Ok((drain_time, p0)) => match s_u32(s, p0) {
            Err(e) => Err(e),
            Ok((total_time, p1)) => match s_u32(s, p1) {
                Err(e) => Err(e),
                Ok((audio_preview_time, p2)) => match s_timing_point_list(s, p2) {
                    Err(e) => Err(e),
                    Ok((timing_points, p3)) => match s_u32(s, p3) {
                        Err(e) => Err(e),
                        Ok((difficulty_id, p4)) => match s_u32(s, p4) {
                            Err(e) => Err(e),
                            Ok((beatmap_id, p5)) => match s_u32(s, p5) {
                                Err(e) => Err(e),
                                Ok((thread_id, p6)) => Ok(
                                    (
                                        TimingModel {
                                            drain_time,
                                            total_time,
                                            audio_preview_time,
                                            timing_points,
                                            difficulty_id,
                                            beatmap_id,
                                            thread_id,
                                        },
                                        p6,
                                    ),
                                ),
                            },
                        },
                    },
                },
            },
        },
    }
}

/// The fifth group of an entry: grades, offsets, stack leniency, the
/// gameplay mode, and the source, tags and font strings.
#[verifier::ext_equal]
pub ghost struct MetaModel {
    pub grade_std: u8,
    pub grade_taiko: u8,
    pub grade_catch: u8,
    pub grade_mania: u8,
    pub local_offset: u16,
    pub stack_leniency: u32,
    pub gameplay_mode: GameplayMode,
    pub song_source: Option<Seq<u8>>,
    pub song_tags: Option<Seq<u8>>,
    pub online_offset: u16,
    pub font: Option<Seq<u8>>,
}

/// Layout of the fifth group of an entry at `pos`.
pub open spec fn s_entry_meta(s: Seq<u8>, pos: int) -> Result<(MetaModel, int), DecodeError> {
    match s_u8(s, pos) {
        Err(e) => Err(e),
        Ok((grade_std, p0)) => match s_u8(s, p0) {
            Err(e) => Err(e),
            Ok((grade_taiko, p1)) => match s_u8(s, p1) {
                Err(e) => Err(e),
                Ok((grade_catch, p2)) => match s_u8(s, p2) {
                    Err(e) => Err(e),
                    Ok((grade_mania, p3)) => match s_u16(s, p3) {
                        Err(e) => Err(e),
                        Ok((local_offset, p4)) => match s_u32(s, p4) {
                            Err(e) => Err(e),
                            Ok((stack_leniency, p5)) => match s_gameplay_mode(s, p5) {
                                Err(e) => Err(e),
                                Ok((gameplay_mode, p6)) => match s_osu_str(s, p6) {
                                    Err(e) => Err(e),
                                    Ok((song_source, p7)) => match s_osu_str(s, p7) {
                                        Err(e) => Err(e),
                                        Ok((song_tags, p8)) => match s_u16(s, p8) {
                                            Err(e) => Err(e),
                                            Ok((online_offset, p9)) => match s_osu_str(s, p9) {
                                                Err(e) => Err(e),
                                                Ok((font, p10)) => Ok(
                                                    (
                                                        MetaModel {
                                                            grade_std,
                                                            grade_taiko,
                                                            grade_catch,
                                                            grade_mania,
                                                            local_offset,
                                                            stack_leniency,
                                                            gameplay_mode,
                                                            song_source,
                                                            song_tags,
                                                            online_offset,
                                                            font,
                                                        },
                                                        p10,
                                                    ),
                                                ),
                                            },
                                        },
                                    },
                                },
                            },
                        },
                    },
                },
            },
        },
    }
}

/// The sixth group of an entry: play flags, the remaining timestamps, the
/// folder name, the unused trailing fields, and the mania scroll speed.
#[verifier::ext_equal]
pub ghost struct FlagsModel {
    pub is_unplayed: bool,
    pub last_played: WindowsTimestamp,
    pub is_osz2: bool,
    pub folder_name: Option<Seq<u8>>,
    pub last_checked_online: WindowsTimestamp,
    pub ignore_beatmap_hitsounds: bool,
    pub ignore_beatmap_skin: bool,
    pub disable_storyboard: bool,
    pub disable_video: bool,
    pub mania_scroll_speed: u8,
}

/// Layout of the conditionally present unused 4-byte floating field: its
/// bytes are consumed and discarded.
pub open spec fn s_opt_unused_single(s: Seq<u8>, pos: int, present: bool) -> Result<
    int,
    DecodeError,
> {
    if present {
        match s_u32(s, pos) {
            Err(e) => Err(e),
            Ok((_v, p)) => Ok(p),
        }
    } else {
        Ok(pos)
    }
}

/// Layout of the sixth group of an entry at `pos`. The unused floating field
/// (below the statistic-width version threshold only) and the unconditional
/// unused 4-byte field are consumed to keep the cursor aligned, but carry no
/// value.
pub open spec fn s_entry_flags(s: Seq<u8>, pos: int, ctx: VersionContext) -> Result<
    (FlagsModel, int),
    DecodeError,
> {
    match s_bool(s, pos) {
        Err(e) => Err(e),
        Ok((is_unplayed, p0)) => match s_windows_datetime(s, p0) {
            Err(e) => Err(e),
            Ok((last_played, p1)) => match s_bool(s, p1) {
                Err(e) => Err(e),
                Ok((is_osz2, p2)) => match s_osu_str(s, p2) {
                    Err(e) => Err(e),
                    Ok((folder_name, p3)) => match s_windows_datetime(s, p3) {
                        Err(e) => Err(e),
                        Ok((last_checked_online, p4)) => match s_bool(s, p4) {
                            Err(e) => Err(e),
                            Ok((ignore_beatmap_hitsounds, p5)) => match s_bool(s, p5) {
                                Err(e) => Err(e),
                                Ok((ignore_beatmap_skin, p6)) => match s_bool(s, p6) {
                                    Err(e) => Err(e),
                                    Ok((disable_storyboard, p7)) => match s_bool(s, p7) {
                                        Err(e) => Err(e),
                                        Ok((disable_video, p8)) => match s_opt_unused_single(
                                            s,
                                            p8,
                                            ctx.extra_unused_single,
                                        ) {
                                            Err(e) => Err(e),
                                            Ok(p9) => match s_u32(s, p9) {
                                                Err(e) => Err(e),
                                                Ok((_unused, p10)) => match s_u8(s, p10) {
                                                    Err(e) => Err(e),
                                                    Ok((mania_scroll_speed, p11)) => Ok(
                                                        (
                                                            FlagsModel {
                                                                is_unplayed,
                                                                last_played,
                                                                is_osz2,
                                                                folder_name,
                                                                last_checked_online,
                                                                ignore_beatmap_hitsounds,
                                                                ignore_beatmap_skin,
                                                                disable_storyboard,
                                                                disable_video,
                                                                mania_scroll_speed,
                                                            },
                                                            p11,
                                                        ),
                                                    ),
                                                },
                                            },
                                        },
                                    },
                                },
                            },
                        },
                    },
                },
            },
        },
    }
}

/// The entry a head, stats, ratings, timing, meta and flags group assemble
/// to.
pub open spec fn entry_of_groups(
    h: HeadModel,
    st: EntryStats,
    ra: RatingsModel,
    ti: TimingModel,
    me: MetaModel,
    fl: FlagsModel,
) -> EntryModel {
    EntryModel {
        size: h.size,
        artist_name: h.artist_name,
        artist_name_unicode: h.artist_name_unicode,
        song_title: h.song_title,
        song_title_unicode: h.song_title_unicode,
        creator_name: h.creator_name,
        difficulty: h.difficulty,
        audio_filename: h.audio_filename,
        md5: h.md5,
        beatmap_filename: h.beatmap_filename,
        ranked_status: h.ranked_status,
        hitcircle_count: st.hitcircle_count,
        slider_count: st.slider_count,
        spinner_count: st.spinner_count,
        last_modification_time: st.last_modification_time,
        approach_rate: st.approach_rate,
        circle_size: st.circle_size,
        hp_drain: st.hp_drain,
        overall_difficulty: st.overall_difficulty,
        slider_velocity: st.slider_velocity,
        star_ratings_std: ra.star_ratings_std,
        star_ratings_taiko: ra.star_ratings_taiko,
        star_ratings_ctb: ra.star_ratings_ctb,
        star_ratings_mania: ra.star_ratings_mania,
        drain_time: ti.drain_time,
        total_time: ti.total_time,
        audio_preview_time: ti.audio_preview_time,
        timing_points: ti.timing_points,
        difficulty_id: ti.difficulty_id,
        beatmap_id: ti.beatmap_id,
        thread_id: ti.thread_id,
        grade_std: me.grade_std,
        grade_taiko: me.grade_taiko,
        grade_catch: me.grade_catch,
        grade_mania: me.grade_mania,
        local_offset: me.local_offset,
        stack_leniency: me.stack_leniency,
        gameplay_mode: me.gameplay_mode,
        song_source: me.song_source,
        song_tags: me.song_tags,
        online_offset: me.online_offset,
        font: me.font,
        is_unplayed: fl.is_unplayed,
        last_played: fl.last_played,
        is_osz2: fl.is_osz2,
        folder_name: fl.folder_name,
        last_checked_online: fl.last_checked_online,
        ignore_beatmap_hitsounds: fl.ignore_beatmap_hitsounds,
        ignore_beatmap_skin: fl.ignore_beatmap_skin,
        disable_storyboard: fl.disable_storyboard,
        disable_video: fl.disable_video,
        mania_scroll_speed: fl.mania_scroll_speed,
    }
}

/// Layout of one full catalog record at `pos`: the six groups in order.
#[verifier::opaque]
pub open spec fn s_beatmap_entry(s: Seq<u8>, pos: int, ctx: VersionContext) -> Result<
    (EntryModel, int),
    DecodeError,
> {
    match s_entry_head(s, pos, ctx) {
        Err(e) => Err(e),
        Ok((h, p0)) => match s_entry_stats(s, p0, ctx) {
            Err(e) => Err(e),
            Ok((st, p1)) => match s_entry_ratings(s, p1) {
                Err(e) => Err(e),
                Ok((ra, p2)) => match s_entry_timing(s, p2) {
                    Err(e) => Err(e),
                    Ok((ti, p3)) => match s_entry_meta(s, p3) {
                        Err(e) => Err(e),
                        Ok((me, p4)) => match s_entry_flags(s, p4, ctx) {
                            Err(e) => Err(e),
                            Ok((fl, p5)) => Ok((entry_of_groups(h, st, ra, ti, me, fl), p5)),
                        },
                    },
                },
            },
        },
    }
}

/// The exec counterpart of the first group.
pub struct EntryHead {
    pub size: Option<u32>,
    pub artist_name: OsuStr,
    pub artist_name_unicode: OsuStr,
    pub song_title: OsuStr,
    pub song_title_unicode: OsuStr,
    pub creator_name: OsuStr,
    pub difficulty: OsuStr,
    pub audio_filename: OsuStr,
    pub md5: OsuStr,
    pub beatmap_filename: OsuStr,
    pub ranked_status: RankedStatus,
}

impl View for EntryHead {
    type V = HeadModel;

    open spec fn view(&self) -> HeadModel {
        HeadModel {
            size: self.size,
            artist_name: self.artist_name@,
            artist_name_unicode: self.artist_name_unicode@,
            song_title: self.song_title@,
            song_title_unicode: self.song_title_unicode@,
            creator_name: self.creator_name@,
            difficulty: self.difficulty@,
            audio_filename: self.audio_filename@,
            md5: self.md5@,
            beatmap_filename: self.beatmap_filename@,
            ranked_status: self.ranked_status,
        }
    }
}

/// The exec counterpart of the third group.
pub struct EntryRatings {
    pub star_ratings_std: Vec<(u32, u64)>,
    pub star_ratings_taiko: Vec<(u32, u64)>,
    pub star_ratings_ctb: Vec<(u32, u64)>,
    pub star_ratings_mania: Vec<(u32, u64)>,
}

impl View for EntryRatings {
    type V = RatingsModel;

    open spec fn view(&self) -> RatingsModel {
        RatingsModel {
            star_ratings_std: self.star_ratings_std@,
            star_ratings_taiko: self.star_ratings_taiko@,
            star_ratings_ctb: self.star_ratings_ctb@,
            star_ratings_mania: self.star_ratings_mania@,
        }
    }
}

/// The exec counterpart of the fourth group.
pub struct EntryTiming {
    pub drain_time: u32,
    pub total_time: u32,
    pub audio_preview_time: u32,
    pub timing_points: Vec<TimingPoint>,
    pub difficulty_id: u32,
    pub beatmap_id: u32,
    pub thread_id: u32,
}

impl View for EntryTiming {
    type V = TimingModel;

    open spec fn view(&self) -> TimingModel {
        TimingModel {
            drain_time: self.drain_time,
            total_time: self.total_time,
            audio_preview_time: self.audio_preview_time,
            timing_points: self.timing_points@,
            difficulty_id: self.difficulty_id,
            beatmap_id: self.beatmap_id,
            thread_id: self.thread_id,
        }
    }
}

/// The exec counterpart of the fifth group.
pub struct EntryMeta {
    pub grade_std: u8,
    pub grade_taiko: u8,
    pub grade_catch: u8,
    pub grade_mania: u8,
    pub local_offset: u16,
    pub stack_leniency: u32,
    pub gameplay_mode: GameplayMode,
    pub song_source: OsuStr,
    pub song_tags: OsuStr,
    pub online_offset: u16,
    pub font: OsuStr,
}

impl View for EntryMeta {
    type V = MetaModel;

    open spec fn view(&self) -> MetaModel {
        MetaModel {
            grade_std: self.grade_std,
            grade_taiko: self.grade_taiko,
            grade_catch: self.grade_catch,
            grade_mania: self.grade_mania,
            local_offset: self.local_offset,
            stack_leniency: self.stack_leniency,
            gameplay_mode: self.gameplay_mode,
            song_source: self.song_source@,
            song_tags: self.song_tags@,
            online_offset: self.online_offset,
            font: self.font@,
        }
    }
}

/// The exec counterpart of the sixth group.
pub struct EntryFlags {
    pub is_unplayed: bool,
    pub last_played: WindowsTimestamp,
    pub is_osz2: bool,
    pub folder_name: OsuStr,
    pub last_checked_online: WindowsTimestamp,
    pub ignore_beatmap_hitsounds: bool,
    pub ignore_beatmap_skin: bool,
    pub disable_storyboard: bool,
    pub disable_video: bool,
    pub mania_scroll_speed: u8,
}

impl View for EntryFlags {
    type V = FlagsModel;

    open spec fn view(&self) -> FlagsModel {
        FlagsModel {
            is_unplayed: self.is_unplayed,
            last_played: self.last_played,
            is_osz2: self.is_osz2,
            folder_name: self.folder_name@,
            last_checked_online: self.last_checked_online,
            ignore_beatmap_hitsounds: self.ignore_beatmap_hitsounds,
            ignore_beatmap_skin: self.ignore_beatmap_skin,
            disable_storyboard: self.disable_storyboard,
            disable_video: self.disable_video,
            mania_scroll_speed: self.mania_scroll_speed,
        }
    }
}

fn decode_entry_head(input: &[u8], pos: usize, ctx: VersionContext) -> (r: Result<
    (EntryHead, usize),
    DecodeError,
>)
    ensures
        match r {
            Ok((v, p)) => s_entry_head(input@, pos as int, ctx) == Ok::<_, DecodeError>((
                v@,
                p as int,
            )) && pos <= p <= input.len(),
            Err(e) => s_entry_head(input@, pos as int, ctx) == Err::<(HeadModel, int), _>(e),
        },
{
    let (size, p0) = if ctx.entry_size_present {
        match decode_u32(input, pos) {
            Ok((v, p)) => (Some(v), p),
            Err(e) => {
                return Err(e);
            },
        }
    } else {
        (None, pos)
    };
    let (artist_name, p1) = osu_string(input, p0)?;
    let (artist_name_unicode, p2) = osu_string(input, p1)?;
    let (song_title, p3) = osu_string(input, p2)?;
    let (song_title_unicode, p4) = osu_string(input, p3)?;
    let (creator_name, p5) = osu_string(input, p4)?;
    let (difficulty, p6) = osu_string(input, p5)?;
    let (audio_filename, p7) = osu_string(input, p6)?;
    let (md5, p8) = osu_string(input, p7)?;
    let (beatmap_filename, p9) = osu_string(input, p8)?;
    let (ranked, p10) = ranked_status(input, p9)?;
    Ok(
        (
            EntryHead {
                size,
                artist_name,
                artist_name_unicode,
                song_title,
                song_title_unicode,
                creator_name,
                difficulty,
                audio_filename,
                md5,
                beatmap_filename,
                ranked_status: ranked,
            },
            p10,
        ),
    )
}

fn decode_entry_stats(input: &[u8], pos: usize, ctx: VersionContext) -> (r: Result<
    (EntryStats, usize),
    DecodeError,
>)
    ensures
        match r {
            Ok((v, p)) => s_entry_stats(input@, pos as int, ctx) == Ok::<_, DecodeError>((
                v,
                p as int,
            )) && pos <= p <= input.len(),
            Err(e) => s_entry_stats(input@, pos as int, ctx) == Err::<(EntryStats, int), _>(e),
        },
{
    let (hitcircle_count, p0) = decode_u16(input, pos)?;
    let (slider_count, p1) = decode_u16(input, p0)?;
    let (spinner_count, p2) = decode_u16(input, p1)?;
    let (last_modification_time, p3) = windows_datetime(input, p2)?;
    let (approach_rate, p4) = decode_stat(input, p3, ctx.stats_as_bytes)?;
    let (circle_size, p5) = decode_stat(input, p4, ctx.stats_as_bytes)?;
    let (hp_drain, p6) = decode_stat(input, p5, ctx.stats_as_bytes)?;
    let (overall_difficulty, p7) = decode_stat(input, p6, ctx.stats_as_bytes)?;
    let (slider_velocity, p8) = decode_u64(input, p7)?;
    Ok(
        (
            EntryStats {
                hitcircle_count,
                slider_count,
                spinner_count,
                last_modification_time,
                approach_rate,
                circle_size,
                hp_drain,
                overall_difficulty,
                slider_velocity,
            },
            p8,
        ),
    )
}

fn decode_entry_ratings(input: &[u8], pos: usize) -> (r: Result<(EntryRatings, usize), DecodeError>)
    ensures
        match r {
            Ok((v, p)) => s_entry_ratings(input@, pos as int) == Ok::<_, DecodeError>((
                v@,
                p as int,
            )) && pos <= p <= input.len(),
            Err(e) => s_entry_ratings(input@, pos as int) == Err::<(RatingsModel, int), _>(e),
        },
{
    let (star_ratings_std, p0) = star_ratings(input, pos)?;
    let (star_ratings_taiko, p1) = star_ratings(input, p0)?;
    let (star_ratings_ctb, p2) = star_ratings(input, p1)?;
    let (star_ratings_mania, p3) = star_ratings(input, p2)?;
    Ok(
        (
            EntryRatings { star_ratings_std, star_ratings_taiko, star_ratings_ctb, star_ratings_mania },
            p3,
        ),
    )
}

fn decode_entry_timing(input: &[u8], pos: usize) -> (r: Result<(EntryTiming, usize), DecodeError>)
    ensures
        match r {
            Ok((v, p)) => s_entry_timing(input@, pos as int) == Ok::<_, DecodeError>((
                v@,
                p as int,
            )) && pos <= p <= input.len(),
            Err(e) => s_entry_timing(input@, pos as int) == Err::<(TimingModel, int), _>(e),
        },
{
    let (drain_time, p0) = decode_u32(input, pos)?;
    let (total_time, p1) = decode_u32(input, p0)?;
    let (audio_preview_time, p2) = decode_u32(input, p1)?;
    let (timing_points, p3) = timing_point_list(input, p2)?;
    let (difficulty_id, p4) = decode_u32(input, p3)?;
    let (beatmap_id, p5) = decode_u32(input, p4)?;
    let (thread_id, p6) = decode_u32(input, p5)?;
    Ok(
        (
            EntryTiming {
                drain_time,
                total_time,
                audio_preview_time,
                timing_points,
                difficulty_id,
                beatmap_id,
                thread_id,
            },
            p6,
        ),
    )
}

fn decode_entry_meta(input: &[u8], pos: usize) -> (r: Result<(EntryMeta, usize), DecodeError>)
    ensures
        match r {
            Ok((v, p)) => s_entry_meta(input@, pos as int) == Ok::<_, DecodeError>((v@, p as int))
                && pos <= p <= input.len(),
            Err(e) => s_entry_meta(input@, pos as int) == Err::<(MetaModel, int), _>(e),
        },
{
    let (grade_std, p0) = decode_u8(input, pos)?;
    let (grade_taiko, p1) = decode_u8(input, p0)?;
    let (grade_catch, p2) = decode_u8(input, p1)?;
    let (grade_mania, p3) = decode_u8(input, p2)?;
    let (local_offset, p4) = decode_u16(input, p3)?;
    let (stack_leniency, p5) = decode_u32(input, p4)?;
    let (mode, p6) = gameplay_mode(input, p5)?;
    let (song_source, p7) = osu_string(input, p6)?;
    let (song_tags, p8) = osu_string(input, p7)?;
    let (online_offset, p9) = decode_u16(input, p8)?;
    let (font, p10) = osu_string(input, p9)?;
    Ok(
        (
            EntryMeta {
                grade_std,
                grade_taiko,
                grade_catch,
                grade_mania,
                local_offset,
                stack_leniency,
                gameplay_mode: mode,
                song_source,
                song_tags,
                online_offset,
                font,
            },
            p10,
        ),
    )
}

fn decode_entry_flags(input: &[u8], pos: usize, ctx: VersionContext) -> (r: Result<
    (EntryFlags, usize),
    DecodeError,
>)
    ensures
        match r {
            Ok((v, p)) => s_entry_flags(input@, pos as int, ctx) == Ok::<_, DecodeError>((
                v@,
                p as int,
            )) && pos <= p <= input.len(),
            Err(e) => s_entry_flags(input@, pos as int, ctx) == Err::<(FlagsModel, int), _>(e),
        },
{
    let (is_unplayed, p0) = boolean(input, pos)?;
    let (last_played, p1) = windows_datetime(input, p0)?;
    let (is_osz2, p2) = boolean(input, p1)?;
    let (folder_name, p3) = osu_string(input, p2)?;
    let (last_checked_online, p4) = windows_datetime(input, p3)?;
    let (ignore_beatmap_hitsounds, p5) = boolean(input, p4)?;
    let (ignore_beatmap_skin, p6) = boolean(input, p5)?;
    let (disable_storyboard, p7) = boolean(input, p6)?;
    let (disable_video, p8) = boolean(input, p7)?;
    let p9 = if ctx.extra_unused_single {
        match decode_u32(input, p8) {
            Ok((_v, p)) => p,
            Err(e) => {
                return Err(e);
            },
        }
    } else {
        p8
    };
    let (_unused, p10) = decode_u32(input, p9)?;
    let (mania_scroll_speed, p11) = decode_u8(input, p10)?;
    Ok(
        (
            EntryFlags {
                is_unplayed,
                last_played,
                is_osz2,
                folder_name,
                last_checked_online,
                ignore_beatmap_hitsounds,
                ignore_beatmap_skin,
                disable_storyboard,
                disable_video,
                mania_scroll_speed,
            },
            p11,
        ),
    )
}

/// Decodes one full catalog record under the given version context. The
/// first field failure at any depth aborts the entry and is returned
/// unmodified; no partial entry is ever produced.
pub fn beatmap_entry(input: &[u8], pos: usize, ctx: VersionContext) -> (r: Result<
    (BeatmapEntry, usize),
    DecodeError,
>)
    ensures
        match r {
            Ok((v, p)) => s_beatmap_entry(input@, pos as int, ctx) == Ok::<_, DecodeError>((
                v@,
                p as int,
            )) && pos <= p <= input.len(),
            Err(e) => s_beatmap_entry(input@, pos as int, ctx) == Err::<(EntryModel, int), _>(e),
        },
{
    proof {
        reveal(s_beatmap_entry);
    }
    let (h, p0) = decode_entry_head(input, pos, ctx)?;
    let (st, p1) = decode_entry_stats(input, p0, ctx)?;
    let (ra, p2) = decode_entry_ratings(input, p1)?;
    let (ti, p3) = decode_entry_timing(input, p2)?;
    let (me, p4) = decode_entry_meta(input, p3)?;
    let (fl, p5) = decode_entry_flags(input, p4, ctx)?;
    let entry = BeatmapEntry {
        size: h.size,
        artist_name: h.artist_name,
        artist_name_unicode: h.artist_name_unicode,
        song_title: h.song_title,
        song_title_unicode: h.song_title_unicode,
        creator_name: h.creator_name,
        difficulty: h.difficulty,
        audio_filename: h.audio_filename,
        md5: h.md5,
        beatmap_filename: h.beatmap_filename,
        ranked_status: h.ranked_status,
        hitcircle_count: st.hitcircle_count,
        slider_count: st.slider_count,
        spinner_count: st.spinner_count,
        last_modification_time: st.last_modification_time,
        approach_rate: st.approach_rate,
        circle_size: st.circle_size,
        hp_drain: st.hp_drain,
        overall_difficulty: st.overall_difficulty,
        slider_velocity: st.slider_velocity,
        star_ratings_std: ra.star_ratings_std,
        star_ratings_taiko: ra.star_ratings_taiko,
        star_ratings_ctb: ra.star_ratings_ctb,
        star_ratings_mania: ra.star_ratings_mania,
        drain_time: ti.drain_time,
        total_time: ti.total_time,
        audio_preview_time: ti.audio_preview_time,
        timing_points: ti.timing_points,
        difficulty_id: ti.difficulty_id,
        beatmap_id: ti.beatmap_id,
        thread_id: ti.thread_id,
        grade_std: me.grade_std,
        grade_taiko: me.grade_taiko,
        grade_catch: me.grade_catch,
        grade_mania: me.grade_mania,
        local_offset: me.local_offset,
        stack_leniency: me.stack_leniency,
        gameplay_mode: me.gameplay_mode,
        song_source: me.song_source,
        song_tags: me.song_tags,
        online_offset: me.online_offset,
        font: me.font,
        is_unplayed: fl.is_unplayed,
        last_played: fl.last_played,
        is_osz2: fl.is_osz2,
        folder_name: fl.folder_name,
        last_checked_online: fl.last_checked_online,
        ignore_beatmap_hitsounds: fl.ignore_beatmap_hitsounds,
        ignore_beatmap_skin: fl.ignore_beatmap_skin,
        disable_storyboard: fl.disable_storyboard,
        disable_video: fl.disable_video,
        mania_scroll_speed: fl.mania_scroll_speed,
    };
    proof {
        assert(entry@ =~= entry_of_groups(h@, st, ra@, ti@, me@, fl@));
    }
    Ok((entry, p5))
}

} // verus!

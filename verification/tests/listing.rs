//! Tests for the entry and listing decoders.

use osudb::context::VersionContext;
use osudb::elements::GameplayMode;
use osudb::elements::RankedStatus;
use osudb::entry::beatmap_entry;
use osudb::error::DecodeError;
use osudb::listing::beatmap_listing;

const OLD_STATS_VERSION: u32 = 20140608;
const NEW_STATS_VERSION: u32 = 20140609;

/// Builds the bytes of one minimal entry under the layout the given format
/// version fixes. The four difficulty statistics decode to 5.0, 6.0, 7.0
/// and 8.0 under either layout.
fn build_entry(version: u32) -> Vec<u8> {
    let mut b: Vec<u8> = Vec::new();
    if version < 20191106 {
        b.extend_from_slice(&0u32.to_le_bytes()); // size
    }
    // artist name present, the other eight strings absent
    b.push(0x0b);
    b.push(6);
    b.extend_from_slice(b"Artist");
    for _ in 0..8 {
        b.push(0x00);
    }
    b.push(4); // ranked status: Ranked
    b.extend_from_slice(&1u16.to_le_bytes()); // hitcircles
    b.extend_from_slice(&2u16.to_le_bytes()); // sliders
    b.extend_from_slice(&3u16.to_le_bytes()); // spinners
    b.extend_from_slice(&0u64.to_le_bytes()); // last modification time
    if version < NEW_STATS_VERSION {
        b.extend_from_slice(&[5, 6, 7, 8]); // stats as single bytes
    } else {
        for v in [5.0f32, 6.0, 7.0, 8.0] {
            b.extend_from_slice(&v.to_le_bytes());
        }
    }
    b.extend_from_slice(&1.5f64.to_le_bytes()); // slider velocity
    // standard ratings: one pair; the other three lists empty
    b.extend_from_slice(&1u32.to_le_bytes());
    b.push(0x08);
    b.extend_from_slice(&64u32.to_le_bytes());
    b.push(0x0d);
    b.extend_from_slice(&5.25f64.to_le_bytes());
    for _ in 0..3 {
        b.extend_from_slice(&0u32.to_le_bytes());
    }
    b.extend_from_slice(&100u32.to_le_bytes()); // drain time
    b.extend_from_slice(&200u32.to_le_bytes()); // total time
    b.extend_from_slice(&10u32.to_le_bytes()); // audio preview time
    // one timing point
    b.extend_from_slice(&1u32.to_le_bytes());
    b.extend_from_slice(&120.0f64.to_le_bytes());
    b.extend_from_slice(&0.0f64.to_le_bytes());
    b.push(0x01);
    b.extend_from_slice(&11u32.to_le_bytes()); // difficulty id
    b.extend_from_slice(&12u32.to_le_bytes()); // beatmap id
    b.extend_from_slice(&13u32.to_le_bytes()); // thread id
    b.extend_from_slice(&[1, 2, 3, 4]); // grades
    b.extend_from_slice(&0u16.to_le_bytes()); // local offset
    b.extend_from_slice(&0.7f32.to_le_bytes()); // stack leniency
    b.push(0); // gameplay mode: Standard
    b.push(0x00); // song source absent
    b.push(0x00); // song tags absent
    b.extend_from_slice(&0u16.to_le_bytes()); // online offset
    b.push(0x00); // font absent
    b.push(0x01); // unplayed
    b.extend_from_slice(&0u64.to_le_bytes()); // last played
    b.push(0x00); // not osz2
    b.push(0x00); // folder name absent
    b.extend_from_slice(&0u64.to_le_bytes()); // last checked online
    b.extend_from_slice(&[0, 0, 0, 0]); // the four ignore/disable flags
    if version < NEW_STATS_VERSION {
        b.extend_from_slice(&0.0f32.to_le_bytes()); // unused floating field
    }
    b.extend_from_slice(&0u32.to_le_bytes()); // unused trailing field
    b.push(9); // mania scroll speed
    b
}

#[test]
fn entry_decoding_works() {
    let version = 20150203;
    let bytes = build_entry(version);
    let ctx = VersionContext::from_version(version);
    let (e, p) = beatmap_entry(&bytes, 0, ctx).unwrap();
    assert_eq!(p, bytes.len());
    assert_eq!(e.size, Some(0));
    assert_eq!(e.artist_name.text, Some(b"Artist".to_vec()));
    assert_eq!(e.artist_name_unicode.text, None);
    assert_eq!(e.ranked_status, RankedStatus::Ranked);
    assert_eq!(e.hitcircle_count, 1);
    assert_eq!(e.slider_count, 2);
    assert_eq!(e.spinner_count, 3);
    assert_eq!(e.approach_rate, 5.0f32.to_bits());
    assert_eq!(e.overall_difficulty, 8.0f32.to_bits());
    assert_eq!(e.slider_velocity, 1.5f64.to_bits());
    assert_eq!(e.star_ratings_std, vec![(64, 5.25f64.to_bits())]);
    assert_eq!(e.star_ratings_mania, vec![]);
    assert_eq!(e.timing_points.len(), 1);
    assert_eq!(e.timing_points[0].bpm, 120.0f64.to_bits());
    assert!(e.timing_points[0].inherited);
    assert_eq!(e.difficulty_id, 11);
    assert_eq!(e.gameplay_mode, GameplayMode::Standard);
    assert_eq!(e.mania_scroll_speed, 9);
}

#[test]
fn version_boundary_switches_stat_width() {
    // The same logical record, laid out under the last version before the
    // statistic-width boundary and under the first version at it: the older
    // layout stores each statistic as one byte, widened to the floating
    // value it denotes; the newer layout stores the floating value's four
    // bytes directly. The header version alone decides which decode runs.
    let old_bytes = build_entry(OLD_STATS_VERSION);
    let new_bytes = build_entry(NEW_STATS_VERSION);
    let (e_old, p_old) =
        beatmap_entry(&old_bytes, 0, VersionContext::from_version(OLD_STATS_VERSION)).unwrap();
    let (e_new, p_new) =
        beatmap_entry(&new_bytes, 0, VersionContext::from_version(NEW_STATS_VERSION)).unwrap();
    assert_eq!(p_old, old_bytes.len());
    assert_eq!(p_new, new_bytes.len());
    for (old_bits, new_bits) in [
        (e_old.approach_rate, e_new.approach_rate),
        (e_old.circle_size, e_new.circle_size),
        (e_old.hp_drain, e_new.hp_drain),
        (e_old.overall_difficulty, e_new.overall_difficulty),
    ] {
        assert_eq!(old_bits, new_bits);
    }
    assert_eq!(f32::from_bits(e_old.approach_rate), 5.0);
    assert_eq!(f32::from_bits(e_old.circle_size), 6.0);
    assert_eq!(f32::from_bits(e_old.hp_drain), 7.0);
    assert_eq!(f32::from_bits(e_old.overall_difficulty), 8.0);
}

#[test]
fn version_boundary_switches_size_field() {
    // Below the size-field boundary each entry begins with a 4-byte size;
    // from the boundary on, the field is gone from the stream entirely.
    let with_size = build_entry(20191105);
    let without_size = build_entry(20191106);
    assert_eq!(with_size.len(), without_size.len() + 4);
    let (e, p) =
        beatmap_entry(&with_size, 0, VersionContext::from_version(20191105)).unwrap();
    assert_eq!(p, with_size.len());
    assert_eq!(e.size, Some(0));
    let (e, p) =
        beatmap_entry(&without_size, 0, VersionContext::from_version(20191106)).unwrap();
    assert_eq!(p, without_size.len());
    assert_eq!(e.size, None);
}

fn build_listing(version: u32) -> Vec<u8> {
    let mut b: Vec<u8> = Vec::new();
    b.extend_from_slice(&version.to_le_bytes());
    b.extend_from_slice(&5u32.to_le_bytes()); // folder count
    b.push(0x01); // account unlocked
    b.extend_from_slice(&0u64.to_le_bytes()); // unlock date
    b.push(0x0b);
    b.push(6);
    b.extend_from_slice(b"Player");
    b.extend_from_slice(&1u32.to_le_bytes()); // one entry
    b.extend_from_slice(&build_entry(version));
    b.extend_from_slice(&4u32.to_le_bytes()); // permissions
    b
}

#[test]
fn listing_decoding_works() {
    let version = 20150203;
    let mut bytes = build_listing(version);
    bytes.extend_from_slice(&[0xaa, 0xbb]); // trailing bytes are left over
    let (listing, consumed) = beatmap_listing(&bytes).unwrap();
    assert_eq!(consumed, bytes.len() - 2);
    assert_eq!(&bytes[consumed..], &[0xaa, 0xbb]);
    assert_eq!(listing.version, version);
    assert_eq!(listing.folder_count, 5);
    assert!(listing.account_unlocked);
    assert_eq!(listing.account_unlock_date.ticks, 0);
    assert_eq!(listing.player_name.text, Some(b"Player".to_vec()));
    assert_eq!(listing.beatmaps.len(), 1);
    assert_eq!(listing.beatmaps[0].song_title.text, None);
    assert_eq!(listing.user_permissions, 4);
}

#[test]
fn empty_listing_decoding_works() {
    let mut b: Vec<u8> = Vec::new();
    b.extend_from_slice(&20200101u32.to_le_bytes());
    b.extend_from_slice(&0u32.to_le_bytes());
    b.push(0x00); // account locked
    b.extend_from_slice(&0u64.to_le_bytes());
    b.push(0x00); // player name absent
    b.extend_from_slice(&0u32.to_le_bytes()); // no entries
    b.extend_from_slice(&1u32.to_le_bytes());
    let (listing, consumed) = beatmap_listing(&b).unwrap();
    assert_eq!(consumed, b.len());
    assert!(listing.beatmaps.is_empty());
    assert!(!listing.account_unlocked);
    assert_eq!(listing.player_name.text, None);
    assert_eq!(listing.user_permissions, 1);
}

#[test]
fn listing_decoding_propagates_entry_failure() {
    let version = 20150203;
    let mut bytes = build_listing(version);
    // Corrupt the one entry's ranked-status byte (size field 4 bytes, then
    // the artist string of 8 bytes, then 8 absent strings).
    let entry_start = 4 + 4 + 1 + 8 + (1 + 1 + 6) + 4;
    let ranked_pos = entry_start + 4 + 8 + 8;
    assert_eq!(bytes[ranked_pos], 4);
    bytes[ranked_pos] = 3;
    assert_eq!(
        beatmap_listing(&bytes),
        Err(DecodeError::InvalidDiscriminant {
            field: osudb::error::FieldKind::RankedStatus,
            value: 3
        })
    );
}

#[test]
fn truncated_listing_fails() {
    assert_eq!(beatmap_listing(&[]), Err(DecodeError::Truncated));
    assert_eq!(beatmap_listing(&[1, 2, 3]), Err(DecodeError::Truncated));
    let bytes = build_listing(20150203);
    assert_eq!(
        beatmap_listing(&bytes[..bytes.len() - 1]),
        Err(DecodeError::Truncated)
    );
}

#[test]
fn decoding_is_deterministic() {
    let bytes = build_listing(20150203);
    let first = beatmap_listing(&bytes);
    let second = beatmap_listing(&bytes);
    assert_eq!(first, second);

    let old = build_entry(OLD_STATS_VERSION);
    let ctx = VersionContext::from_version(OLD_STATS_VERSION);
    assert_eq!(beatmap_entry(&old, 0, ctx), beatmap_entry(&old, 0, ctx));
}

//! Tests for the primitive and element decoders.

use osudb::elements::gameplay_mode;
use osudb::elements::int_double_pair;
use osudb::elements::ranked_status;
use osudb::elements::star_ratings;
use osudb::elements::timing_point;
use osudb::elements::GameplayMode;
use osudb::elements::RankedStatus;
use osudb::elements::TimingPoint;
use osudb::error::DecodeError;
use osudb::error::FieldKind;
use osudb::primitive::boolean;
use osudb::primitive::decode_u16;
use osudb::primitive::decode_u32;
use osudb::primitive::decode_u64;
use osudb::primitive::decode_uleb;
use osudb::primitive::osu_string;

#[test]
fn ranked_status_decoding_works() {
    assert_eq!(ranked_status(&[0], 0), Ok((RankedStatus::Unknown, 1)));
    assert_eq!(ranked_status(&[1], 0), Ok((RankedStatus::Unsubmitted, 1)));
    assert_eq!(ranked_status(&[2], 0), Ok((RankedStatus::Pending, 1)));
    assert_eq!(ranked_status(&[4], 0), Ok((RankedStatus::Ranked, 1)));
    assert_eq!(ranked_status(&[5], 0), Ok((RankedStatus::Approved, 1)));
    assert_eq!(ranked_status(&[6], 0), Ok((RankedStatus::Qualified, 1)));
    assert_eq!(ranked_status(&[7], 0), Ok((RankedStatus::Loved, 1)));

    assert_eq!(
        ranked_status(&[10], 0),
        Err(DecodeError::InvalidDiscriminant {
            field: FieldKind::RankedStatus,
            value: 10
        })
    );
}

#[test]
fn ranked_status_rejects_reserved_and_high_codes() {
    for b in [3u8, 8, 9, 255] {
        assert_eq!(
            ranked_status(&[b], 0),
            Err(DecodeError::InvalidDiscriminant {
                field: FieldKind::RankedStatus,
                value: b
            })
        );
    }
    assert_eq!(ranked_status(&[], 0), Err(DecodeError::Truncated));
}

#[test]
fn gameplay_mode_decoding_works() {
    assert_eq!(gameplay_mode(&[0], 0), Ok((GameplayMode::Standard, 1)));
    assert_eq!(gameplay_mode(&[1], 0), Ok((GameplayMode::Taiko, 1)));
    assert_eq!(gameplay_mode(&[2], 0), Ok((GameplayMode::Catch, 1)));
    assert_eq!(gameplay_mode(&[3], 0), Ok((GameplayMode::Mania, 1)));

    assert_eq!(
        gameplay_mode(&[10], 0),
        Err(DecodeError::InvalidDiscriminant {
            field: FieldKind::GameplayMode,
            value: 10
        })
    );
}

#[test]
fn gameplay_mode_rejects_unknown_codes() {
    for b in [4u8, 100, 255] {
        assert_eq!(
            gameplay_mode(&[b], 0),
            Err(DecodeError::InvalidDiscriminant {
                field: FieldKind::GameplayMode,
                value: b
            })
        );
    }
    assert_eq!(gameplay_mode(&[], 0), Err(DecodeError::Truncated));
}

#[test]
fn int_double_pair_decoding_works() {
    let int: u32 = 100;
    let double: f64 = 1234.56;
    let extra = [0x01, 0x02, 0x03];

    let mut pair = Vec::new();
    pair.push(0x08);
    pair.extend_from_slice(&int.to_le_bytes());
    pair.push(0x0d);
    pair.extend_from_slice(&double.to_le_bytes());
    pair.extend_from_slice(&extra);

    let mut missing_front_tag = Vec::new();
    missing_front_tag.extend_from_slice(&int.to_le_bytes());
    missing_front_tag.extend_from_slice(&double.to_le_bytes());

    let mut missing_middle_tag = Vec::new();
    missing_middle_tag.push(0x08);
    missing_middle_tag.extend_from_slice(&int.to_le_bytes());
    missing_middle_tag.extend_from_slice(&double.to_le_bytes());

    let consumed = pair.len() - extra.len();
    assert_eq!(
        int_double_pair(&pair, 0),
        Ok(((int, double.to_bits()), consumed))
    );
    assert_eq!(&pair[consumed..], &extra[..]);

    // The leading marker is missing: the first byte of the integer is
    // rejected at the start of the buffer.
    assert_eq!(
        int_double_pair(&missing_front_tag, 0),
        Err(DecodeError::InvalidDiscriminant {
            field: FieldKind::PairIntMarker,
            value: int.to_le_bytes()[0]
        })
    );

    // The middle marker is missing: the first byte of the floating value is
    // rejected right after the integer.
    assert_eq!(
        int_double_pair(&missing_middle_tag, 0),
        Err(DecodeError::InvalidDiscriminant {
            field: FieldKind::PairDoubleMarker,
            value: double.to_le_bytes()[0]
        })
    );
}

#[test]
fn timing_point_decoding_works() {
    let bpm: f64 = 180.0;
    let song_offset: f64 = 250.0;

    let mut input = Vec::new();
    input.extend_from_slice(&bpm.to_le_bytes());
    input.extend_from_slice(&song_offset.to_le_bytes());
    input.push(0x01);

    // Extra data
    input.extend_from_slice(&[0x05, 0x06]);

    assert_eq!(
        timing_point(&input, 0),
        Ok((
            TimingPoint {
                bpm: bpm.to_bits(),
                song_offset: song_offset.to_bits(),
                inherited: true
            },
            17
        ))
    );
    assert_eq!(&input[17..], &[0x05, 0x06]);
}

#[test]
fn star_ratings_decoding_works() {
    let ratings: Vec<(u32, f64)> = vec![(0, 1.2), (1, 2.3)];
    let length = ratings.len() as u32;

    let mut input = length.to_le_bytes().to_vec();

    for (mods, rating) in ratings.iter() {
        input.push(0x08);
        input.extend_from_slice(&mods.to_le_bytes());
        input.push(0x0d);
        input.extend_from_slice(&rating.to_le_bytes());
    }

    let expected: Vec<(u32, u64)> = ratings.iter().map(|&(m, r)| (m, r.to_bits())).collect();
    assert_eq!(star_ratings(&input, 0), Ok((expected, input.len())));
}

#[test]
fn star_ratings_propagates_element_failure() {
    // Count says two pairs but the second lacks its leading marker.
    let mut input = 2u32.to_le_bytes().to_vec();
    input.push(0x08);
    input.extend_from_slice(&7u32.to_le_bytes());
    input.push(0x0d);
    input.extend_from_slice(&1.5f64.to_le_bytes());
    input.push(0x09);
    input.extend_from_slice(&8u32.to_le_bytes());
    input.push(0x0d);
    input.extend_from_slice(&2.5f64.to_le_bytes());

    assert_eq!(
        star_ratings(&input, 0),
        Err(DecodeError::InvalidDiscriminant {
            field: FieldKind::PairIntMarker,
            value: 0x09
        })
    );

    // A count larger than the data runs off the end of the buffer.
    let short = 3u32.to_le_bytes().to_vec();
    assert_eq!(star_ratings(&short, 0), Err(DecodeError::Truncated));
}

#[test]
fn fixed_width_integers_decode_little_endian() {
    assert_eq!(decode_u16(&[0xcd, 0xab], 0), Ok((0xabcd, 2)));
    assert_eq!(
        decode_u32(&[0x78, 0x56, 0x34, 0x12], 0),
        Ok((0x12345678, 4))
    );
    assert_eq!(
        decode_u64(&[0x11, 0x22, 0x33, 0x44, 0x55, 0x66, 0x77, 0x88], 0),
        Ok((0x8877665544332211, 8))
    );
    assert_eq!(decode_u32(&[1, 2, 3], 0), Err(DecodeError::Truncated));
    assert_eq!(decode_u16(&[0, 1, 2, 0xff, 0xff], 3), Ok((0xffff, 5)));
}

#[test]
fn boolean_decoding_works() {
    assert_eq!(boolean(&[0], 0), Ok((false, 1)));
    assert_eq!(boolean(&[1], 0), Ok((true, 1)));
    assert_eq!(boolean(&[2], 0), Ok((true, 1)));
    assert_eq!(boolean(&[], 0), Err(DecodeError::Truncated));
}

#[test]
fn uleb_decoding_works() {
    assert_eq!(decode_uleb(&[0x00], 0), Ok((0, 1)));
    assert_eq!(decode_uleb(&[0x7f], 0), Ok((127, 1)));
    // 200 = 0x48 + 128 * 1, least significant chunk first.
    assert_eq!(decode_uleb(&[0xc8, 0x01], 0), Ok((200, 2)));
    assert_eq!(decode_uleb(&[0x80], 0), Err(DecodeError::Truncated));
}

#[test]
fn osu_string_decoding_works() {
    // Absent: any flag other than 0x0b consumes only the flag byte.
    let (s, p) = osu_string(&[0x00, 0xff], 0).unwrap();
    assert_eq!(s.text, None);
    assert_eq!(p, 1);
    let (s, p) = osu_string(&[0x07], 0).unwrap();
    assert_eq!(s.text, None);
    assert_eq!(p, 1);

    // Present: flag, length, then that many text bytes.
    let (s, p) = osu_string(&[0x0b, 0x03, b'a', b'b', b'c', 0x99], 0).unwrap();
    assert_eq!(s.text, Some(b"abc".to_vec()));
    assert_eq!(p, 5);

    // A length running past the end of the buffer is truncation.
    assert_eq!(
        osu_string(&[0x0b, 0x05, b'a'], 0),
        Err(DecodeError::Truncated)
    );
    assert_eq!(osu_string(&[0x0b], 0), Err(DecodeError::Truncated));
    assert_eq!(osu_string(&[], 0), Err(DecodeError::Truncated));
}

#[test]
fn osu_string_long_length_works() {
    // A 200-byte string exercises the two-byte continuation length.
    let mut input = vec![0x0b, 0xc8, 0x01];
    let body: Vec<u8> = (0..200u8).collect();
    input.extend_from_slice(&body);
    input.push(0xee);
    let (s, p) = osu_string(&input, 0).unwrap();
    assert_eq!(s.text, Some(body));
    assert_eq!(p, 203);
}

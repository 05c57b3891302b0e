//! Tests for the widened difficulty statistics and the calendar conversion
//! of tick-based timestamps.

use osudb::stat::single_bits_of_byte;
use osudb::timestamp::WindowsTimestamp;
use osudb::timestamp::MAX_CONVERTIBLE_TICKS;
use osudb::timestamp::UNIX_EPOCH_TICKS;

#[test]
fn single_bits_widen_every_byte_exactly() {
    for b in 0..=255u8 {
        assert_eq!(f32::from_bits(single_bits_of_byte(b)), b as f32);
    }
}

#[test]
fn tick_conversion_hits_the_unix_epoch() {
    let t = WindowsTimestamp {
        ticks: UNIX_EPOCH_TICKS,
    };
    let dt = t.to_datetime().unwrap();
    assert_eq!(dt.unix_timestamp(), 0);
}

#[test]
fn tick_conversion_counts_hundred_nanosecond_ticks() {
    // 2019-01-01T00:00:00 UTC, in ticks since the year one.
    let seconds: i64 = 1_546_300_800;
    let t = WindowsTimestamp {
        ticks: UNIX_EPOCH_TICKS + seconds as u64 * 10_000_000,
    };
    let dt = t.to_datetime().unwrap();
    assert_eq!(dt.unix_timestamp(), seconds);
    assert_eq!(dt.year(), 2019);

    // Half a second is five million ticks.
    let t = WindowsTimestamp {
        ticks: UNIX_EPOCH_TICKS + 5_000_000,
    };
    let dt = t.to_datetime().unwrap();
    assert_eq!(dt.unix_timestamp_nanos(), 500_000_000);
}

#[test]
fn tick_conversion_bounds_are_exact() {
    let last = WindowsTimestamp {
        ticks: MAX_CONVERTIBLE_TICKS,
    };
    let dt = last.to_datetime().unwrap();
    assert_eq!(dt.year(), 9999);

    let past = WindowsTimestamp {
        ticks: MAX_CONVERTIBLE_TICKS + 1,
    };
    assert_eq!(past.to_datetime(), None);

    let zero = WindowsTimestamp { ticks: 0 };
    let dt = zero.to_datetime().unwrap();
    assert_eq!(dt.year(), 1);
}

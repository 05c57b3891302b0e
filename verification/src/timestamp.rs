//! Tick-based timestamps. The format stores a timestamp as an 8-byte count of
//! 100-nanosecond ticks since 0001-01-01T00:00:00 UTC. The decoder keeps the
//! raw tick count; conversion to a calendar value goes through the `time`
//! crate behind a trusted wrapper.

use vstd::prelude::*;

use crate::error::DecodeError;
use crate::primitive::s_u64;
use crate::primitive::decode_u64;

verus! {

/// Ticks elapsed at the Unix epoch, 1970-01-01T00:00:00 UTC.
pub const UNIX_EPOCH_TICKS: u64 = 621355968000000000;

/// The largest tick count whose instant the calendar conversion supports
/// (the last representable moment of year 9999).
pub const MAX_CONVERTIBLE_TICKS: u64 = 3155378975999999999;

/// A timestamp as a count of 100-nanosecond ticks since
/// 0001-01-01T00:00:00 UTC.
#[derive(Clone, Copy, Debug, PartialEq, Eq, Structural)]
pub struct WindowsTimestamp {
    pub ticks: u64,
}

/// Layout of a tick-based timestamp at `pos`: an 8-byte little-endian tick
/// count.
pub open spec fn s_windows_datetime(s: Seq<u8>, pos: int) -> Result<
    (WindowsTimestamp, int),
    DecodeError,
> {
    match s_u64(s, pos) {
        Ok((t, p)) => Ok((WindowsTimestamp { ticks: t }, p)),
        Err(e) => Err(e),
    }
}

/// Decodes a tick-based timestamp.
pub fn windows_datetime(input: &[u8], pos: usize) -> (r: Result<
    (WindowsTimestamp, usize),
    DecodeError,
>)
    ensures
        match r {
            Ok((v, p)) => s_windows_datetime(input@, pos as int) == Ok::<_, DecodeError>((
                v,
                p as int,
            )) && pos < p <= input.len(),
            Err(e) => s_windows_datetime(input@, pos as int) == Err::<(WindowsTimestamp, int), _>(
                e,
            ),
        },
{
    match decode_u64(input, pos) {
        Ok((t, p)) => Ok((WindowsTimestamp { ticks: t }, p)),
        Err(e) => Err(e),
    }
}

#[verifier::external_type_specification]
#[verifier::external_body]
pub struct ExOffsetDateTime(time::OffsetDateTime);

/// Relies on time::OffsetDateTime::from_unix_timestamp_nanos: it returns Ok
/// exactly when the instant lies in the supported calendar range, years
/// -9999 through 9999 (Unix nanoseconds -377705116800000000000 through
/// 253402300799999999999).
#[verifier::external_body]
fn datetime_from_unix_nanos(nanos: i128) -> (r: Option<time::OffsetDateTime>)
    ensures
        r is Some <==> -377705116800000000000 <= nanos <= 253402300799999999999,
{
    time::OffsetDateTime::from_unix_timestamp_nanos(nanos).ok()
}

impl WindowsTimestamp {
    /// The Unix nanosecond instant this tick count denotes.
    pub open spec fn unix_nanos(&self) -> int {
        (self.ticks - UNIX_EPOCH_TICKS) * 100
    }

    /// Converts to a calendar value. Succeeds exactly for instants the
    /// calendar conversion supports, through the end of year 9999.
    pub fn to_datetime(&self) -> (r: Option<time::OffsetDateTime>)
        ensures
            r is Some <==> self.ticks <= MAX_CONVERTIBLE_TICKS,
    {
        let nanos: i128 = (self.ticks as i128 - UNIX_EPOCH_TICKS as i128) * 100;
        datetime_from_unix_nanos(nanos)
    }
}

} // verus!

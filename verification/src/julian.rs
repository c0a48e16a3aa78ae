//! Exact correspondence between Unix timestamps and the Julian Day count.
//!
//! The Julian Day (JD) is a continuous count of days; the Unix epoch
//! 1970-01-01T00:00:00Z falls at JD 2440587.5. Measured in whole seconds the
//! correspondence is an exact affine transform: a Unix timestamp `t` lies
//! `t + 2440587.5 * 86400` seconds after JD 0.0. This module works in those
//! integer "Julian seconds", so the conversion is exact in both directions.

use vstd::prelude::*;

verus! {

/// Seconds from JD 0.0 to the Unix epoch: 2440587.5 days of 86400 seconds.
pub const JULIAN_SECONDS_AT_UNIX_EPOCH: i64 = 210_866_760_000;

/// Smallest supported Unix timestamp: JD 990575.5, in whole seconds
/// 990575.5 * 86400 - 210866760000 (early in the year 1801).
pub const UNIX_TIME_MIN: i64 = -125_281_036_800;

/// Largest supported Unix timestamp: JD 3912880.49999 rounded down to a
/// whole second, 3912880.49999 * 86400 - 210866760000 (late in the year
/// 2999).
pub const UNIX_TIME_MAX: i64 = 127_206_115_199;

/// A Unix timestamp on which the calculator is prepared to work: the date
/// range supported by the solar position tables, roughly years 1801-2999.
pub open spec fn unix_time_supported(t: int) -> bool {
    UNIX_TIME_MIN <= t && t <= UNIX_TIME_MAX
}

/// Exec mirror of [`unix_time_supported`].
pub fn is_unix_time_supported(t: i64) -> (r: bool)
    ensures
        r == unix_time_supported(t as int),
{
    UNIX_TIME_MIN <= t && t <= UNIX_TIME_MAX
}

/// Seconds elapsed since JD 0.0 at the Unix timestamp `t`.
pub fn julian_seconds_from_unix(t: i64) -> (js: i64)
    requires
        t <= i64::MAX - JULIAN_SECONDS_AT_UNIX_EPOCH,
    ensures
        js == t + JULIAN_SECONDS_AT_UNIX_EPOCH,
{
    t + JULIAN_SECONDS_AT_UNIX_EPOCH
}

/// Unix timestamp at `js` seconds after JD 0.0.
pub fn unix_from_julian_seconds(js: i64) -> (t: i64)
    requires
        js >= i64::MIN + JULIAN_SECONDS_AT_UNIX_EPOCH,
    ensures
        t == js - JULIAN_SECONDS_AT_UNIX_EPOCH,
{
    js - JULIAN_SECONDS_AT_UNIX_EPOCH
}

/// The conversion from a Unix timestamp to the Julian count and back is an
/// affine transform and recovers the original timestamp exactly.
pub proof fn lemma_julian_round_trip(t: i64)
    requires
        t <= i64::MAX - JULIAN_SECONDS_AT_UNIX_EPOCH,
    ensures
        (t + JULIAN_SECONDS_AT_UNIX_EPOCH) - JULIAN_SECONDS_AT_UNIX_EPOCH == t,
{
}

} // verus!

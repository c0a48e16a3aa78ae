//! Unit tests of the library's own logic: validation order and error
//! kinds, status-code decoding, the Julian-second conversion, the default
//! step-size policy, and the behaviour of the horizon-crossing search on
//! synthetic visibility oracles.

use sunrise_sunset_calculator::calculate_with;
use sunrise_sunset_calculator::default_step_size;
use sunrise_sunset_calculator::julian::is_unix_time_supported;
use sunrise_sunset_calculator::julian::julian_seconds_from_unix;
use sunrise_sunset_calculator::julian::unix_from_julian_seconds;
use sunrise_sunset_calculator::julian::UNIX_TIME_MAX;
use sunrise_sunset_calculator::julian::UNIX_TIME_MIN;
use sunrise_sunset_calculator::search::search_for_change_in_visibility;
use sunrise_sunset_calculator::spa::validate_inputs;
use sunrise_sunset_calculator::spa::SpaError;
use sunrise_sunset_calculator::spa::SpaInputChecks;
use sunrise_sunset_calculator::status::decode_status;
use sunrise_sunset_calculator::status::SscError;
use sunrise_sunset_calculator::status::SscErrorCode;

fn all_in_range() -> SpaInputChecks {
    SpaInputChecks {
        date: true,
        pressure: true,
        temperature: true,
        delta_t: true,
        longitude: true,
        latitude: true,
        atmos_refract: true,
        elevation: true,
    }
}

fn checks_for(latitude: f64, longitude: f64) -> SpaInputChecks {
    SpaInputChecks {
        latitude: !(latitude.abs() > 90f64),
        longitude: !(longitude.abs() > 180f64),
        ..all_in_range()
    }
}

#[test]
fn test_validate_accepts_defaults() {
    assert_eq!(validate_inputs(&all_in_range()), Ok(()));
}

#[test]
fn test_latitude_out_of_range() {
    // An out-of-range latitude must yield the latitude error kind.
    let checks = checks_for(200.0, 0.0);
    assert_eq!(validate_inputs(&checks), Err(SpaError::InvalidLatitude));
}

#[test]
fn test_each_error_kind() {
    let cases = [
        (SpaInputChecks { date: false, ..all_in_range() }, SpaError::UnsupportedDate),
        (SpaInputChecks { pressure: false, ..all_in_range() }, SpaError::InvalidPressure),
        (SpaInputChecks { temperature: false, ..all_in_range() }, SpaError::InvalidTemperature),
        (SpaInputChecks { delta_t: false, ..all_in_range() }, SpaError::InvalidDeltaT),
        (SpaInputChecks { longitude: false, ..all_in_range() }, SpaError::InvalidLongitude),
        (SpaInputChecks { latitude: false, ..all_in_range() }, SpaError::InvalidLatitude),
        (SpaInputChecks { atmos_refract: false, ..all_in_range() }, SpaError::InvalidAtmosRefract),
        (SpaInputChecks { elevation: false, ..all_in_range() }, SpaError::InvalidElevation),
    ];
    for (checks, expected) in cases {
        assert_eq!(validate_inputs(&checks), Err(expected));
    }
}

#[test]
fn test_validation_order() {
    // The checks apply in a fixed order: the date check comes first, the
    // elevation check last.
    let mut checks = all_in_range();
    checks.date = false;
    checks.latitude = false;
    checks.elevation = false;
    assert_eq!(validate_inputs(&checks), Err(SpaError::UnsupportedDate));
    checks.date = true;
    assert_eq!(validate_inputs(&checks), Err(SpaError::InvalidLatitude));
    checks.latitude = true;
    assert_eq!(validate_inputs(&checks), Err(SpaError::InvalidElevation));
}

#[test]
fn test_error_messages() {
    assert_eq!(SpaError::InvalidLatitude.message(), "Latitude out of range");
    assert_eq!(
        SpaError::UnsupportedDate.message(),
        "Timestamp outside of supported range"
    );
}

#[test]
fn test_decode_status() {
    assert_eq!(decode_status(0), Ok(()));
    assert_eq!(
        decode_status(1),
        Err(SscError::KnownCode(SscErrorCode::UnsupportedDate))
    );
    assert_eq!(
        decode_status(7),
        Err(SscError::KnownCode(SscErrorCode::InvalidLatitude))
    );
    assert_eq!(
        decode_status(9),
        Err(SscError::KnownCode(SscErrorCode::InvalidElevation))
    );
    assert_eq!(decode_status(10), Err(SscError::UnknownCode(10)));
    assert_eq!(decode_status(-3), Err(SscError::UnknownCode(-3)));
}

#[test]
fn test_julian_round_trip() {
    // 2018-11-19 05:30 UTC is JD 2458441.729166...; in whole seconds the
    // conversion is exact both ways.
    let t = 1542605400;
    let js = julian_seconds_from_unix(t);
    assert_eq!(js, t + 210_866_760_000);
    assert_eq!(unix_from_julian_seconds(js), t);
    assert_eq!(unix_from_julian_seconds(julian_seconds_from_unix(0)), 0);
    let early = -125_281_036_800;
    assert_eq!(unix_from_julian_seconds(julian_seconds_from_unix(early)), early);
}

#[test]
fn test_supported_range_bounds() {
    assert!(is_unix_time_supported(0));
    assert!(is_unix_time_supported(UNIX_TIME_MIN));
    assert!(is_unix_time_supported(UNIX_TIME_MAX));
    assert!(!is_unix_time_supported(UNIX_TIME_MIN - 1));
    assert!(!is_unix_time_supported(UNIX_TIME_MAX + 1));
}

#[test]
fn test_default_step_size_bands() {
    // 4 hours below 60 degrees, 1 hour below 64, 10 minutes above.
    assert_eq!(default_step_size(true, true), 14400);
    assert_eq!(default_step_size(false, true), 3600);
    assert_eq!(default_step_size(false, false), 600);
}

fn day_oracle(rise: i64, set: i64) -> impl Fn(i64) -> Result<bool, SpaError> + Copy {
    move |t: i64| Ok(rise <= t && t < set)
}

#[test]
fn test_search_converges_to_crossing() {
    // A synthetic day from 100000 up to (but not including) 150000: the
    // search converges to within one second of each regime change.
    let oracle = day_oracle(100_000, 150_000);
    let backward = search_for_change_in_visibility(oracle, 120_000, -14400, true).unwrap();
    assert!(99_999 <= backward && backward <= 100_000);
    let forward = search_for_change_in_visibility(oracle, 120_000, 14400, true).unwrap();
    assert!(149_999 <= forward && forward <= 150_000);
}

#[test]
fn test_calculate_with_brackets_query() {
    let oracle = day_oracle(100_000, 150_000);
    let res = calculate_with(oracle, 120_000, 14400).unwrap();
    assert!(res.visible);
    assert!(res.rise <= 120_000 && 120_000 <= res.set);
    assert!(99_999 <= res.rise && res.rise <= 100_000);
    assert!(149_999 <= res.set && res.set <= 150_000);

    // Querying at night swaps the roles of the two searches: the nearest
    // set lies in the past, the nearest rise in the future.
    let two_days =
        |t: i64| -> Result<bool, SpaError> { Ok((100_000 <= t && t < 150_000) || (186_400 <= t && t < 236_400)) };
    let res = calculate_with(two_days, 160_000, 14400).unwrap();
    assert!(!res.visible);
    assert!(res.set <= 160_000 && 160_000 <= res.rise);
    assert!(149_999 <= res.set && res.set <= 150_000);
    assert!(186_399 <= res.rise && res.rise <= 186_400);
}

#[test]
fn test_zero_step_is_a_no_op() {
    // A step size of zero must not loop: both crossings degenerate to the
    // query time itself.
    let oracle = day_oracle(100_000, 150_000);
    let res = calculate_with(oracle, 120_000, 0).unwrap();
    assert_eq!(res.rise, 120_000);
    assert_eq!(res.set, 120_000);
    assert!(res.visible);
}

#[test]
fn test_search_without_crossing_terminates() {
    // An oracle whose answer never changes - permanent polar day - walks
    // out of the supported date range and fails gracefully instead of
    // looping forever.
    let oracle = |_t: i64| -> Result<bool, SpaError> { Ok(true) };
    let r = search_for_change_in_visibility(oracle, 0, 14400, true);
    assert_eq!(r, Err(SpaError::UnsupportedDate));
    let r = search_for_change_in_visibility(oracle, 0, -14400, true);
    assert_eq!(r, Err(SpaError::UnsupportedDate));
}

#[test]
fn test_unsupported_query_time() {
    let oracle = day_oracle(100_000, 150_000);
    let r = calculate_with(oracle, UNIX_TIME_MAX + 1, 14400);
    assert_eq!(r, Err(SpaError::UnsupportedDate));
}

#[test]
fn test_oracle_error_propagates() {
    // The first validation failure reported by the oracle aborts the whole
    // calculation with that error.
    let oracle = |_t: i64| -> Result<bool, SpaError> { Err(SpaError::InvalidLatitude) };
    let r = calculate_with(oracle, 120_000, 14400);
    assert_eq!(r, Err(SpaError::InvalidLatitude));
}

#[test]
fn test_same_day_same_pair() {
    // Two queries inside the same synthetic day agree on the rise and set
    // to within one second.
    let oracle = day_oracle(100_000, 150_000);
    let a = calculate_with(oracle, 110_000, 14400).unwrap();
    let b = calculate_with(oracle, 140_000, 14400).unwrap();
    assert!((a.rise - b.rise).abs() <= 1);
    assert!((a.set - b.set).abs() <= 1);
    assert!(a.rise < a.set);
}

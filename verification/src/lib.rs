//! Sunrise and sunset times from latitude, longitude and a Unix timestamp.
//!
//! The crate is organised in two layers. The lower layer models time: Unix
//! timestamps and their exact relation to the continuous Julian Day count
//! ([`julian`]). The upper layer holds the decision logic of the calculator:
//! input validation ([`spa`]), the horizon-crossing search that brackets the
//! query time between the nearest sunrise and sunset ([`search`]), and the
//! status codes used across a foreign-function boundary ([`status`]).
//!
//! The floating-point solar position pipeline itself is supplied by the
//! caller as a visibility oracle: a function from a Unix timestamp to
//! "is the sun up". Everything the library decides from the oracle's
//! answers is specified and verified here.

use vstd::prelude::*;

pub mod julian;
pub mod search;
pub mod spa;
pub mod status;

use crate::julian::is_unix_time_supported;
use crate::julian::unix_time_supported;
use crate::julian::UNIX_TIME_MAX;
use crate::julian::UNIX_TIME_MIN;
use crate::search::agrees_with;
use crate::search::closing_from_above;
use crate::search::closing_from_below;
use crate::search::lemma_bisection;
use crate::search::search_for_change_in_visibility;
use crate::search::search_model;
use crate::search::single_crossing_on;
use crate::search::MAX_STEP_MAGNITUDE;
use crate::spa::SpaError;
use vstd::math::max;
use vstd::math::min;

verus! {

/// Output values from the calculator.
#[derive(Debug, Copy, Clone, Eq, PartialEq, Structural)]
pub struct SunriseSunsetResult {
    /// Unix timestamp of the closest sunset
    pub set: i64,
    /// Unix timestamp of the closest sunrise
    pub rise: i64,
    /// If the sun is currently visible
    pub visible: bool,
}

/// The default step size for a latitude band, in seconds: 4 hours below 60
/// degrees of absolute latitude, 1 hour below 64 degrees, 10 minutes above.
/// Polar regions need the finer stepping because day or night can become
/// shorter than a coarse step, and a crossing inside one step is skipped.
pub open spec fn step_size_policy(latitude_below_60: bool, latitude_below_64: bool) -> u32 {
    if latitude_below_60 {
        14400u32
    } else if latitude_below_64 {
        3600u32
    } else {
        600u32
    }
}

/// Default step size in seconds for a location whose absolute latitude
/// compares to 60 and to 64 degrees as the two flags say.
pub fn default_step_size(latitude_below_60: bool, latitude_below_64: bool) -> (r: u32)
    requires
        latitude_below_60 ==> latitude_below_64,
    ensures
        r == step_size_policy(latitude_below_60, latitude_below_64),
{
    if latitude_below_60 {
        14400
    } else if latitude_below_64 {
        3600
    } else {
        600
    }
}

/// The meaning of a whole calculation for the visibility history `vis`:
/// either the triple (sunset, sunrise, visible at the query time), or the
/// error of the first search step that failed. The backward search finds the
/// nearest crossing in the past, the forward search the nearest in the
/// future; which is the sunrise depends on whether the sun is up at the
/// query time.
pub open spec fn calculate_model(vis: spec_fn(int) -> bool, time: int, step_size: int) -> Result<
    (int, int, bool),
    SpaError,
> {
    if !unix_time_supported(time) {
        Err(SpaError::UnsupportedDate)
    } else {
        let visible = vis(time);
        match search_model(vis, time, -step_size, visible) {
            Err(e) => Err(e),
            Ok(backward) => match search_model(vis, time, step_size, visible) {
                Err(e) => Err(e),
                Ok(forward) => Ok(
                    (
                        if visible {
                            forward
                        } else {
                            backward
                        },
                        if visible {
                            backward
                        } else {
                            forward
                        },
                        visible,
                    ),
                ),
            },
        }
    }
}

/// The computed result agrees with a model answer: same error, or same
/// sunset, sunrise and visibility.
pub open spec fn result_matches_model(
    r: Result<SunriseSunsetResult, SpaError>,
    m: Result<(int, int, bool), SpaError>,
) -> bool {
    match (r, m) {
        (Ok(res), Ok(t)) => res.set == t.0 && res.rise == t.1 && res.visible == t.2,
        (Err(e), Err(d)) => e == d,
        _ => false,
    }
}

/// Calculates the sunset and sunrise timestamps nearest to `time`, asking
/// the visibility oracle `sun_up` whether the sun is up at each probed
/// timestamp. Whenever the oracle's contract ties its answers to a
/// visibility history, the outcome - result or error - is exactly the
/// model's.
pub fn calculate_with<F: Fn(i64) -> Result<bool, SpaError> + Copy>(
    sun_up: F,
    time: i64,
    step_size: u32,
) -> (r: Result<SunriseSunsetResult, SpaError>)
    requires
        forall|p: i64| unix_time_supported(p as int) ==> call_requires(sun_up, (p,)),
    ensures
        forall|vis: spec_fn(int) -> bool|
            #[trigger] agrees_with(sun_up, vis) ==> result_matches_model(
                r,
                calculate_model(vis, time as int, step_size as int),
            ),
        r matches Ok(res) ==> call_ensures(sun_up, (time,), Ok(res.visible)),
        r matches Ok(res) ==> unix_time_supported(time as int),
{
    if !is_unix_time_supported(time) {
        return Err(SpaError::UnsupportedDate);
    }
    let visible = match sun_up(time) {
        Ok(b) => b,
        Err(e) => {
            return Err(e);
        },
    };
    let step_signed: i64 = step_size as i64;
    let backward = match search_for_change_in_visibility(sun_up, time, -step_signed, visible) {
        Ok(p) => p,
        Err(e) => {
            return Err(e);
        },
    };
    let forward = match search_for_change_in_visibility(sun_up, time, step_signed, visible) {
        Ok(p) => p,
        Err(e) => {
            return Err(e);
        },
    };
    Ok(
        SunriseSunsetResult {
            set: if visible {
                forward
            } else {
                backward
            },
            rise: if visible {
                backward
            } else {
                forward
            },
            visible,
        },
    )
}

/// A step size of zero makes the calculation a no-op rather than an
/// endless loop: both searches converge immediately, and the query time is
/// returned as its own sunrise and sunset.
pub proof fn lemma_zero_step_no_op(vis: spec_fn(int) -> bool, time: int)
    requires
        unix_time_supported(time),
    ensures
        calculate_model(vis, time, 0) == Ok::<(int, int, bool), SpaError>(
            (time, time, vis(time)),
        ),
{
}

/// The query time lies between the two returned crossings - sunrise at or
/// before the query and sunset at or after it, or the other way round - and
/// the sun is reported visible exactly when the query time lies strictly
/// after the returned sunrise.
///
/// This holds of every visibility history with exactly one regime change on
/// each side of the query time within the searched windows (the nearer past
/// change lying strictly before the query time), both windows inside the
/// supported date range. Each returned crossing is within one second of its
/// regime change.
pub proof fn lemma_query_bracketed(
    vis: spec_fn(int) -> bool,
    time: int,
    step_size: int,
    c_past: int,
    c_future: int,
)
    requires
        1 <= step_size <= MAX_STEP_MAGNITUDE,
        unix_time_supported(time),
        c_past < time < c_future,
        UNIX_TIME_MIN <= c_past - step_size - 1,
        c_future + step_size <= UNIX_TIME_MAX,
        single_crossing_on(
            vis,
            c_past - step_size - 1,
            max(time, c_past + step_size),
            c_past,
            vis(time),
        ),
        single_crossing_on(
            vis,
            min(time, c_future - step_size - 1),
            c_future + step_size,
            c_future,
            !vis(time),
        ),
    ensures
        calculate_model(vis, time, step_size) matches Ok(t) && {
            &&& t.2 == vis(time)
            &&& (t.1 <= time <= t.0 || t.0 <= time <= t.1)
            &&& t.2 == (time > t.1)
            &&& (if t.2 {
                c_past - 1 <= t.1 <= c_past && c_future - 1 <= t.0 <= c_future
            } else {
                c_past - 1 <= t.0 <= c_past && c_future - 1 <= t.1 <= c_future
            })
        },
{
    let visible = vis(time);
    assert(closing_from_above(
        time,
        -step_size,
        visible,
        c_past - step_size - 1,
        max(time, c_past + step_size),
        c_past,
        visible,
    ));
    lemma_bisection(
        vis,
        time,
        -step_size,
        visible,
        c_past - step_size - 1,
        max(time, c_past + step_size),
        c_past,
        visible,
    );
    assert(closing_from_below(
        time,
        step_size,
        visible,
        min(time, c_future - step_size - 1),
        c_future + step_size,
        c_future,
        !visible,
    ));
    lemma_bisection(
        vis,
        time,
        step_size,
        visible,
        min(time, c_future - step_size - 1),
        c_future + step_size,
        c_future,
        !visible,
    );
}

/// Running the whole calculation from any two query times that lie strictly
/// inside the same day - between the same sunrise regime change `c_rise`
/// and sunset regime change `c_set` - reports the sun visible both times
/// and returns the same sunrise and the same sunset to within one second.
///
/// This holds of every visibility history in which the sun is up exactly on
/// [`c_rise`, `c_set`) throughout the searched window, the day is longer
/// than the step size, and the window lies inside the supported date range.
pub proof fn lemma_repeated_search_stable(
    vis: spec_fn(int) -> bool,
    t1: int,
    t2: int,
    step_size: int,
    c_rise: int,
    c_set: int,
)
    requires
        1 <= step_size <= MAX_STEP_MAGNITUDE,
        c_rise < t1 < c_set,
        c_rise < t2 < c_set,
        c_rise + step_size + 1 <= c_set,
        UNIX_TIME_MIN <= c_rise - step_size - 1,
        c_set + step_size <= UNIX_TIME_MAX,
        forall|p: int|
            c_rise - step_size - 1 <= p <= c_set + step_size ==> #[trigger] vis(p) == (c_rise <= p
                < c_set),
    ensures
        calculate_model(vis, t1, step_size) matches Ok(a) && calculate_model(
            vis,
            t2,
            step_size,
        ) matches Ok(b) && {
            &&& a.2 && b.2
            &&& c_rise - 1 <= a.1 <= c_rise && c_rise - 1 <= b.1 <= c_rise
            &&& c_set - 1 <= a.0 <= c_set && c_set - 1 <= b.0 <= c_set
            &&& a.1 < a.0 && b.1 < b.0
            &&& -1 <= a.1 - b.1 <= 1
            &&& -1 <= a.0 - b.0 <= 1
        },
{
    lemma_day_run(vis, t1, step_size, c_rise, c_set);
    lemma_day_run(vis, t2, step_size, c_rise, c_set);
}

/// One run of [`lemma_repeated_search_stable`]'s scenario: from a query
/// time strictly inside the day, the calculation reports the sun visible
/// and returns crossings within one second of the day's regime changes.
proof fn lemma_day_run(vis: spec_fn(int) -> bool, t: int, step_size: int, c_rise: int, c_set: int)
    requires
        1 <= step_size <= MAX_STEP_MAGNITUDE,
        c_rise < t < c_set,
        c_rise + step_size + 1 <= c_set,
        UNIX_TIME_MIN <= c_rise - step_size - 1,
        c_set + step_size <= UNIX_TIME_MAX,
        forall|p: int|
            c_rise - step_size - 1 <= p <= c_set + step_size ==> #[trigger] vis(p) == (c_rise <= p
                < c_set),
    ensures
        calculate_model(vis, t, step_size) matches Ok(a) && {
            &&& a.2
            &&& c_rise - 1 <= a.1 <= c_rise
            &&& c_set - 1 <= a.0 <= c_set
            &&& a.1 < a.0
        },
{
    assert(vis(t));
    assert forall|p: int|
        c_rise - step_size - 1 <= p <= max(t, c_rise + step_size) implies #[trigger] vis(p) == (if p
        >= c_rise {
        vis(t)
    } else {
        !vis(t)
    }) by {
        assert(vis(p) == (c_rise <= p < c_set));
    }
    assert forall|p: int|
        min(t, c_set - step_size - 1) <= p <= c_set + step_size implies #[trigger] vis(p) == (if p
        >= c_set {
        !vis(t)
    } else {
        vis(t)
    }) by {
        assert(vis(p) == (c_rise <= p < c_set));
    }
    lemma_query_bracketed(vis, t, step_size, c_rise, c_set);
}

} // verus!

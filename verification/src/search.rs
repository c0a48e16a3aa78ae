//! The horizon-crossing search.
//!
//! The calculator locates sunrise and sunset by walking a Unix timestamp
//! away from the query time in fixed steps and asking a visibility oracle
//! (the solar position pipeline) whether the sun is up at each position.
//! When the answer changes, the step overshot the crossing: the step is
//! negated and halved and the walk reverses, converging on the instant the
//! visibility flips. The walk stops when halving has reduced the step to
//! zero, or with an error when it leaves the supported date range.
//!
//! The search is run twice from the same query time, once with a negative
//! and once with a positive initial step; the two converged positions are
//! the nearest crossings in the past and in the future, and are assigned to
//! sunrise and sunset according to the visibility at the query time.
//!
//! The oracle is an ordinary function value. [`search_model`] gives the
//! mathematical meaning of the walk for an arbitrary visibility history, and
//! the executable search is proved to return exactly the model's answer
//! whenever the oracle's contract ties it to such a history.

use vstd::prelude::*;

use crate::julian::{unix_time_supported, UNIX_TIME_MAX, UNIX_TIME_MIN};
use crate::julian::is_unix_time_supported;
use crate::spa::SpaError;
use crate::SunriseSunsetResult;

verus! {

/// Largest magnitude the caller may give the initial step: the step size of
/// the calculator's parameters is a 32-bit count of seconds.
pub const MAX_STEP_MAGNITUDE: i64 = 4_294_967_295;

/// Magnitude of a signed step.
pub open spec fn step_magnitude(step: int) -> int {
    if step < 0 {
        -step
    } else {
        step
    }
}

/// The step after an overshoot: negated and halved, rounding the magnitude
/// down.
pub open spec fn next_step(step: int) -> int {
    if step < 0 {
        (-step) / 2
    } else {
        -(step / 2)
    }
}

/// How many seconds the walk can still move in the direction of `step`
/// before it leaves the supported date range; it bounds the number of
/// advances left and so serves as a termination measure.
pub open spec fn window_distance(pos: int, step: int) -> int {
    if step > 0 {
        if pos <= UNIX_TIME_MAX {
            UNIX_TIME_MAX + 1 - pos
        } else {
            0
        }
    } else {
        if pos >= UNIX_TIME_MIN {
            pos + 1 - UNIX_TIME_MIN
        } else {
            0
        }
    }
}

/// The meaning of the search for a visibility history `vis`: from `pos`,
/// with the current signed `step` and the visibility regime `visible` being
/// tracked, the converged crossing position, or the error raised when the
/// walk leaves the supported date range.
pub open spec fn search_model(
    vis: spec_fn(int) -> bool,
    pos: int,
    step: int,
    visible: bool,
) -> Result<int, SpaError>
    decreases step_magnitude(step), window_distance(pos, step),
{
    if step == 0 {
        Ok(pos)
    } else if !unix_time_supported(pos) {
        Err(SpaError::UnsupportedDate)
    } else if vis(pos) != visible {
        search_model(vis, pos, next_step(step), !visible)
    } else {
        search_model(vis, pos + step, step, visible)
    }
}

/// The oracle `f`'s contract ties every answer to the visibility history
/// `vis`: whenever `f` may return a value at all, that value is `Ok` and
/// agrees with `vis`.
pub open spec fn agrees_with<F: Fn(i64) -> Result<bool, SpaError>>(
    f: F,
    vis: spec_fn(int) -> bool,
) -> bool {
    forall|p: i64, r: Result<bool, SpaError>|
        #[trigger] call_ensures(f, (p,), r) ==> r == Ok::<bool, SpaError>(vis(p as int))
}

/// Walks from `start` in steps of `step_size` seconds, negating and halving
/// the step each time the oracle's answer differs from the visibility regime
/// being tracked, until the step reaches zero; returns the converged
/// position. The walk fails with `UnsupportedDate` when it leaves the
/// supported date range, and propagates the oracle's own error if one is
/// returned.
pub fn search_for_change_in_visibility<F: Fn(i64) -> Result<bool, SpaError>>(
    sun_up: F,
    start: i64,
    step_size: i64,
    currently_visible: bool,
) -> (r: Result<i64, SpaError>)
    requires
        -MAX_STEP_MAGNITUDE <= step_size <= MAX_STEP_MAGNITUDE,
        forall|p: i64| unix_time_supported(p as int) ==> call_requires(sun_up, (p,)),
    ensures
        forall|vis: spec_fn(int) -> bool|
            #[trigger] agrees_with(sun_up, vis) ==> match (r, search_model(
                vis,
                start as int,
                step_size as int,
                currently_visible,
            )) {
                (Ok(p), Ok(q)) => p == q,
                (Err(e), Err(d)) => e == d,
                _ => false,
            },
        r matches Ok(p) ==> (step_size == 0 && p == start) || unix_time_supported(p as int),
        r matches Err(e) ==> e == SpaError::UnsupportedDate || (exists|p: i64|
            unix_time_supported(p as int) && #[trigger] call_ensures(sun_up, (p,), Err(e))),
{
    let mut position: i64 = start;
    let mut step: i64 = step_size;
    let mut visible: bool = currently_visible;
    while step != 0
        invariant
            -MAX_STEP_MAGNITUDE <= step <= MAX_STEP_MAGNITUDE,
            step == 0 ==> ((step_size == 0 && position == start) || unix_time_supported(
                position as int,
            )),
            UNIX_TIME_MIN - MAX_STEP_MAGNITUDE <= position <= UNIX_TIME_MAX + MAX_STEP_MAGNITUDE
                || position == start,
            forall|p: i64| unix_time_supported(p as int) ==> call_requires(sun_up, (p,)),
            forall|vis: spec_fn(int) -> bool|
                #[trigger] agrees_with(sun_up, vis) ==> search_model(
                    vis,
                    position as int,
                    step as int,
                    visible,
                ) == search_model(vis, start as int, step_size as int, currently_visible),
        decreases step_magnitude(step as int), window_distance(position as int, step as int),
    {
        if !is_unix_time_supported(position) {
            proof {
                assert forall|vis: spec_fn(int) -> bool| #[trigger]
                    agrees_with(sun_up, vis) implies search_model(
                    vis,
                    start as int,
                    step_size as int,
                    currently_visible,
                ) == Err::<int, SpaError>(SpaError::UnsupportedDate) by {
                    assert(search_model(vis, position as int, step as int, visible) == Err::<
                        int,
                        SpaError,
                    >(SpaError::UnsupportedDate));
                }
            }
            return Err(SpaError::UnsupportedDate);
        }
        let up = match sun_up(position) {
            Ok(b) => b,
            Err(e) => {
                return Err(e);
            },
        };
        if up != visible {
            proof {
                assert forall|vis: spec_fn(int) -> bool| #[trigger]
                    agrees_with(sun_up, vis) implies search_model(
                    vis,
                    position as int,
                    next_step(step as int),
                    !visible,
                ) == search_model(vis, start as int, step_size as int, currently_visible) by {
                    assert(vis(position as int) == up);
                }
            }
            let magnitude: i64 = if step < 0 {
                -step
            } else {
                step
            };
            let half: i64 = magnitude / 2;
            let flipped: i64 = if step < 0 {
                half
            } else {
                -half
            };
            proof {
                assert(flipped as int == next_step(step as int));
            }
            step = flipped;
            visible = !visible;
        } else {
            proof {
                assert forall|vis: spec_fn(int) -> bool| #[trigger]
                    agrees_with(sun_up, vis) implies search_model(
                    vis,
                    position as int + step as int,
                    step as int,
                    visible,
                ) == search_model(vis, start as int, step_size as int, currently_visible) by {
                    assert(vis(position as int) == up);
                }
            }
            position = position + step;
        }
    }
    Ok(position)
}

/// When the sun's visibility never changes anywhere in the supported date
/// range - permanent polar day or polar night - a search that starts in
/// that regime cannot converge; it walks out of the supported range and
/// fails with the date-range error rather than running forever.
pub proof fn lemma_search_without_crossing_fails(
    vis: spec_fn(int) -> bool,
    pos: int,
    step: int,
    flag: bool,
)
    requires
        step != 0,
        forall|p: int| unix_time_supported(p) ==> #[trigger] vis(p) == flag,
    ensures
        search_model(vis, pos, step, flag) == Err::<int, SpaError>(SpaError::UnsupportedDate),
    decreases window_distance(pos, step),
{
    if unix_time_supported(pos) {
        lemma_search_without_crossing_fails(vis, pos + step, step, flag);
    }
}

/// The visibility history `vis` changes regime exactly once on the window
/// [`w_lo`, `w_hi`]: below `c` the sun is in the opposite regime of `above`,
/// from `c` on it is in regime `above`.
pub open spec fn single_crossing_on(
    vis: spec_fn(int) -> bool,
    w_lo: int,
    w_hi: int,
    c: int,
    above: bool,
) -> bool {
    forall|p: int|
        w_lo <= p <= w_hi ==> #[trigger] vis(p) == (if p >= c {
            above
        } else {
            !above
        })
}

/// The walk approaches the crossing `c` from the `above` side, moving down:
/// its position is within one step above the window floor's margin of `c`,
/// and the window keeps a step of room on both sides of `c`.
pub open spec fn closing_from_above(
    pos: int,
    step: int,
    flag: bool,
    w_lo: int,
    w_hi: int,
    c: int,
    above: bool,
) -> bool {
    &&& step <= -1
    &&& flag == above
    &&& c + step <= pos <= w_hi
    &&& w_lo <= c + step - 1
    &&& c - step <= w_hi
}

/// The walk approaches the crossing `c` from below, moving up: its position
/// is less than one step above `c`, and the window keeps a step of room on
/// both sides of `c`.
pub open spec fn closing_from_below(
    pos: int,
    step: int,
    flag: bool,
    w_lo: int,
    w_hi: int,
    c: int,
    above: bool,
) -> bool {
    &&& step >= 1
    &&& flag == !above
    &&& w_lo <= pos <= c - 1 + step
    &&& w_lo <= c - step - 1
    &&& c + step <= w_hi
}

/// Convergence of the halving search: on a window with a single regime
/// change at `c`, a walk that is closing in on `c` from either side
/// converges, and its converged position is `c - 1` or `c` - within one
/// second of the crossing.
pub proof fn lemma_bisection(
    vis: spec_fn(int) -> bool,
    pos: int,
    step: int,
    flag: bool,
    w_lo: int,
    w_hi: int,
    c: int,
    above: bool,
)
    requires
        single_crossing_on(vis, w_lo, w_hi, c, above),
        UNIX_TIME_MIN <= w_lo,
        w_hi <= UNIX_TIME_MAX,
        closing_from_above(pos, step, flag, w_lo, w_hi, c, above) || closing_from_below(
            pos,
            step,
            flag,
            w_lo,
            w_hi,
            c,
            above,
        ),
    ensures
        search_model(vis, pos, step, flag) matches Ok(r) && c - 1 <= r <= c,
    decreases step_magnitude(step), window_distance(pos, step),
{
    assert(unix_time_supported(pos));
    assert(vis(pos) == (if pos >= c {
        above
    } else {
        !above
    }));
    if closing_from_above(pos, step, flag, w_lo, w_hi, c, above) {
        if vis(pos) == flag {
            assert(pos >= c);
            lemma_bisection(vis, pos + step, step, flag, w_lo, w_hi, c, above);
        } else {
            assert(c + step <= pos <= c - 1);
            let halved = next_step(step);
            assert(0 <= halved && 2 * halved <= -step && -step <= 2 * halved + 1);
            if halved == 0 {
                assert(pos == c - 1);
                assert(search_model(vis, pos, halved, !flag) == Ok::<int, SpaError>(pos));
            } else {
                assert(closing_from_below(pos, halved, !flag, w_lo, w_hi, c, above));
                lemma_bisection(vis, pos, halved, !flag, w_lo, w_hi, c, above);
            }
        }
    } else {
        if vis(pos) == flag {
            assert(pos <= c - 1);
            lemma_bisection(vis, pos + step, step, flag, w_lo, w_hi, c, above);
        } else {
            assert(c <= pos <= c + step - 1);
            let halved = next_step(step);
            assert(halved <= 0 && 2 * (-halved) <= step && step <= 2 * (-halved) + 1);
            if halved == 0 {
                assert(pos == c);
                assert(search_model(vis, pos, halved, !flag) == Ok::<int, SpaError>(pos));
            } else {
                assert(closing_from_above(pos, halved, !flag, w_lo, w_hi, c, above));
                lemma_bisection(vis, pos, halved, !flag, w_lo, w_hi, c, above);
            }
        }
    }
}

} // verus!

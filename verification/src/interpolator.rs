//! The interpolator: an immutable value that, given the current time, yields
//! the eased position between its two endpoints.

use vstd::prelude::*;

verus! {

use crate::easing::ANIMATION_DURATION_MS;
use crate::easing::axis_position;
use crate::easing::cube;
use crate::easing::ease_out_cubic;
use crate::easing::eased_numerator;
use crate::easing::lemma_cube_positive;
use crate::easing::lemma_eased_numerator_bounds;
use crate::easing::lemma_eased_numerator_monotone;
use crate::easing::lemma_lerp_at_full;
use crate::easing::lemma_lerp_at_zero;
use crate::easing::lemma_scaled_fraction_bounds;
use crate::easing::lemma_scaled_fraction_monotone;
use crate::easing::lerp_axis;

/// A two-dimensional position in whole screen units.
#[derive(Clone, Copy, Debug, PartialEq, Eq, Structural)]
pub struct Point {
    pub x: i64,
    pub y: i64,
}

impl Point {
    pub fn new(x: i64, y: i64) -> (r: Self)
        ensures
            r.x == x,
            r.y == y,
    {
        Point { x, y }
    }
}

/// A single animation: start and end points, the time it began, and how long
/// it runs. Immutable after construction; re-animating builds a new value.
#[derive(Clone, Copy, Debug)]
pub struct AnimatedCursorPosition {
    pub start_point: Point,
    pub end_point: Point,
    /// Millisecond timestamp captured when the animation began.
    pub start_time: u64,
    /// Fixed length of the animation in milliseconds.
    pub duration: u64,
}

impl AnimatedCursorPosition {
    /// Every animation runs for the one fixed duration.
    pub open spec fn wf(self) -> bool {
        self.duration == ANIMATION_DURATION_MS
    }

    /// Milliseconds since the animation began; a clock reading from before the
    /// start counts as no time elapsed.
    pub open spec fn spec_elapsed(self, now: u64) -> int {
        if now >= self.start_time {
            now - self.start_time
        } else {
            0
        }
    }

    pub open spec fn spec_complete(self, now: u64) -> bool {
        self.spec_elapsed(now) >= self.duration
    }

    /// Horizontal position at time `now`: the end point exactly once the
    /// duration has elapsed, the eased interpolation before that.
    pub open spec fn spec_position_x(self, now: u64) -> int {
        if self.spec_complete(now) {
            self.end_point.x as int
        } else {
            axis_position(
                self.start_point.x as int,
                self.end_point.x as int,
                self.spec_elapsed(now),
                self.duration as int,
            )
        }
    }

    /// Vertical position at time `now`, on the same curve as the horizontal.
    pub open spec fn spec_position_y(self, now: u64) -> int {
        if self.spec_complete(now) {
            self.end_point.y as int
        } else {
            axis_position(
                self.start_point.y as int,
                self.end_point.y as int,
                self.spec_elapsed(now),
                self.duration as int,
            )
        }
    }

    /// Captures the given clock reading as the animation's start and the fixed
    /// duration shared by all animations.
    pub fn new(start: Point, end: Point, now: u64) -> (r: Self)
        ensures
            r.start_point == start,
            r.end_point == end,
            r.start_time == now,
            r.duration == ANIMATION_DURATION_MS,
            r.wf(),
    {
        AnimatedCursorPosition {
            start_point: start,
            end_point: end,
            start_time: now,
            duration: ANIMATION_DURATION_MS,
        }
    }

    /// The eased position at time `now`: exactly `end_point` once complete,
    /// otherwise each axis interpolated independently by the ease-out-cubic
    /// fraction of the elapsed time.
    pub fn current_position(&self, now: u64) -> (r: Point)
        requires
            self.wf(),
        ensures
            r.x as int == self.spec_position_x(now),
            r.y as int == self.spec_position_y(now),
    {
        let elapsed: u64 = if now >= self.start_time {
            now - self.start_time
        } else {
            0
        };
        if elapsed >= self.duration {
            return self.end_point;
        }
        let num: u64 = ease_out_cubic(elapsed, self.duration);
        let den: u64 = ANIMATION_DURATION_MS * ANIMATION_DURATION_MS * ANIMATION_DURATION_MS;
        let x: i64 = lerp_axis(self.start_point.x, self.end_point.x, num, den);
        let y: i64 = lerp_axis(self.start_point.y, self.end_point.y, num, den);
        Point { x, y }
    }

    pub fn is_complete(&self, now: u64) -> (r: bool)
        ensures
            r == self.spec_complete(now),
    {
        let elapsed: u64 = if now >= self.start_time {
            now - self.start_time
        } else {
            0
        };
        elapsed >= self.duration
    }
}

/// At the instant an animation is constructed its position is exactly the
/// start point.
pub proof fn lemma_position_at_start(a: AnimatedCursorPosition)
    requires
        a.wf(),
    ensures
        a.spec_position_x(a.start_time) == a.start_point.x as int,
        a.spec_position_y(a.start_time) == a.start_point.y as int,
{
    lemma_cube_positive(a.duration as int);
    assert(eased_numerator(0, a.duration as int) == 0);
    lemma_lerp_at_zero(a.start_point.x as int, a.end_point.x as int, cube(a.duration as int));
    lemma_lerp_at_zero(a.start_point.y as int, a.end_point.y as int, cube(a.duration as int));
}

/// Once the full duration has elapsed the position is exactly the end point,
/// with no residue.
pub proof fn lemma_position_settles(a: AnimatedCursorPosition, now: u64)
    requires
        a.spec_complete(now),
    ensures
        a.spec_position_x(now) == a.end_point.x as int,
        a.spec_position_y(now) == a.end_point.y as int,
{
}

/// The easing formula itself lands exactly on the end value at the full
/// duration, so the settled position is the curve's own endpoint rather than
/// an override of it.
pub proof fn lemma_easing_reaches_end(s: int, e: int, duration: int)
    requires
        0 < duration,
    ensures
        axis_position(s, e, duration, duration) == e,
{
    lemma_cube_positive(duration);
    assert(eased_numerator(duration, duration) == cube(duration));
    lemma_lerp_at_full(s, e, cube(duration));
}

/// Each axis moves monotonically from its start value toward its end value and
/// never overshoots: at any two instants the earlier position lies between the
/// start and the later position, and the later position lies between the
/// earlier one and the end.
pub proof fn lemma_axis_monotone(s: int, e: int, t1: int, t2: int, duration: int)
    requires
        0 < duration,
        0 <= t1 <= t2 <= duration,
    ensures
        s <= e ==> s <= axis_position(s, e, t1, duration) <= axis_position(s, e, t2, duration)
            <= e,
        e <= s ==> e <= axis_position(s, e, t2, duration) <= axis_position(s, e, t1, duration)
            <= s,
{
    let den = cube(duration);
    let n1 = eased_numerator(t1, duration);
    let n2 = eased_numerator(t2, duration);
    lemma_cube_positive(duration);
    lemma_eased_numerator_bounds(t1, duration);
    lemma_eased_numerator_bounds(t2, duration);
    lemma_eased_numerator_monotone(t1, t2, duration);
    if e >= s {
        lemma_scaled_fraction_bounds(e - s, n1, den);
        lemma_scaled_fraction_bounds(e - s, n2, den);
        lemma_scaled_fraction_monotone(e - s, n1, n2, den);
    } else {
        lemma_scaled_fraction_bounds(s - e, n1, den);
        lemma_scaled_fraction_bounds(s - e, n2, den);
        lemma_scaled_fraction_monotone(s - e, n1, n2, den);
    }
}

/// Monotone approach for whole animations: between any two clock readings the
/// position advances toward the end point on both axes and never overshoots.
pub proof fn lemma_monotone_approach(a: AnimatedCursorPosition, now1: u64, now2: u64)
    requires
        a.wf(),
        now1 <= now2,
    ensures
        a.start_point.x <= a.end_point.x ==> a.start_point.x as int <= a.spec_position_x(now1)
            <= a.spec_position_x(now2) <= a.end_point.x as int,
        a.end_point.x <= a.start_point.x ==> a.end_point.x as int <= a.spec_position_x(now2)
            <= a.spec_position_x(now1) <= a.start_point.x as int,
        a.start_point.y <= a.end_point.y ==> a.start_point.y as int <= a.spec_position_y(now1)
            <= a.spec_position_y(now2) <= a.end_point.y as int,
        a.end_point.y <= a.start_point.y ==> a.end_point.y as int <= a.spec_position_y(now2)
            <= a.spec_position_y(now1) <= a.start_point.y as int,
{
    let dur = a.duration as int;
    let t1 = if a.spec_elapsed(now1) >= dur {
        dur
    } else {
        a.spec_elapsed(now1)
    };
    let t2 = if a.spec_elapsed(now2) >= dur {
        dur
    } else {
        a.spec_elapsed(now2)
    };
    lemma_easing_reaches_end(a.start_point.x as int, a.end_point.x as int, dur);
    lemma_easing_reaches_end(a.start_point.y as int, a.end_point.y as int, dur);
    assert(a.spec_position_x(now1) == axis_position(
        a.start_point.x as int,
        a.end_point.x as int,
        t1,
        dur,
    ));
    assert(a.spec_position_x(now2) == axis_position(
        a.start_point.x as int,
        a.end_point.x as int,
        t2,
        dur,
    ));
    assert(a.spec_position_y(now1) == axis_position(
        a.start_point.y as int,
        a.end_point.y as int,
        t1,
        dur,
    ));
    assert(a.spec_position_y(now2) == axis_position(
        a.start_point.y as int,
        a.end_point.y as int,
        t2,
        dur,
    ));
    lemma_axis_monotone(a.start_point.x as int, a.end_point.x as int, t1, t2, dur);
    lemma_axis_monotone(a.start_point.y as int, a.end_point.y as int, t1, t2, dur);
}

} // verus!

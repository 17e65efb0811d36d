//! Pure kinematics: wrapping track positions, motion vectors, and
//! constant-acceleration extrapolation.
//!
//! Positions are stored in *half-units* of length (twice the nominal value),
//! so that the `½·a·t²` term of constant-acceleration extrapolation stays
//! integral and extrapolation composes exactly.

use vstd::prelude::*;
use vstd::arithmetic::div_mod::{
    lemma_add_mod_noop, lemma_fundamental_div_mod, lemma_fundamental_div_mod_converse_mod,
    lemma_mod_bound, lemma_mod_twice, lemma_small_mod,
};

verus! {

/// Largest track length, in length units.
pub const MAX_TRACK_LENGTH: i64 = 0x100_0000_0000;

/// Largest speed magnitude, in length units per time unit.
pub const MAX_SPEED: i64 = 0x8000_0000;

/// Largest acceleration magnitude, in length units per time unit squared.
pub const MAX_ACCEL: i64 = 0x10_0000;

/// Longest time span a single extrapolation step may cover, in time units.
pub const MAX_ELAPSED: i64 = 0x10_0000;

/// Largest magnitude accepted for a raw position or position offset handed in
/// from outside, in length units.
pub const MAX_OFFSET: i64 = 0x1000_0000_0000_0000;

/// Euclidean remainder: the representative of `a` modulo `m` in `[0, m)`.
fn emod(a: i64, m: i64) -> (r: i64)
    requires
        0 < m,
        a > i64::MIN,
    ensures
        r == a as int % m as int,
        0 <= r < m,
{
    if a >= 0 {
        let r0: i64 = a % m;
        proof {
            lemma_mod_bound(a as int, m as int);
        }
        r0
    } else {
        let b: i64 = -(a + 1);
        let r1: i64 = b % m;
        proof {
            lemma_fundamental_div_mod(b as int, m as int);
            lemma_mod_bound(b as int, m as int);
            let q = b as int / m as int;
            assert(a as int == (-q - 1) * m + (m - 1 - r1)) by (nonlinear_arith)
                requires
                    b == m * q + r1,
                    a == -(b as int + 1),
            ;
            lemma_fundamental_div_mod_converse_mod(
                a as int,
                m as int,
                -q - 1,
                m - 1 - r1,
            );
        }
        m - 1 - r1
    }
}

/// A position on the closed track, wrapping modulo the track length.
///
/// The invariant [`TrackPosition::wf`] keeps `halves` canonically reduced:
/// every arithmetic operation returns a reduced position again.  Values are
/// built through the constructors; `halves` counts half length units and
/// `length_halves` is twice the track length.
#[derive(Debug, Copy, Clone, PartialEq, Eq, Structural)]
pub struct TrackPosition {
    /// Position from the track origin, in half length units.
    pub halves: i64,
    /// Twice the full track length, in half length units.
    pub length_halves: i64,
}

/// Forward distance from `a` to `b` along the track direction, in half length
/// units; wraps through the origin when `b` lies behind `a`.
pub open spec fn dist_halves(a: TrackPosition, b: TrackPosition) -> int {
    (b.halves - a.halves) % (a.length_halves as int)
}

impl TrackPosition {
    /// Canonical form: reduced position on a representable track.
    pub open spec fn wf(self) -> bool {
        &&& 0 < self.length_halves <= 2 * MAX_TRACK_LENGTH
        &&& 0 <= self.halves < self.length_halves
    }

    /// Both positions measure along the same track.
    pub open spec fn same_track(self, other: TrackPosition) -> bool {
        self.length_halves == other.length_halves
    }

    /// Position `position` on a track of length `track_length`, reduced
    /// modulo the track length.
    pub fn new(track_length: i64, position: i64) -> (r: TrackPosition)
        requires
            0 < track_length <= MAX_TRACK_LENGTH,
            -MAX_OFFSET <= position <= MAX_OFFSET,
        ensures
            r.length_halves == 2 * track_length,
            r.halves == (2 * position) % (2 * track_length as int),
            r.wf(),
    {
        let length_halves: i64 = 2 * track_length;
        let halves: i64 = emod(2 * position, length_halves);
        proof {
            lemma_mod_bound(2 * position as int, length_halves as int);
        }
        TrackPosition { halves, length_halves }
    }

    /// The same position, advanced by `delta` half length units (negative
    /// deltas move backwards); wraps modulo the track length.
    pub fn add_halves(self, delta: i64) -> (r: TrackPosition)
        requires
            self.wf(),
            -2 * MAX_OFFSET <= delta <= 2 * MAX_OFFSET,
        ensures
            r.length_halves == self.length_halves,
            r.halves == (self.halves + delta) % (self.length_halves as int),
            r.wf(),
    {
        let halves: i64 = emod(self.halves + delta, self.length_halves);
        proof {
            lemma_mod_bound(self.halves + delta, self.length_halves as int);
        }
        TrackPosition { halves, length_halves: self.length_halves }
    }

    /// The same position, advanced by `addend` length units (negative addends
    /// move backwards); wraps modulo the track length.
    pub fn add(self, addend: i64) -> (r: TrackPosition)
        requires
            self.wf(),
            -MAX_OFFSET <= addend <= MAX_OFFSET,
        ensures
            r.length_halves == self.length_halves,
            r.halves == (self.halves + 2 * addend) % (self.length_halves as int),
            r.wf(),
    {
        self.add_halves(2 * addend)
    }

    /// Non-negative forward distance from `self` to `other` in the direction
    /// of the track, in length units, wrapping through the origin when
    /// `other` lies behind `self`.
    pub fn distance_to(self, other: TrackPosition) -> (r: i64)
        requires
            self.wf(),
            other.wf(),
            self.same_track(other),
        ensures
            r == dist_halves(self, other) / 2,
            0 <= 2 * r <= dist_halves(self, other) < self.length_halves,
    {
        let d: i64 = emod(other.halves - self.halves, self.length_halves);
        proof {
            lemma_mod_bound(other.halves - self.halves, self.length_halves as int);
        }
        d / 2
    }

    /// Full track length, in length units (half of `length_halves`).
    pub fn track_length(self) -> (r: i64)
        requires
            self.wf(),
        ensures
            r == self.length_halves as int / 2,
    {
        self.length_halves / 2
    }
}

/// A platform's kinematic state at one point in time.
///
/// Extrapolation under constant acceleration is reproducible from
/// `(position, velocity, acceleration, elapsed_time)` alone; no hidden clock
/// is involved.
#[derive(Debug, Copy, Clone, PartialEq, Eq, Structural)]
pub struct MotionVector {
    pub position: TrackPosition,
    /// Signed speed along the track direction, in length units per time unit.
    pub velocity: i64,
    /// Signed acceleration, in length units per time unit squared.
    pub acceleration: i64,
}

impl MotionVector {
    pub open spec fn wf(self) -> bool {
        &&& self.position.wf()
        &&& -MAX_SPEED <= self.velocity <= MAX_SPEED
        &&& -MAX_ACCEL <= self.acceleration <= MAX_ACCEL
    }

    /// Speed after `t` time units of constant acceleration.
    pub open spec fn vel_after(self, t: int) -> int {
        self.velocity + self.acceleration * t
    }

    /// Ground covered in `t` time units of constant acceleration, in half
    /// length units: `2·v·t + a·t²`, that is twice `v·t + ½·a·t²`.
    pub open spec fn pos_delta_halves(self, t: int) -> int {
        2 * self.velocity * t + self.acceleration * t * t
    }

    /// The state `t` time units later under constant acceleration, as a
    /// mathematical function of the state alone.
    pub open spec fn spec_update(self, t: int) -> MotionVector {
        MotionVector {
            position: TrackPosition {
                halves: ((self.position.halves + self.pos_delta_halves(t)) % (
                self.position.length_halves as int)) as i64,
                length_halves: self.position.length_halves,
            },
            velocity: self.vel_after(t) as i64,
            acceleration: self.acceleration,
        }
    }

    /// The stationary state at the track origin.
    pub fn zero(track_length: i64) -> (r: MotionVector)
        requires
            0 < track_length <= MAX_TRACK_LENGTH,
        ensures
            r.position.length_halves == 2 * track_length,
            r.position.halves == 0,
            r.velocity == 0,
            r.acceleration == 0,
            r.wf(),
    {
        let position = TrackPosition::new(track_length, 0);
        proof {
            lemma_small_mod(0, (2 * track_length) as nat);
        }
        MotionVector { position, velocity: 0, acceleration: 0 }
    }

    /// Assuming acceleration stayed constant for `time_diff` time units and
    /// `self` describes the state at the start of that span, return the state
    /// at its end.
    pub fn update(&self, time_diff: i64) -> (r: MotionVector)
        requires
            self.wf(),
            0 <= time_diff <= MAX_ELAPSED,
            -MAX_SPEED <= self.vel_after(time_diff as int) <= MAX_SPEED,
        ensures
            r == self.spec_update(time_diff as int),
            r.wf(),
    {
        proof {
            let t = time_diff as int;
            assert(-2 * MAX_SPEED * MAX_ELAPSED <= 2 * self.velocity * t <= 2 * MAX_SPEED
                * MAX_ELAPSED) by (nonlinear_arith)
                requires
                    -MAX_SPEED <= self.velocity <= MAX_SPEED,
                    0 <= t <= MAX_ELAPSED,
            ;
            assert(-MAX_ACCEL * MAX_ELAPSED * MAX_ELAPSED <= self.acceleration * t * t
                <= MAX_ACCEL * MAX_ELAPSED * MAX_ELAPSED) by (nonlinear_arith)
                requires
                    -MAX_ACCEL <= self.acceleration <= MAX_ACCEL,
                    0 <= t <= MAX_ELAPSED,
            ;
        }
        let delta: i64 = 2 * self.velocity * time_diff + self.acceleration * time_diff
            * time_diff;
        let position = self.position.add_halves(delta);
        MotionVector {
            position,
            velocity: self.velocity + self.acceleration * time_diff,
            acceleration: self.acceleration,
        }
    }
}

/// Extrapolation identity: extrapolating over an empty time span changes
/// nothing.
pub proof fn lemma_update_zero(v: MotionVector)
    requires
        v.wf(),
    ensures
        v.spec_update(0) == v,
{
    lemma_small_mod(v.position.halves as nat, v.position.length_halves as nat);
}

/// Extrapolation composition: extrapolating over `t1` and then over `t2` time
/// units is exactly extrapolating over `t1 + t2` at once.
pub proof fn lemma_update_compose(v: MotionVector, t1: int, t2: int)
    requires
        v.wf(),
        0 <= t1,
        0 <= t2,
        -MAX_SPEED <= v.vel_after(t1) <= MAX_SPEED,
    ensures
        v.spec_update(t1).spec_update(t2) == v.spec_update(t1 + t2),
{
    let mid = v.spec_update(t1);
    let l = v.position.length_halves as int;
    let h = v.position.halves as int;
    let d1 = v.pos_delta_halves(t1);
    let d2 = mid.pos_delta_halves(t2);
    assert(mid.velocity == v.vel_after(t1));
    assert(mid.acceleration == v.acceleration);
    assert(d1 + d2 == v.pos_delta_halves(t1 + t2)) by (nonlinear_arith)
        requires
            mid.velocity == v.velocity + v.acceleration * t1,
            mid.acceleration == v.acceleration,
            d1 == v.pos_delta_halves(t1),
            d2 == mid.pos_delta_halves(t2),
            v.pos_delta_halves(t1) == 2 * v.velocity * t1 + v.acceleration * t1 * t1,
            mid.pos_delta_halves(t2) == 2 * mid.velocity * t2 + mid.acceleration * t2 * t2,
            v.pos_delta_halves(t1 + t2) == 2 * v.velocity * (t1 + t2) + v.acceleration * (t1
                + t2) * (t1 + t2),
    ;
    assert(mid.vel_after(t2) == v.vel_after(t1 + t2)) by (nonlinear_arith)
        requires
            mid.velocity == v.velocity + v.acceleration * t1,
            mid.acceleration == v.acceleration,
    ;
    lemma_mod_bound(h + d1, l);
    // ((h + d1) % l + d2) % l == (h + d1 + d2) % l
    lemma_mod_twice(h + d1, l);
    lemma_add_mod_noop((h + d1) % l, d2, l);
    lemma_add_mod_noop(h + d1, d2, l);
    assert(mid.position.halves as int == (h + d1) % l);
    assert(v.spec_update(t1).spec_update(t2).position.halves as int == (h + d1 + d2) % l);
    assert(v.spec_update(t1).spec_update(t2).velocity == v.spec_update(t1 + t2).velocity);
    assert(v.spec_update(t1).spec_update(t2) == v.spec_update(t1 + t2));
}

/// Parameters that are the input to a platform's control system, derived
/// fresh each control cycle from the states of the platform and its two ring
/// neighbours.
#[derive(Debug, Copy, Clone, PartialEq, Eq, Structural)]
pub struct InputParams {
    /// Own position, where 0 is the start of the track.
    pub position: TrackPosition,
    /// Own velocity.
    pub velocity: i64,
    /// Forward distance to the platform in front.
    pub distance_at_front: i64,
    /// Forward distance from the platform behind to us.
    pub distance_at_back: i64,
    pub velocity_at_front: i64,
    pub velocity_at_back: i64,
}

/// The control input derived from the neighbours' and own kinematic state,
/// as a mathematical function.
pub open spec fn spec_input_params(
    back_platform: MotionVector,
    this_platform: MotionVector,
    front_platform: MotionVector,
) -> InputParams {
    InputParams {
        position: this_platform.position,
        velocity: this_platform.velocity,
        distance_at_front: (dist_halves(this_platform.position, front_platform.position)
            / 2) as i64,
        distance_at_back: (dist_halves(back_platform.position, this_platform.position)
            / 2) as i64,
        velocity_at_front: front_platform.velocity,
        velocity_at_back: back_platform.velocity,
    }
}

impl InputParams {
    pub open spec fn wf(self) -> bool {
        &&& self.position.wf()
        &&& -MAX_SPEED <= self.velocity <= MAX_SPEED
        &&& 0 <= 2 * self.distance_at_front < self.position.length_halves
        &&& 0 <= 2 * self.distance_at_back < self.position.length_halves
        &&& -MAX_SPEED <= self.velocity_at_front <= MAX_SPEED
        &&& -MAX_SPEED <= self.velocity_at_back <= MAX_SPEED
    }
}

/// Assemble the control input of one platform from the extrapolated states of
/// the platform behind it, the platform itself, and the platform in front.
pub fn calculate_input_params(
    back_platform: &MotionVector,
    this_platform: &MotionVector,
    front_platform: &MotionVector,
) -> (r: InputParams)
    requires
        back_platform.wf(),
        this_platform.wf(),
        front_platform.wf(),
        back_platform.position.same_track(this_platform.position),
        this_platform.position.same_track(front_platform.position),
    ensures
        r == spec_input_params(*back_platform, *this_platform, *front_platform),
        r.wf(),
{
    InputParams {
        position: this_platform.position,
        velocity: this_platform.velocity,
        distance_at_front: this_platform.position.distance_to(front_platform.position),
        distance_at_back: back_platform.position.distance_to(this_platform.position),
        velocity_at_front: front_platform.velocity,
        velocity_at_back: back_platform.velocity,
    }
}

} // verus!

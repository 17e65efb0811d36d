//! Track geometry and the control law: sections with speed policies, the
//! section scan, and the bang-bang speed controller with a hysteresis band.

use vstd::prelude::*;
use vstd::arithmetic::div_mod::{
    lemma_div_is_ordered, lemma_fundamental_div_mod_converse_mod, lemma_mod_bound,
    lemma_small_mod, lemma_sub_mod_noop,
};
use crate::common::RunStatus;
use crate::kinematics::{
    dist_halves, InputParams, TrackPosition, MAX_ACCEL, MAX_SPEED, MAX_TRACK_LENGTH,
};

verus! {

/// Hysteresis half-width of the speed controller, in speed units: commanded
/// acceleration is zero while the speed is within this band around the
/// desired speed.  With nanometre and millisecond units this is one
/// centimetre per second.
pub const SPEED_TOLERANCE: i64 = 10000;

/// Speed-control policy of one track section.
#[derive(Debug, Copy, Clone, PartialEq, Eq, Structural)]
pub enum SectionType {
    /// Aim to move at the track's maximum speed in this section.
    MaxSpeed,
    /// Aim to decelerate fast enough to reach `exit_velocity` at the end of
    /// the section.
    Decelerate { exit_velocity: i64 },
}

/// A contiguous arc of the track with a fixed speed-control policy.
#[derive(Debug, Copy, Clone, PartialEq, Eq, Structural)]
pub struct TrackSection {
    /// Section beginning; the section lasts until the next section begins.
    pub beginning: TrackPosition,
    pub section_type: SectionType,
}

impl TrackSection {
    pub fn new(beginning: TrackPosition, section_type: SectionType) -> (r: TrackSection)
        ensures
            r.beginning == beginning,
            r.section_type == section_type,
    {
        TrackSection { beginning, section_type }
    }
}

/// Track geometry: length, speed and acceleration limits, and the ordered
/// ring of sections.
#[derive(Debug, Clone)]
pub struct Track {
    /// Full length of the track (whole cycle), in length units.
    pub track_length: i64,
    pub max_vel: i64,
    pub max_acc: i64,
    /// Maximal stopping deceleration; negative.
    pub max_deceleration: i64,
    /// Sections in ring order; beginnings are strictly increasing around the
    /// ring and the last section wraps to the first.
    pub sections: Vec<TrackSection>,
}

impl Track {
    /// First section's beginning, the reference point of the ring order.
    pub open spec fn origin(self) -> TrackPosition {
        self.sections[0].beginning
    }

    /// Forward distance (in half length units) from the first section's
    /// beginning to the beginning of section `i`.
    pub open spec fn d0(self, i: int) -> int {
        dist_halves(self.origin(), self.sections[i].beginning)
    }

    /// Index of the section after `i`, wrapping to the first.
    pub open spec fn next_ix(self, i: int) -> int {
        if i + 1 == self.sections.len() {
            0
        } else {
            i + 1
        }
    }

    /// Length of section `i`, in half length units.
    pub open spec fn arc_halves(self, i: int) -> int {
        dist_halves(self.sections[i].beginning, self.sections[self.next_ix(i)].beginning)
    }

    /// `p` lies in the half-open arc of section `i`: at or past its
    /// beginning and strictly before the next section's beginning.
    pub open spec fn in_section(self, i: int, p: TrackPosition) -> bool {
        dist_halves(self.sections[i].beginning, p) < self.arc_halves(i)
    }

    /// The predicate the section scan tests, over whole-unit distances: from
    /// the section beginning, `p` is at most as far as the section's end.
    pub open spec fn scan_hit(self, i: int, p: TrackPosition) -> bool {
        dist_halves(self.sections[i].beginning, p) / 2 <= self.arc_halves(i) / 2
    }

    /// Index the linear section scan reaches from index `i` on: the first
    /// index at or after `i` satisfying [`Track::scan_hit`], or the last
    /// index when none does.
    pub closed spec fn scan_from(self, i: int, p: TrackPosition) -> int
        decreases self.sections.len() - i,
    {
        if i < 0 || i >= self.sections.len() - 1 {
            self.sections.len() - 1
        } else if self.scan_hit(i, p) {
            i
        } else {
            self.scan_from(i + 1, p)
        }
    }

    /// Index of the section the scan locates for `p`.
    pub open spec fn located(self, p: TrackPosition) -> int {
        self.scan_from(0, p)
    }

    /// `p` is a canonical position on this track.
    pub open spec fn on_track(self, p: TrackPosition) -> bool {
        p.wf() && p.length_halves == 2 * self.track_length
    }

    /// Section `i` is well formed: its beginning lies on a whole length unit
    /// of this track and its exit velocity (if any) is representable.
    pub open spec fn section_wf(self, i: int) -> bool {
        &&& self.sections[i].beginning.wf()
        &&& self.sections[i].beginning.length_halves == 2 * self.track_length
        &&& self.sections[i].beginning.halves % 2 == 0
        &&& match self.sections[i].section_type {
            SectionType::MaxSpeed => true,
            SectionType::Decelerate { exit_velocity } => 0 <= exit_velocity <= MAX_SPEED,
        }
    }

    /// Track invariant: representable limits, at least two sections, and
    /// section beginnings strictly increasing around the ring.
    pub open spec fn wf(self) -> bool {
        &&& 0 < self.track_length <= MAX_TRACK_LENGTH
        &&& 0 < self.max_vel <= MAX_SPEED
        &&& 0 < self.max_acc <= MAX_ACCEL
        &&& -MAX_ACCEL <= self.max_deceleration < 0
        &&& 2 <= self.sections.len()
        &&& forall|i: int| 0 <= i < self.sections.len() ==> self.section_wf(i)
        &&& forall|i: int|
            0 <= i < self.sections.len() - 1 ==> #[trigger] self.d0(i) < self.d0(i + 1)
    }
}

/// Distances along the ring add up: walking from `a` to `b` and on to `p`
/// covers the distance from `a` to `p`, wrapping once when `b` lies past `p`.
pub proof fn lemma_dist_chain(a: TrackPosition, b: TrackPosition, p: TrackPosition)
    requires
        a.wf(),
        b.wf(),
        p.wf(),
        a.same_track(b),
        a.same_track(p),
    ensures
        dist_halves(a, b) <= dist_halves(a, p) ==> dist_halves(b, p) == dist_halves(a, p)
            - dist_halves(a, b),
        dist_halves(a, p) < dist_halves(a, b) ==> dist_halves(b, p) == dist_halves(a, p)
            - dist_halves(a, b) + a.length_halves,
{
    let l = a.length_halves as int;
    let x = dist_halves(a, p);
    let y = dist_halves(a, b);
    lemma_mod_bound(p.halves - a.halves, l);
    lemma_mod_bound(b.halves - a.halves, l);
    lemma_sub_mod_noop(p.halves - a.halves, b.halves - a.halves, l);
    assert(dist_halves(b, p) == (x - y) % l);
    if y <= x {
        lemma_small_mod((x - y) as nat, l as nat);
    } else {
        lemma_fundamental_div_mod_converse_mod(x - y, l, -1, x - y + l);
    }
}

/// The ring reference distance of the first section is zero.
proof fn lemma_d0_zero(t: Track)
    requires
        t.wf(),
    ensures
        t.d0(0) == 0,
{
    assert(t.section_wf(0));
    lemma_small_mod(0, t.origin().length_halves as nat);
}

/// Section beginnings are increasing in ring order, strictly so for
/// distinct indices.
proof fn lemma_d0_increasing(t: Track, i: int, j: int)
    requires
        t.wf(),
        0 <= i <= j < t.sections.len(),
    ensures
        t.d0(i) <= t.d0(j),
        i < j ==> t.d0(i) < t.d0(j),
    decreases j - i,
{
    if i < j {
        lemma_d0_increasing(t, i, j - 1);
        assert(t.d0(j - 1) < t.d0(j));
    }
}

/// Every section has positive length, and its length is the gap to the next
/// beginning in the ring reference frame.
proof fn lemma_arc(t: Track, i: int)
    requires
        t.wf(),
        0 <= i < t.sections.len(),
    ensures
        i < t.sections.len() - 1 ==> t.arc_halves(i) == t.d0(i + 1) - t.d0(i),
        i == t.sections.len() - 1 ==> t.arc_halves(i) == 2 * t.track_length - t.d0(i),
        0 < t.arc_halves(i),
{
    let n = t.sections.len() as int;
    assert(t.section_wf(0));
    assert(t.section_wf(i));
    lemma_d0_zero(t);
    if i < n - 1 {
        assert(t.section_wf(i + 1));
        lemma_d0_increasing(t, i, i + 1);
        lemma_dist_chain(t.origin(), t.sections[i].beginning, t.sections[i + 1].beginning);
    } else {
        lemma_d0_increasing(t, 0, n - 1);
        lemma_mod_bound(
            t.sections[i].beginning.halves - t.origin().halves,
            t.origin().length_halves as int,
        );
        lemma_dist_chain(t.origin(), t.sections[i].beginning, t.origin());
    }
}

/// The last section beginning not past `p` in ring order: its reference
/// distance does not exceed `p`'s, and every later beginning lies past `p`.
proof fn lemma_find_below(t: Track, p: TrackPosition, k: int) -> (i: int)
    requires
        t.wf(),
        t.on_track(p),
        0 <= k < t.sections.len(),
        t.d0(0) == 0,
    ensures
        0 <= i <= k,
        t.d0(i) <= dist_halves(t.origin(), p),
        forall|j: int| i < j <= k ==> t.d0(j) > dist_halves(t.origin(), p),
    decreases k,
{
    let d = dist_halves(t.origin(), p);
    assert(t.section_wf(0));
    lemma_mod_bound(p.halves - t.origin().halves, t.origin().length_halves as int);
    if t.d0(k) <= d {
        k
    } else {
        if k == 0 {
            assert(false);
            0
        } else {
            lemma_find_below(t, p, k - 1)
        }
    }
}

/// Section coverage: on a well-formed track every canonical position lies in
/// exactly one section's half-open arc.
pub proof fn lemma_sections_partition(t: Track, p: TrackPosition) -> (i: int)
    requires
        t.wf(),
        t.on_track(p),
    ensures
        0 <= i < t.sections.len(),
        t.in_section(i, p),
        forall|j: int| 0 <= j < t.sections.len() && j != i ==> !t.in_section(j, p),
{
    let n = t.sections.len() as int;
    let d = dist_halves(t.origin(), p);
    let l = 2 * t.track_length;
    assert(t.section_wf(0));
    lemma_d0_zero(t);
    lemma_mod_bound(p.halves - t.origin().halves, t.origin().length_halves as int);
    let i = lemma_find_below(t, p, n - 1);
    assert(t.section_wf(i));
    // p lies in section i
    lemma_dist_chain(t.origin(), t.sections[i].beginning, p);
    assert(dist_halves(t.sections[i].beginning, p) == d - t.d0(i));
    lemma_arc(t, i);
    if i < n - 1 {
        assert(t.d0(i + 1) > d);
    }
    assert(t.in_section(i, p));
    // and in no other section
    assert forall|j: int| 0 <= j < n && j != i implies !t.in_section(j, p) by {
        assert(t.section_wf(j));
        lemma_dist_chain(t.origin(), t.sections[j].beginning, p);
        lemma_arc(t, j);
        if j < i {
            lemma_d0_increasing(t, j, i);
            lemma_d0_increasing(t, j + 1, i);
            assert(dist_halves(t.sections[j].beginning, p) == d - t.d0(j));
            assert(t.arc_halves(j) == t.d0(j + 1) - t.d0(j));
            assert(t.d0(j + 1) <= t.d0(i) <= d);
        } else {
            assert(t.d0(j) > d);
            assert(dist_halves(t.sections[j].beginning, p) == d - t.d0(j) + l);
            if j < n - 1 {
                assert(t.section_wf(j + 1));
                lemma_mod_bound(
                    t.sections[j + 1].beginning.halves - t.origin().halves,
                    t.origin().length_halves as int,
                );
                assert(t.d0(j + 1) < l);
            }
        }
    }
    i
}

/// A position inside a section's arc also satisfies the scan's whole-unit
/// test for that section.
proof fn lemma_in_section_scan_hit(t: Track, i: int, p: TrackPosition)
    requires
        t.wf(),
        t.on_track(p),
        0 <= i < t.sections.len(),
        t.in_section(i, p),
    ensures
        t.scan_hit(i, p),
{
    lemma_div_is_ordered(
        dist_halves(t.sections[i].beginning, p),
        t.arc_halves(i),
        2,
    );
}

/// The scan's test succeeds somewhere on every well-formed track.
pub proof fn lemma_scan_exists(t: Track, p: TrackPosition)
    requires
        t.wf(),
        t.on_track(p),
    ensures
        exists|i: int| 0 <= i < t.sections.len() && t.scan_hit(i, p),
{
    let i = lemma_sections_partition(t, p);
    lemma_in_section_scan_hit(t, i, p);
}

/// The first index at or after `k` whose scan test succeeds is where the
/// scan recursion lands.
proof fn lemma_scan_from_eq(t: Track, p: TrackPosition, k: int, r: int)
    requires
        0 <= k <= r < t.sections.len(),
        t.scan_hit(r, p),
        forall|j: int| k <= j < r ==> !t.scan_hit(j, p),
    ensures
        t.scan_from(k, p) == r,
    decreases r - k,
{
    if k < r {
        lemma_scan_from_eq(t, p, k + 1, r);
    }
}

impl Track {
    /// Linear scan over the sections; returns the first section whose test
    /// succeeds: from its beginning, `p` is at most as far as the section's
    /// end.  Requires the strictly increasing beginnings of [`Track::wf`],
    /// under which the scan always succeeds.
    pub fn locate_section(&self, position: TrackPosition) -> (r: usize)
        requires
            self.wf(),
            self.on_track(position),
        ensures
            0 <= r < self.sections.len(),
            self.scan_hit(r as int, position),
            forall|j: int| 0 <= j < r ==> !self.scan_hit(j, position),
            r == self.located(position),
    {
        proof {
            lemma_scan_exists(*self, position);
        }
        let n: usize = self.sections.len();
        let mut i: usize = 0;
        loop
            invariant
                self.wf(),
                self.on_track(position),
                n == self.sections.len(),
                0 <= i < n,
                forall|j: int| 0 <= j < i ==> !self.scan_hit(j, position),
                exists|j: int| 0 <= j < n && self.scan_hit(j, position),
            decreases n - i,
        {
            proof {
                assert(self.section_wf(i as int));
                assert(self.section_wf(self.next_ix(i as int)));
            }
            let next: usize = if i + 1 == n {
                0
            } else {
                i + 1
            };
            let here: i64 = self.sections[i].beginning.distance_to(position);
            let arc: i64 = self.sections[i].beginning.distance_to(
                self.sections[next].beginning,
            );
            if here <= arc {
                proof {
                    lemma_scan_from_eq(*self, position, 0, i as int);
                }
                return i;
            }
            i += 1;
            proof {
                // The scan cannot run off the end: some index passes the
                // test on every well-formed track.
                if i == n {
                    assert(false);
                }
            }
        }
    }
}

/// Ground covered while decelerating from `max_vel` to `min_vel` at
/// `max_deceleration` (negative): `(max_vel² − min_vel²) / (2·|decel|)`,
/// rounded down.  The average speed over that stretch is `(max_vel +
/// min_vel) / 2` and the stretch takes `(max_vel − min_vel) / |decel|` time.
pub open spec fn spec_decel_distance(max_vel: int, min_vel: int, max_deceleration: int) -> int {
    ((max_vel + min_vel) * (max_vel - min_vel)) / (2 * -max_deceleration)
}

impl Track {
    /// The standard track: a loop with minimal speeds at the ends of its two
    /// halves.  Platforms cruise at top speed in the middle of each half,
    /// accelerate after each breakpoint and decelerate before the next one.
    /// The track must be long enough that the deceleration stretch fits into
    /// half of it.
    pub fn standard_track(
        track_length: i64,
        max_vel: i64,
        max_acc: i64,
        max_deceleration: i64,
        min_vel: i64,
    ) -> (r: Track)
        requires
            0 < track_length <= MAX_TRACK_LENGTH,
            0 < min_vel < max_vel <= MAX_SPEED,
            0 < max_acc <= MAX_ACCEL,
            -MAX_ACCEL <= max_deceleration < 0,
            1 <= spec_decel_distance(max_vel as int, min_vel as int, max_deceleration as int)
                < track_length as int / 2,
        ensures
            r.wf(),
            r.track_length == track_length,
            r.max_vel == max_vel,
            r.max_acc == max_acc,
            r.max_deceleration == max_deceleration,
            r.sections.len() == 4,
            ({
                let dd = spec_decel_distance(
                    max_vel as int,
                    min_vel as int,
                    max_deceleration as int,
                );
                &&& r.sections[0].beginning.halves == 0
                &&& r.sections[0].section_type == SectionType::MaxSpeed
                &&& r.sections[1].beginning.halves == 2 * (track_length as int / 2 - dd)
                &&& r.sections[1].section_type == (SectionType::Decelerate {
                    exit_velocity: min_vel,
                })
                &&& r.sections[2].beginning.halves == 2 * (track_length as int / 2)
                &&& r.sections[2].section_type == SectionType::MaxSpeed
                &&& r.sections[3].beginning.halves == 2 * (track_length - dd)
                &&& r.sections[3].section_type == (SectionType::Decelerate {
                    exit_velocity: min_vel,
                })
            }),
    {
        proof {
            assert(0 < (max_vel as int + min_vel as int) * (max_vel as int - min_vel as int)
                <= 0x2_0000_0000_0000_0000) by (nonlinear_arith)
                requires
                    0 < min_vel < max_vel <= MAX_SPEED,
            ;
        }
        let sum: i128 = max_vel as i128 + min_vel as i128;
        let diff: i128 = max_vel as i128 - min_vel as i128;
        let den: i128 = 2 * (-(max_deceleration as i128));
        let dd_wide: i128 = sum * diff / den;
        let ghost spec_dd = spec_decel_distance(
            max_vel as int,
            min_vel as int,
            max_deceleration as int,
        );
        proof {
            assert(dd_wide == spec_dd);
        }
        let deceleration_distance: i64 = dd_wide as i64;
        let half: i64 = track_length / 2;
        proof {
            vstd::arithmetic::div_mod::lemma_fundamental_div_mod(track_length as int, 2);
            lemma_mod_bound(track_length as int, 2);
        }
        let first_slowingpoint: i64 = half - deceleration_distance;
        let second_slowingpoint: i64 = track_length - deceleration_distance;
        let b0 = TrackPosition::new(track_length, 0);
        let b1 = TrackPosition::new(track_length, first_slowingpoint);
        let b2 = TrackPosition::new(track_length, half);
        let b3 = TrackPosition::new(track_length, second_slowingpoint);
        proof {
            lemma_small_mod(0, (2 * track_length) as nat);
            lemma_small_mod((2 * first_slowingpoint) as nat, (2 * track_length) as nat);
            lemma_small_mod((2 * half) as nat, (2 * track_length) as nat);
            lemma_small_mod((2 * second_slowingpoint) as nat, (2 * track_length) as nat);
        }
        let mut sections: Vec<TrackSection> = Vec::new();
        sections.push(TrackSection::new(b0, SectionType::MaxSpeed));
        sections.push(
            TrackSection::new(b1, SectionType::Decelerate { exit_velocity: min_vel }),
        );
        sections.push(TrackSection::new(b2, SectionType::MaxSpeed));
        sections.push(
            TrackSection::new(b3, SectionType::Decelerate { exit_velocity: min_vel }),
        );
        let r = Track { track_length, max_vel, max_acc, max_deceleration, sections };
        proof {
            lemma_standard_track_wf(r, deceleration_distance as int);
        }
        r
    }
}

/// The four sections built by [`Track::standard_track`] satisfy the track
/// invariant: each beginning lies on a whole unit and the beginnings are
/// strictly increasing around the ring.
proof fn lemma_standard_track_wf(t: Track, dd: int)
    requires
        0 < t.track_length <= MAX_TRACK_LENGTH,
        0 < t.max_vel <= MAX_SPEED,
        0 < t.max_acc <= MAX_ACCEL,
        -MAX_ACCEL <= t.max_deceleration < 0,
        1 <= dd < t.track_length as int / 2,
        t.sections.len() == 4,
        t.sections[0].beginning.halves == 0,
        t.sections[1].beginning.halves == 2 * (t.track_length as int / 2 - dd),
        t.sections[2].beginning.halves == 2 * (t.track_length as int / 2),
        t.sections[3].beginning.halves == 2 * (t.track_length - dd),
        forall|i: int|
            0 <= i < 4 ==> (#[trigger] t.sections[i].beginning).length_halves == 2
                * t.track_length,
        forall|i: int|
            0 <= i < 4 ==> (#[trigger] t.sections[i].beginning).wf(),
        forall|i: int|
            0 <= i < 4 ==> match (#[trigger] t.sections[i]).section_type {
                SectionType::MaxSpeed => true,
                SectionType::Decelerate { exit_velocity } => 0 <= exit_velocity <= MAX_SPEED,
            },
    ensures
        t.wf(),
{
    let l = 2 * t.track_length as int;
    vstd::arithmetic::div_mod::lemma_fundamental_div_mod(t.track_length as int, 2);
    lemma_mod_bound(t.track_length as int, 2);
    assert forall|i: int| 0 <= i < t.sections.len() implies t.section_wf(i) by {
        vstd::arithmetic::div_mod::lemma_mod_multiples_basic(
            t.sections[i].beginning.halves as int / 2,
            2,
        );
        vstd::arithmetic::div_mod::lemma_fundamental_div_mod(
            t.sections[i].beginning.halves as int,
            2,
        );
        lemma_mod_bound(t.sections[i].beginning.halves as int, 2);
        assert(t.sections[i].beginning.halves % 2 == 0);
    }
    assert forall|i: int|
        0 <= i < t.sections.len() - 1 implies #[trigger] t.d0(i) < t.d0(i + 1) by {
        lemma_small_mod((t.sections[i].beginning.halves) as nat, l as nat);
        lemma_small_mod((t.sections[i + 1].beginning.halves) as nat, l as nat);
        lemma_small_mod(0, l as nat);
    }
}

/// `r` is the floor of the square root of `x`.
pub open spec fn is_sqrt_floor(x: int, r: int) -> bool {
    0 <= r && r * r <= x && x < (r + 1) * (r + 1)
}

/// Floor of the square root of a non-negative `x`.
pub closed spec fn sqrt_floor(x: int) -> int {
    choose|r: int| is_sqrt_floor(x, r)
}

/// The floor square root is unique.
proof fn lemma_sqrt_floor_unique(x: int, r1: int, r2: int)
    by (nonlinear_arith)
    requires
        is_sqrt_floor(x, r1),
        is_sqrt_floor(x, r2),
    ensures
        r1 == r2,
{
}

/// Integer square root: the floor of the square root of `x`.
pub fn isqrt(x: i64) -> (r: i64)
    requires
        0 <= x,
    ensures
        is_sqrt_floor(x as int, r as int),
        r == sqrt_floor(x as int),
        0 <= r < 0x1_0000_0000,
{
    let mut lo: i64 = 0;
    let mut hi: i64 = 0x1_0000_0000;
    proof {
        assert((0x1_0000_0000 as int) * (0x1_0000_0000 as int) == 0x1_0000_0000_0000_0000)
            by (nonlinear_arith);
    }
    while lo + 1 < hi
        invariant
            0 <= lo < hi <= 0x1_0000_0000,
            lo * lo <= x,
            x < hi * hi,
        decreases hi - lo,
    {
        let mid: i64 = lo + (hi - lo) / 2;
        proof {
            assert((mid as int) * (mid as int) <= 0x1_0000_0000_0000_0000)
                by (nonlinear_arith)
                requires
                    0 <= mid <= 0x1_0000_0000,
            ;
        }
        let sq: u128 = (mid as u128) * (mid as u128);
        if sq <= x as u128 {
            lo = mid;
        } else {
            hi = mid;
        }
    }
    proof {
        assert(is_sqrt_floor(x as int, lo as int));
        let c = sqrt_floor(x as int);
        assert(is_sqrt_floor(x as int, c));
        lemma_sqrt_floor_unique(x as int, lo as int, c);
    }
    lo
}

/// The acceleration the bang-bang controller commands to move the current
/// speed towards `desired`: shed any overspeed first, hold within the
/// hysteresis band, otherwise accelerate or brake at the limit.
pub open spec fn spec_match_speed(t: Track, current: int, desired: int) -> int {
    if current > t.max_vel {
        t.max_deceleration as int
    } else if -SPEED_TOLERANCE <= desired - current <= SPEED_TOLERANCE {
        0
    } else if desired > current {
        t.max_acc as int
    } else {
        t.max_deceleration as int
    }
}

/// Hysteresis: at or under the speed limit and within the tolerance band
/// around the desired speed, the commanded acceleration is exactly zero.
pub proof fn lemma_hysteresis(t: Track, current: int, desired: int)
    requires
        current <= t.max_vel,
        -SPEED_TOLERANCE <= desired - current <= SPEED_TOLERANCE,
    ensures
        spec_match_speed(t, current, desired) == 0,
{
}

/// The pure control law over a [`Track`]: finds the desired speed for the
/// current section and commands full acceleration, full deceleration, or
/// coasting to match it.
pub struct SimpleCalculate {
    pub track: Track,
}

impl SimpleCalculate {
    /// Desired speed at `input.position` when running: the track's maximum
    /// in a cruise section; in a deceleration section, the speed from which
    /// maximal deceleration over the remaining distance reaches the
    /// section's exit velocity.
    pub open spec fn spec_desired_speed(self, input: InputParams) -> int {
        let i = self.track.located(input.position);
        match self.track.sections[i].section_type {
            SectionType::MaxSpeed => self.track.max_vel as int,
            SectionType::Decelerate { exit_velocity } => sqrt_floor(
                exit_velocity * exit_velocity - 2 * self.track.max_deceleration * (dist_halves(
                    input.position,
                    self.track.sections[self.track.next_ix(i)].beginning,
                ) / 2),
            ),
        }
    }

    /// The acceleration the control law commands, as a mathematical function
    /// of run status and control input.
    pub open spec fn spec_calculate(self, run_status: RunStatus, input: InputParams) -> int {
        match run_status {
            RunStatus::Stop => spec_match_speed(self.track, input.velocity as int, 0),
            RunStatus::Start => spec_match_speed(
                self.track,
                input.velocity as int,
                self.spec_desired_speed(input),
            ),
        }
    }

    /// Bang-bang control with a dead band: brake when over the speed limit,
    /// coast within the tolerance band, else accelerate or brake at the
    /// limit towards `desired`.
    pub fn match_to_desired_speed(&self, current: i64, desired: i64) -> (r: i64)
        requires
            self.track.wf(),
            -MAX_SPEED <= current <= MAX_SPEED,
            0 <= desired < 0x1_0000_0000_0000,
        ensures
            r == spec_match_speed(self.track, current as int, desired as int),
            self.track.max_deceleration <= r <= self.track.max_acc,
    {
        if self.track.max_vel < current {
            self.track.max_deceleration
        } else {
            let speed_diff: i64 = desired - current;
            if -SPEED_TOLERANCE <= speed_diff && speed_diff <= SPEED_TOLERANCE {
                0
            } else if speed_diff > 0 {
                self.track.max_acc
            } else {
                self.track.max_deceleration
            }
        }
    }

    /// Compute the commanded acceleration for one control cycle.  The result
    /// always lies between the track's maximal deceleration and maximal
    /// acceleration.
    pub fn calculate(&self, run_status: &RunStatus, input: &InputParams) -> (r: i64)
        requires
            self.track.wf(),
            input.wf(),
            input.position.length_halves == 2 * self.track.track_length,
        ensures
            r == self.spec_calculate(*run_status, *input),
            self.track.max_deceleration <= r <= self.track.max_acc,
    {
        match run_status {
            RunStatus::Stop => self.match_to_desired_speed(input.velocity, 0),
            RunStatus::Start => {
                let ix: usize = self.track.locate_section(input.position);
                proof {
                    assert(self.track.section_wf(ix as int));
                    assert(self.track.section_wf(self.track.next_ix(ix as int)));
                }
                let n: usize = self.track.sections.len();
                let next: usize = if ix + 1 == n {
                    0
                } else {
                    ix + 1
                };
                match self.track.sections[ix].section_type {
                    SectionType::MaxSpeed => self.match_to_desired_speed(
                        input.velocity,
                        self.track.max_vel,
                    ),
                    SectionType::Decelerate { exit_velocity } => {
                        let dist_to_section_exit: i64 = input.position.distance_to(
                            self.track.sections[next].beginning,
                        );
                        proof {
                            assert(0 <= exit_velocity * exit_velocity
                                <= MAX_SPEED * MAX_SPEED) by (nonlinear_arith)
                                requires
                                    0 <= exit_velocity <= MAX_SPEED,
                            ;
                            assert(-2 * MAX_ACCEL * MAX_TRACK_LENGTH <= 2
                                * self.track.max_deceleration * dist_to_section_exit
                                <= 0) by (nonlinear_arith)
                                requires
                                    -MAX_ACCEL <= self.track.max_deceleration < 0,
                                    0 <= dist_to_section_exit <= MAX_TRACK_LENGTH,
                            ;
                        }
                        let current_desired_vel: i64 = isqrt(
                            exit_velocity * exit_velocity - 2 * self.track.max_deceleration
                                * dist_to_section_exit,
                        );
                        self.match_to_desired_speed(input.velocity, current_desired_vel)
                    },
                }
            },
        }
    }
}

/// Control-law priority: whenever the platform moves faster than the
/// track's speed limit, the whole control law commands the maximal
/// deceleration — regardless of run status and of the section the platform
/// is in.
pub proof fn lemma_overspeed_forces_braking(
    c: SimpleCalculate,
    run_status: RunStatus,
    input: InputParams,
)
    requires
        input.velocity > c.track.max_vel,
    ensures
        c.spec_calculate(run_status, input) == c.track.max_deceleration,
{
}

/// The pure math interface a platform controller computes its output
/// parameters through: for its users to implement with their own control
/// laws.
pub trait CalculateParams<I, O> {
    /// Inputs on which the implementation's `calculate` is defined.
    spec fn input_ok(&self, input: I) -> bool;

    fn calculate(&self, run_status: &RunStatus, input: &I) -> O
        requires
            self.input_ok(*input),
    ;
}

impl CalculateParams<InputParams, i64> for SimpleCalculate {
    open spec fn input_ok(&self, input: InputParams) -> bool {
        &&& self.track.wf()
        &&& input.wf()
        &&& input.position.length_halves == 2 * self.track.track_length
    }

    fn calculate(&self, run_status: &RunStatus, input: &InputParams) -> i64 {
        SimpleCalculate::calculate(self, run_status, input)
    }
}

} // verus!

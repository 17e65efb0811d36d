//! Per-platform state cells arranged in a ring, and the deadlock-free access
//! order through which each platform's control loop reads its own and its two
//! neighbours' state.
//!
//! Each cell guards one platform's kinematic state behind an exclusive lock;
//! both cell operations are a single read-extrapolate-write critical section.
//! A loader for platform `i` touches cells `i-1`, `i` and `i+1` (mod the ring
//! size): the cells are handed to it pre-sorted in a fixed acquisition order
//! that is ascending in the ring index for every platform, so no two loaders
//! ever acquire the same pair of cells in opposite orders.

use vstd::prelude::*;
use vstd::rwlock::{RwLock, RwLockPredicate};
use crate::kinematics::{
    calculate_input_params, spec_input_params, InputParams, MotionVector, MAX_ACCEL, MAX_ELAPSED,
    MAX_SPEED,
};

verus! {

/// What one state cell guards: the last observed kinematic state and the
/// instant (time units since run start) at which it was observed.
#[derive(Debug, Copy, Clone, PartialEq, Eq, Structural)]
pub struct CellState {
    pub vector: MotionVector,
    pub last_instant: i64,
}

impl CellState {
    pub open spec fn wf(self) -> bool {
        self.vector.wf() && 0 <= self.last_instant
    }
}

/// Speed saturated at the representable bound.  The stored speed can never
/// leave `[-MAX_SPEED, MAX_SPEED]`; a controller that brakes above the track
/// limit keeps real runs far away from the bound.
pub open spec fn clamp_speed(v: int) -> int {
    if v < -MAX_SPEED {
        -MAX_SPEED as int
    } else if v > MAX_SPEED {
        MAX_SPEED as int
    } else {
        v
    }
}

/// The elapsed span one cell update covers: never negative (another thread
/// may already have stored a later instant) and clamped at [`MAX_ELAPSED`]
/// so a single extrapolation step stays representable.
pub open spec fn spec_elapsed(last: int, now: int) -> int {
    if now <= last {
        0
    } else if now - last >= MAX_ELAPSED {
        MAX_ELAPSED as int
    } else {
        now - last
    }
}

/// The cell contents after extrapolating to `now` and storing `now` as the
/// new baseline, as a mathematical function.
pub open spec fn spec_advance(s: CellState, now: int) -> CellState {
    let t = spec_elapsed(s.last_instant as int, now);
    CellState {
        vector: MotionVector {
            position: crate::kinematics::TrackPosition {
                halves: ((s.vector.position.halves + s.vector.pos_delta_halves(t)) % (
                s.vector.position.length_halves as int)) as i64,
                length_halves: s.vector.position.length_halves,
            },
            velocity: clamp_speed(s.vector.vel_after(t)) as i64,
            acceleration: s.vector.acceleration,
        },
        last_instant: if now <= s.last_instant {
            s.last_instant
        } else {
            now as i64
        },
    }
}

/// Within the representation limits, advancing a cell is exactly the
/// extrapolation of [`MotionVector::spec_update`]: the clamps do nothing.
pub proof fn lemma_advance_is_extrapolation(s: CellState, now: int)
    requires
        s.wf(),
        s.last_instant <= now <= s.last_instant + MAX_ELAPSED,
        now <= i64::MAX,
        -MAX_SPEED <= s.vector.vel_after(now - s.last_instant) <= MAX_SPEED,
    ensures
        spec_advance(s, now).vector == s.vector.spec_update(now - s.last_instant),
        spec_advance(s, now).last_instant == now,
{
}

/// Extrapolate a cell to `now`: advance the vector under its constant
/// acceleration over the elapsed span and store `now` as the new baseline.
fn advance(s: CellState, now: i64) -> (r: CellState)
    requires
        s.wf(),
        0 <= now,
    ensures
        r == spec_advance(s, now as int),
        r.wf(),
        r.vector.acceleration == s.vector.acceleration,
        r.vector.position.length_halves == s.vector.position.length_halves,
{
    let t: i64 = if now <= s.last_instant {
        0
    } else if now - s.last_instant >= MAX_ELAPSED {
        MAX_ELAPSED
    } else {
        now - s.last_instant
    };
    proof {
        assert(-2 * MAX_SPEED * MAX_ELAPSED <= 2 * s.vector.velocity * t <= 2 * MAX_SPEED
            * MAX_ELAPSED) by (nonlinear_arith)
            requires
                -MAX_SPEED <= s.vector.velocity <= MAX_SPEED,
                0 <= t <= MAX_ELAPSED,
        ;
        assert(-MAX_ACCEL * MAX_ELAPSED * MAX_ELAPSED <= s.vector.acceleration * t * t
            <= MAX_ACCEL * MAX_ELAPSED * MAX_ELAPSED) by (nonlinear_arith)
            requires
                -MAX_ACCEL <= s.vector.acceleration <= MAX_ACCEL,
                0 <= t <= MAX_ELAPSED,
        ;
        assert(-MAX_ACCEL * MAX_ELAPSED <= s.vector.acceleration * t <= MAX_ACCEL
            * MAX_ELAPSED) by (nonlinear_arith)
            requires
                -MAX_ACCEL <= s.vector.acceleration <= MAX_ACCEL,
                0 <= t <= MAX_ELAPSED,
        ;
    }
    let delta: i64 = 2 * s.vector.velocity * t + s.vector.acceleration * t * t;
    let position = s.vector.position.add_halves(delta);
    let v_raw: i64 = s.vector.velocity + s.vector.acceleration * t;
    let velocity: i64 = if v_raw < -MAX_SPEED {
        -MAX_SPEED
    } else if v_raw > MAX_SPEED {
        MAX_SPEED
    } else {
        v_raw
    };
    CellState {
        vector: MotionVector { position, velocity, acceleration: s.vector.acceleration },
        last_instant: if now <= s.last_instant {
            s.last_instant
        } else {
            now
        },
    }
}

/// Invariant of one cell's lock: the guarded state is well formed and lies
/// on the track this cell was created for.
pub struct CellInv {
    pub length_halves: int,
}

impl RwLockPredicate<CellState> for CellInv {
    open spec fn inv(self, s: CellState) -> bool {
        s.wf() && s.vector.position.length_halves == self.length_halves
    }
}

/// One platform's guarded kinematic-state slot.  Both operations extrapolate
/// to `now` and write back under a single lock acquisition, so elapsed time
/// is always computed against a consistent baseline and no state is
/// extrapolated twice for the same span.
pub struct StateManager {
    lock: RwLock<CellState, CellInv>,
}

impl StateManager {
    /// Twice the length of the track all states stored here lie on.
    pub closed spec fn length_halves(&self) -> int {
        self.lock.pred().length_halves
    }

    pub fn new(vector: MotionVector, now: i64) -> (r: StateManager)
        requires
            vector.wf(),
            0 <= now,
        ensures
            r.length_halves() == vector.position.length_halves,
    {
        let s = CellState { vector, last_instant: now };
        let ghost inv = CellInv { length_halves: vector.position.length_halves as int };
        StateManager { lock: RwLock::new(s, Ghost(inv)) }
    }

    /// Read the current state: under one critical section, extrapolate the
    /// stored state to `now`, store the result back as the new baseline and
    /// return it.
    pub fn get_state(&self, now: i64) -> (r: MotionVector)
        requires
            0 <= now,
        ensures
            r.wf(),
            r.position.length_halves == self.length_halves(),
            exists|s: CellState|
                s.wf() && s.vector.position.length_halves == self.length_halves() && r
                    == spec_advance(s, now as int).vector,
    {
        let (s, handle) = self.lock.acquire_write();
        let s2 = advance(s, now);
        let r = s2.vector;
        handle.release_write(s2);
        proof {
            assert(s.wf() && s.vector.position.length_halves == self.length_halves() && r
                == spec_advance(s, now as int).vector);
        }
        r
    }

    /// Apply a newly commanded acceleration: under one critical section,
    /// extrapolate the stored state to `now`, replace only the acceleration
    /// field, store and return the result.
    pub fn set_state(&self, now: i64, acc: i64) -> (r: MotionVector)
        requires
            0 <= now,
            -MAX_ACCEL <= acc <= MAX_ACCEL,
        ensures
            r.wf(),
            r.acceleration == acc,
            r.position.length_halves == self.length_halves(),
            exists|s: CellState|
                s.wf() && s.vector.position.length_halves == self.length_halves() && r == (
                MotionVector { acceleration: acc, ..spec_advance(s, now as int).vector }),
    {
        let (s, handle) = self.lock.acquire_write();
        let s2 = advance(s, now);
        let s3 = CellState {
            vector: MotionVector { acceleration: acc, ..s2.vector },
            last_instant: s2.last_instant,
        };
        let r = s3.vector;
        handle.release_write(s3);
        proof {
            assert(s.wf() && s.vector.position.length_halves == self.length_halves() && r == (
            MotionVector { acceleration: acc, ..spec_advance(s, now as int).vector }));
        }
        r
    }
}

/// The three ring indices loader `i` of an `n`-ring acquires, in acquisition
/// order.  Interior platforms acquire back, then self, then front; the two
/// ring seams are broken explicitly: platform `0` acquires self, front,
/// back, and platform `n-1` acquires front, back, self.  In every case the
/// acquired indices are ascending.
pub open spec fn acquisition_order(n: int, i: int) -> (int, int, int) {
    if i == 0 {
        (0, 1, n - 1)
    } else if i == n - 1 {
        (0, n - 2, n - 1)
    } else {
        (i - 1, i, i + 1)
    }
}

/// Which kinematic role the three acquisition slots of loader `i` play.
#[derive(Debug, Copy, Clone, PartialEq, Eq, Structural)]
pub enum AccessPattern {
    /// Slots are (back, own, front): every interior platform.
    BackOwnFront,
    /// Slots are (own, front, back): platform `0`.
    OwnFrontBack,
    /// Slots are (front, back, own): platform `n-1`.
    FrontBackOwn,
}

/// The access pattern of loader `i` of an `n`-ring.
pub open spec fn spec_access_pattern(n: int, i: int) -> AccessPattern {
    if i == 0 {
        AccessPattern::OwnFrontBack
    } else if i == n - 1 {
        AccessPattern::FrontBackOwn
    } else {
        AccessPattern::BackOwnFront
    }
}

/// Loader `i` acquires cell `a` strictly before cell `b`.
pub open spec fn acquires_before(n: int, i: int, a: int, b: int) -> bool {
    let o = acquisition_order(n, i);
    (a == o.0 && b == o.1) || (a == o.0 && b == o.2) || (a == o.1 && b == o.2)
}

/// Every loader acquires its three cells in strictly ascending ring-index
/// order.
pub proof fn lemma_acquisition_order_ascending(n: int, i: int)
    requires
        3 <= n,
        0 <= i < n,
    ensures
        acquisition_order(n, i).0 < acquisition_order(n, i).1 < acquisition_order(n, i).2,
{
}

/// Ring lock-ordering acyclicity: the acquire-order pairs issued by the `n`
/// loaders never contain a pair and its reverse, so no circular wait can
/// arise among the loaders.
pub proof fn lemma_ring_order_acyclic(n: int, i: int, j: int, a: int, b: int)
    requires
        3 <= n,
        0 <= i < n,
        0 <= j < n,
        acquires_before(n, i, a, b),
    ensures
        !acquires_before(n, j, b, a),
{
    lemma_acquisition_order_ascending(n, i);
    lemma_acquisition_order_ascending(n, j);
}

/// The access pattern of loader `i` of an `n`-ring.
pub fn access_pattern(n: usize, i: usize) -> (r: AccessPattern)
    requires
        3 <= n,
        i < n,
    ensures
        r == spec_access_pattern(n as int, i as int),
{
    if i == 0 {
        AccessPattern::OwnFrontBack
    } else if i == n - 1 {
        AccessPattern::FrontBackOwn
    } else {
        AccessPattern::BackOwnFront
    }
}

/// The three ring indices loader `i` acquires, in acquisition order.
pub fn acquisition_indices(n: usize, i: usize) -> (r: (usize, usize, usize))
    requires
        3 <= n,
        i < n,
    ensures
        (r.0 as int, r.1 as int, r.2 as int) == acquisition_order(n as int, i as int),
        r.0 < r.1 < r.2 < n,
{
    if i == 0 {
        (0, 1, n - 1)
    } else if i == n - 1 {
        (0, n - 2, n - 1)
    } else {
        (i - 1, i, i + 1)
    }
}

/// The reads a platform's control loop needs: its own and its two ring
/// neighbours' current state, combined into control input.  Constructed by
/// [`TrackStateManager::make_loaders`] with the cells pre-sorted in the
/// deadlock-free acquisition order.
pub struct Loader<'a> {
    first: &'a StateManager,
    second: &'a StateManager,
    third: &'a StateManager,
    pattern: AccessPattern,
}

impl<'a> Loader<'a> {
    /// All three cells hold states of the same track.
    pub closed spec fn wf(self) -> bool {
        self.first.length_halves() == self.second.length_halves()
            && self.second.length_halves() == self.third.length_halves()
    }

    /// Twice the track length of the cells read by this loader.
    pub closed spec fn length_halves(self) -> int {
        self.first.length_halves()
    }

    /// Bind a loader to three cells, already sorted in acquisition order;
    /// `pattern` says which slot is the back, own and front cell.
    pub fn new(
        first: &'a StateManager,
        second: &'a StateManager,
        third: &'a StateManager,
        pattern: AccessPattern,
    ) -> (r: Loader<'a>)
        requires
            first.length_halves() == second.length_halves(),
            second.length_halves() == third.length_halves(),
        ensures
            r.wf(),
            r.length_halves() == first.length_halves(),
    {
        Loader { first, second, third, pattern }
    }

    /// Read the three cells in their fixed acquisition order, extrapolated
    /// to `now`, and combine them into this platform's control input.
    pub fn load(&self, now: i64) -> (r: InputParams)
        requires
            self.wf(),
            0 <= now,
        ensures
            r.wf(),
            r.position.length_halves == self.length_halves(),
            exists|b: MotionVector, o: MotionVector, f: MotionVector|
                b.wf() && o.wf() && f.wf() && b.position.length_halves
                    == self.length_halves() && b.position.same_track(o.position)
                    && o.position.same_track(f.position) && r == spec_input_params(b, o, f),
    {
        let (back, own, front) = match self.pattern {
            AccessPattern::BackOwnFront => {
                let b = self.first.get_state(now);
                let o = self.second.get_state(now);
                let f = self.third.get_state(now);
                (b, o, f)
            },
            AccessPattern::OwnFrontBack => {
                let o = self.first.get_state(now);
                let f = self.second.get_state(now);
                let b = self.third.get_state(now);
                (b, o, f)
            },
            AccessPattern::FrontBackOwn => {
                let f = self.first.get_state(now);
                let b = self.second.get_state(now);
                let o = self.third.get_state(now);
                (b, o, f)
            },
        };
        calculate_input_params(&back, &own, &front)
    }
}

/// The write a platform's control loop commands: apply a new acceleration to
/// the platform's own cell.
pub struct Setter<'a> {
    cell: &'a StateManager,
}

impl<'a> Setter<'a> {
    /// Twice the track length of the cell written by this setter.
    pub closed spec fn length_halves(self) -> int {
        self.cell.length_halves()
    }

    pub fn new(cell: &'a StateManager) -> (r: Setter<'a>)
        ensures
            r.length_halves() == cell.length_halves(),
    {
        Setter { cell }
    }

    /// Apply the commanded acceleration to the platform's cell,
    /// extrapolated to `now`.
    pub fn set(&self, now: i64, acc: i64)
        requires
            0 <= now,
            -MAX_ACCEL <= acc <= MAX_ACCEL,
    {
        let _ = self.cell.set_state(now, acc);
    }
}

/// Owns all per-platform state cells, in ring order, and hands out loaders
/// and setters bound to specific ring positions.
pub struct TrackStateManager {
    /// Platform cells from the first to the last, in ring order.
    pub platform_states: Vec<StateManager>,
}

impl TrackStateManager {
    /// At least three platforms (a smaller ring has no three distinct
    /// cells), all on the same track.
    pub open spec fn wf(self) -> bool {
        &&& 3 <= self.platform_states.len()
        &&& forall|i: int|
            0 <= i < self.platform_states.len()
                ==> (#[trigger] self.platform_states[i]).length_halves()
                == self.platform_states[0].length_halves()
    }

    /// Create one cell per initial state, all observed at instant `now`.
    pub fn init(ss: Vec<MotionVector>, now: i64) -> (r: TrackStateManager)
        requires
            3 <= ss.len(),
            0 <= now,
            forall|i: int| 0 <= i < ss.len() ==> (#[trigger] ss[i]).wf(),
            forall|i: int|
                0 <= i < ss.len() ==> (#[trigger] ss[i]).position.length_halves
                    == ss[0].position.length_halves,
        ensures
            r.wf(),
            r.platform_states.len() == ss.len(),
            r.platform_states[0].length_halves() == ss[0].position.length_halves,
    {
        let n: usize = ss.len();
        let mut platform_states: Vec<StateManager> = Vec::new();
        let mut i: usize = 0;
        while i < n
            invariant
                0 <= i <= n,
                n == ss.len(),
                0 <= now,
                platform_states.len() == i,
                forall|k: int| 0 <= k < ss.len() ==> (#[trigger] ss[k]).wf(),
                forall|k: int|
                    0 <= k < ss.len() ==> (#[trigger] ss[k]).position.length_halves
                        == ss[0].position.length_halves,
                forall|k: int|
                    0 <= k < i ==> (#[trigger] platform_states[k]).length_halves()
                        == ss[0].position.length_halves,
            decreases n - i,
        {
            platform_states.push(StateManager::new(ss[i], now));
            i += 1;
        }
        TrackStateManager { platform_states }
    }

    /// The loader of every ring position, each bound to its three cells in
    /// the fixed ascending acquisition order of [`acquisition_order`].
    pub fn make_loaders(&self) -> (r: Vec<Loader<'_>>)
        requires
            self.wf(),
        ensures
            r.len() == self.platform_states.len(),
            forall|i: int|
                0 <= i < r.len() ==> (#[trigger] r[i]).wf() && r[i].length_halves()
                    == self.platform_states[0].length_halves(),
    {
        let n: usize = self.platform_states.len();
        let mut loaders: Vec<Loader<'_>> = Vec::new();
        let mut i: usize = 0;
        while i < n
            invariant
                0 <= i <= n,
                3 <= n == self.platform_states.len(),
                self.wf(),
                loaders.len() == i,
                forall|k: int|
                    0 <= k < i ==> (#[trigger] loaders[k]).wf() && loaders[k].length_halves()
                        == self.platform_states[0].length_halves(),
            decreases n - i,
        {
            let (a, b, c) = acquisition_indices(n, i);
            let pattern = access_pattern(n, i);
            loaders.push(
                Loader::new(
                    &self.platform_states[a],
                    &self.platform_states[b],
                    &self.platform_states[c],
                    pattern,
                ),
            );
            i += 1;
        }
        loaders
    }

    /// The setter of every ring position, each bound to that platform's own
    /// cell.
    pub fn make_setters(&self) -> (r: Vec<Setter<'_>>)
        requires
            self.wf(),
        ensures
            r.len() == self.platform_states.len(),
            forall|i: int|
                0 <= i < r.len() ==> (#[trigger] r[i]).length_halves()
                    == self.platform_states[0].length_halves(),
    {
        let n: usize = self.platform_states.len();
        let mut setters: Vec<Setter<'_>> = Vec::new();
        let mut i: usize = 0;
        while i < n
            invariant
                0 <= i <= n,
                3 <= n == self.platform_states.len(),
                self.wf(),
                setters.len() == i,
                forall|k: int|
                    0 <= k < i ==> (#[trigger] setters[k]).length_halves()
                        == self.platform_states[0].length_halves(),
            decreases n - i,
        {
            setters.push(Setter::new(&self.platform_states[i]));
            i += 1;
        }
        setters
    }

    /// Loaders and setters of all ring positions, paired per platform.
    pub fn make_loaders_and_setters(&self) -> (r: Vec<(Loader<'_>, Setter<'_>)>)
        requires
            self.wf(),
        ensures
            r.len() == self.platform_states.len(),
            forall|i: int|
                0 <= i < r.len() ==> (#[trigger] r[i]).0.wf() && r[i].0.length_halves()
                    == self.platform_states[0].length_halves() && r[i].1.length_halves()
                    == self.platform_states[0].length_halves(),
    {
        let mut loaders = self.make_loaders();
        let mut setters = self.make_setters();
        let mut r: Vec<(Loader<'_>, Setter<'_>)> = Vec::new();
        let ghost glen = self.platform_states.len() as int;
        while loaders.len() > 0
            invariant
                loaders.len() == setters.len(),
                r.len() + loaders.len() == glen,
                forall|i: int|
                    0 <= i < loaders.len() ==> (#[trigger] loaders[i]).wf()
                        && loaders[i].length_halves()
                        == self.platform_states[0].length_halves(),
                forall|i: int|
                    0 <= i < setters.len() ==> (#[trigger] setters[i]).length_halves()
                        == self.platform_states[0].length_halves(),
                forall|i: int|
                    0 <= i < r.len() ==> (#[trigger] r[i]).0.wf() && r[i].0.length_halves()
                        == self.platform_states[0].length_halves() && r[i].1.length_halves()
                        == self.platform_states[0].length_halves(),
            decreases loaders.len(),
        {
            let loader = loaders.remove(0);
            let setter = setters.remove(0);
            r.push((loader, setter));
        }
        r
    }
}

} // verus!

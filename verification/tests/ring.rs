use ringline::kinematics::{MotionVector, TrackPosition};
use ringline::ring::{acquisition_indices, StateManager, TrackStateManager};

fn vector(track_length: i64, pos: i64, velocity: i64, acceleration: i64) -> MotionVector {
    MotionVector {
        position: TrackPosition::new(track_length, pos),
        velocity,
        acceleration,
    }
}

#[test]
fn cell_read_extrapolates_and_rebases() {
    let cell = StateManager::new(vector(300, 0, 4, 2), 0);
    // Ten time units later: velocity 4 + 2*10, position 4*10 + (1/2)*2*100.
    let v = cell.get_state(10);
    assert_eq!(v, vector(300, 140, 24, 2));
    // Reading again at the same instant changes nothing: the baseline moved.
    let v = cell.get_state(10);
    assert_eq!(v, vector(300, 140, 24, 2));
}

#[test]
fn cell_apply_replaces_only_acceleration() {
    let cell = StateManager::new(vector(300, 0, 4, 2), 0);
    let _ = cell.get_state(10);
    // From (position 140, velocity 24) ten more units pass before the new
    // acceleration lands: position 140 + 24*10 + (1/2)*2*100 = 480 -> wraps
    // to 180; velocity 24 + 2*10 = 44; then the acceleration becomes -2.
    let v = cell.set_state(20, -2);
    assert_eq!(v, vector(300, 180, 44, -2));
    let v = cell.get_state(20);
    assert_eq!(v, vector(300, 180, 44, -2));
}

#[test]
fn cell_clock_never_runs_backwards() {
    let cell = StateManager::new(vector(300, 10, 5, 0), 100);
    // An earlier instant (clock skew between threads) counts as no time.
    let v = cell.get_state(40);
    assert_eq!(v, vector(300, 10, 5, 0));
}

#[test]
fn ring_lock_order_is_ascending_and_acyclic() {
    // For any ring size, collect the acquire-order pairs of all loaders:
    // no pair may occur together with its reverse.
    for n in 3usize..=9 {
        let mut pairs: Vec<(usize, usize)> = Vec::new();
        for i in 0..n {
            let (a, b, c) = acquisition_indices(n, i);
            assert!(a < b && b < c && c < n);
            pairs.push((a, b));
            pairs.push((a, c));
            pairs.push((b, c));
        }
        for &(a, b) in &pairs {
            assert!(!pairs.contains(&(b, a)));
        }
    }
}

#[test]
fn seam_loaders_break_the_cycle() {
    // Platform 0 acquires self, front, back; the last platform acquires
    // front, back, self; interior platforms acquire back, self, front.
    assert_eq!(acquisition_indices(5, 0), (0, 1, 4));
    assert_eq!(acquisition_indices(5, 1), (0, 1, 2));
    assert_eq!(acquisition_indices(5, 2), (1, 2, 3));
    assert_eq!(acquisition_indices(5, 3), (2, 3, 4));
    assert_eq!(acquisition_indices(5, 4), (0, 3, 4));
}

#[test]
fn loaders_read_neighbours_in_ring_order() {
    let states = vec![
        vector(300, 0, 1, 0),
        vector(300, 100, 2, 0),
        vector(300, 200, 3, 0),
    ];
    let manager = TrackStateManager::init(states, 0);
    let loaders = manager.make_loaders();
    assert_eq!(loaders.len(), 3);

    let input = loaders[0].load(0);
    assert_eq!(input.position, TrackPosition::new(300, 0));
    assert_eq!(input.velocity, 1);
    assert_eq!(input.distance_at_front, 100);
    assert_eq!(input.distance_at_back, 100);
    assert_eq!(input.velocity_at_front, 2);
    assert_eq!(input.velocity_at_back, 3);

    let input = loaders[1].load(0);
    assert_eq!(input.position, TrackPosition::new(300, 100));
    assert_eq!(input.velocity_at_back, 1);
    assert_eq!(input.velocity_at_front, 3);

    let input = loaders[2].load(0);
    assert_eq!(input.position, TrackPosition::new(300, 200));
    assert_eq!(input.velocity_at_back, 2);
    assert_eq!(input.velocity_at_front, 1);
}

#[test]
fn setters_command_their_own_cell() {
    let states = vec![
        vector(300, 0, 0, 0),
        vector(300, 100, 0, 0),
        vector(300, 200, 0, 0),
    ];
    let manager = TrackStateManager::init(states, 0);
    let pairs = manager.make_loaders_and_setters();
    assert_eq!(pairs.len(), 3);
    pairs[1].1.set(0, 7);
    // Platform 1's cell carries the new acceleration; its neighbours do not.
    let input = pairs[0].0.load(0);
    assert_eq!(input.velocity, 0);
    let input = pairs[1].0.load(10);
    // Platform 1 accelerated at 7 for 10 units: velocity 70, and moved
    // (1/2)*7*100 = 350 -> 100 + 350 wraps to 150.
    assert_eq!(input.velocity, 70);
    assert_eq!(input.position, TrackPosition::new(300, 150));
}

use ringline::kinematics::{calculate_input_params, MotionVector, TrackPosition};

#[test]
fn track_position_wraparound() {
    // Positions reduce modulo the track length.
    assert_eq!(TrackPosition::new(300, 310), TrackPosition::new(300, 10));
    // Forward distance wraps through the origin: 290 -> 10 is 20, not -280.
    let a = TrackPosition::new(300, 290);
    let b = TrackPosition::new(300, 10);
    assert_eq!(a.distance_to(b), 20);
}

#[test]
fn track_position_negative_reduces() {
    assert_eq!(TrackPosition::new(300, -10), TrackPosition::new(300, 290));
}

#[test]
fn track_position_add_wraps() {
    let p = TrackPosition::new(300, 10);
    assert_eq!(p.add(-20), TrackPosition::new(300, 290));
    assert_eq!(p.add(295), TrackPosition::new(300, 5));
    assert_eq!(p.add(0), p);
}

#[test]
fn distance_to_self_is_zero() {
    let p = TrackPosition::new(300, 123);
    assert_eq!(p.distance_to(p), 0);
}

#[test]
fn track_length_accessor() {
    assert_eq!(TrackPosition::new(300, 10).track_length(), 300);
}

#[test]
fn extrapolation_identity() {
    let v = MotionVector {
        position: TrackPosition::new(300, 42),
        velocity: 7,
        acceleration: -3,
    };
    assert_eq!(v.update(0), v);
}

#[test]
fn extrapolation_exact_value() {
    let v = MotionVector {
        position: TrackPosition::new(300, 0),
        velocity: 4,
        acceleration: 2,
    };
    // After 10 time units: velocity 4 + 2*10, position 4*10 + (1/2)*2*100.
    let v2 = v.update(10);
    assert_eq!(v2.velocity, 24);
    assert_eq!(v2.acceleration, 2);
    assert_eq!(v2.position, TrackPosition::new(300, 140));
}

#[test]
fn extrapolation_composes() {
    let v = MotionVector {
        position: TrackPosition::new(300, 17),
        velocity: 5,
        acceleration: 3,
    };
    // Half-unit positions make the composition exact, odd values included.
    assert_eq!(v.update(7).update(13), v.update(20));
    assert_eq!(v.update(1).update(1), v.update(2));
}

#[test]
fn zero_vector_is_stationary() {
    let v = MotionVector::zero(300);
    assert_eq!(v.velocity, 0);
    assert_eq!(v.acceleration, 0);
    assert_eq!(v.position, TrackPosition::new(300, 0));
    assert_eq!(v.update(50), v);
}

#[test]
fn input_params_from_three_vectors() {
    let at = |pos: i64| MotionVector {
        position: TrackPosition::new(300, pos),
        velocity: pos / 10,
        acceleration: 0,
    };
    let back = at(290);
    let this = at(40);
    let front = at(100);
    let input = calculate_input_params(&back, &this, &front);
    assert_eq!(input.position, TrackPosition::new(300, 40));
    assert_eq!(input.velocity, 4);
    assert_eq!(input.distance_at_front, 60);
    assert_eq!(input.distance_at_back, 50);
    assert_eq!(input.velocity_at_front, 10);
    assert_eq!(input.velocity_at_back, 29);
}

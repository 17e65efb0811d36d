//! Track and control-law tests.  Quantities are in nanometres and
//! milliseconds: speeds in nm/ms (1 nm/ms = 1 mm/s = 1 um/s * 1000) and
//! accelerations in nm/ms^2 (1 nm/ms^2 = 1 mm/s^2).

use ringline::common::RunStatus;
use ringline::kinematics::{InputParams, TrackPosition};
use ringline::track::{isqrt, SectionType, SimpleCalculate, Track, SPEED_TOLERANCE};

/// 300 m in nanometres.
const TRACK_LENGTH: i64 = 300_000_000_000;
/// 25 km/h in nm/ms.
const MAX_VEL: i64 = 6_944_444;
/// 0.43 m/s^2 in nm/ms^2.
const MAX_ACC: i64 = 430;
const MAX_DECELERATION: i64 = -430;
/// 2 km/h in nm/ms.
const MIN_VEL: i64 = 555_555;

fn standard() -> Track {
    Track::standard_track(TRACK_LENGTH, MAX_VEL, MAX_ACC, MAX_DECELERATION, MIN_VEL)
}

fn input_at(track: &Track, pos: i64, velocity: i64) -> InputParams {
    InputParams {
        position: TrackPosition::new(track.track_length, pos),
        velocity,
        distance_at_front: 1_000_000_000,
        distance_at_back: 1_000_000_000,
        velocity_at_front: velocity,
        velocity_at_back: velocity,
    }
}

#[test]
fn standard_track_sections_cover_the_ring() {
    let track = standard();
    assert_eq!(track.sections.len(), 4);
    // Deceleration distance: (max² - min²) / (2·|decel|).
    let dd: i64 = (MAX_VEL + MIN_VEL) * (MAX_VEL - MIN_VEL) / (2 * -MAX_DECELERATION);
    let half: i64 = TRACK_LENGTH / 2;
    let beginnings: Vec<i64> = track.sections.iter().map(|s| s.beginning.halves).collect();
    assert_eq!(beginnings, vec![0, 2 * (half - dd), 2 * half, 2 * (TRACK_LENGTH - dd)]);
    // Strictly increasing around the ring.
    for i in 0..3 {
        assert!(beginnings[i] < beginnings[i + 1]);
    }
    assert!(beginnings[3] < 2 * TRACK_LENGTH);
    // Section kinds alternate cruise / decelerate-to-min.
    assert!(matches!(track.sections[0].section_type, SectionType::MaxSpeed));
    assert!(matches!(
        track.sections[1].section_type,
        SectionType::Decelerate { exit_velocity: MIN_VEL }
    ));
    assert!(matches!(track.sections[2].section_type, SectionType::MaxSpeed));
    assert!(matches!(
        track.sections[3].section_type,
        SectionType::Decelerate { exit_velocity: MIN_VEL }
    ));
    // Every sampled position lands in exactly one section: the located one.
    let step: i64 = TRACK_LENGTH / 1000;
    let mut pos: i64 = 0;
    while pos < TRACK_LENGTH {
        let p = TrackPosition::new(TRACK_LENGTH, pos);
        let ix = track.locate_section(p);
        assert!(ix < 4);
        // The located section's arc contains the position (half-open).
        let begin = track.sections[ix].beginning;
        let next = track.sections[(ix + 1) % 4].beginning;
        assert!(begin.distance_to(p) <= begin.distance_to(next));
        pos += step;
    }
}

#[test]
fn locate_section_at_known_points() {
    let track = standard();
    let dd: i64 = (MAX_VEL + MIN_VEL) * (MAX_VEL - MIN_VEL) / (2 * -MAX_DECELERATION);
    let half: i64 = TRACK_LENGTH / 2;
    let locate = |pos: i64| track.locate_section(TrackPosition::new(TRACK_LENGTH, pos));
    assert_eq!(locate(0), 0);
    assert_eq!(locate(half - dd - 1), 0);
    assert_eq!(locate(half - dd + 1), 1);
    // At an exact section boundary the scan's `<=` keeps the earlier section.
    assert_eq!(locate(half - dd), 0);
    assert_eq!(locate(half), 1);
    assert_eq!(locate(half + 1), 2);
    assert_eq!(locate(TRACK_LENGTH - dd - 1), 2);
    assert_eq!(locate(TRACK_LENGTH - dd + 1), 3);
    assert_eq!(locate(TRACK_LENGTH - 1), 3);
}

#[test]
fn isqrt_exact_values() {
    assert_eq!(isqrt(0), 0);
    assert_eq!(isqrt(1), 1);
    assert_eq!(isqrt(15), 3);
    assert_eq!(isqrt(16), 4);
    assert_eq!(isqrt(17), 4);
    assert_eq!(isqrt(999_999), 999);
    assert_eq!(isqrt(0x4000_0000_0000_0000), 0x8000_0000);
    assert_eq!(isqrt(i64::MAX), 3_037_000_499);
}

#[test]
fn overspeed_forces_braking_in_any_state() {
    // Control-law priority: above the speed limit the law brakes at the
    // maximal deceleration, whatever the run status or section.
    let calc = SimpleCalculate { track: standard() };
    let over = MAX_VEL + 1;
    for pos in [0i64, TRACK_LENGTH / 3, TRACK_LENGTH / 2, TRACK_LENGTH - 1] {
        let input = input_at(&calc.track, pos, over);
        assert_eq!(calc.calculate(&RunStatus::Start, &input), MAX_DECELERATION);
        assert_eq!(calc.calculate(&RunStatus::Stop, &input), MAX_DECELERATION);
    }
}

#[test]
fn hysteresis_holds_acceleration_at_zero() {
    // Within the tolerance band around the desired speed nothing is
    // commanded.  In a cruise section the desired speed is the track's
    // maximum.
    let calc = SimpleCalculate { track: standard() };
    let input = input_at(&calc.track, 0, MAX_VEL - SPEED_TOLERANCE);
    assert_eq!(calc.calculate(&RunStatus::Start, &input), 0);
    // And while stopping, the desired speed is zero.
    let slow = input_at(&calc.track, 0, SPEED_TOLERANCE);
    assert_eq!(calc.calculate(&RunStatus::Stop, &slow), 0);
}

#[test]
fn cruise_section_accelerates_towards_max_vel() {
    let calc = SimpleCalculate { track: standard() };
    let input = input_at(&calc.track, 0, MIN_VEL);
    assert_eq!(calc.calculate(&RunStatus::Start, &input), MAX_ACC);
}

#[test]
fn stop_order_brakes_a_moving_platform() {
    let calc = SimpleCalculate { track: standard() };
    let input = input_at(&calc.track, 0, MAX_VEL - SPEED_TOLERANCE);
    assert_eq!(calc.calculate(&RunStatus::Stop, &input), MAX_DECELERATION);
}

#[test]
fn decelerate_section_matches_braking_curve() {
    let calc = SimpleCalculate { track: standard() };
    let dd: i64 = (MAX_VEL + MIN_VEL) * (MAX_VEL - MIN_VEL) / (2 * -MAX_DECELERATION);
    let half: i64 = TRACK_LENGTH / 2;
    // Just inside the first deceleration section, d to its exit ~ dd, so the
    // desired speed is still close to max_vel.
    let pos = half - dd + 1;
    // Forward distance from `pos` to the section's exit at `half`.
    let d = half - pos;
    assert_eq!(d, dd - 1);
    let desired = isqrt(MIN_VEL * MIN_VEL - 2 * MAX_DECELERATION * d);
    // Moving clearly slower than the braking curve allows: accelerate.
    let input = input_at(&calc.track, pos, desired - SPEED_TOLERANCE - 1);
    assert_eq!(calc.calculate(&RunStatus::Start, &input), MAX_ACC);
    // Moving clearly faster than the curve (but under the limit): brake.
    let input = input_at(&calc.track, pos, desired + SPEED_TOLERANCE + 1);
    assert_eq!(calc.calculate(&RunStatus::Start, &input), MAX_DECELERATION);
    // On the curve: coast.
    let input = input_at(&calc.track, pos, desired);
    assert_eq!(calc.calculate(&RunStatus::Start, &input), 0);
}

#[test]
fn match_to_desired_speed_branches() {
    let calc = SimpleCalculate { track: standard() };
    // Over the limit: brake, regardless of the desired speed.
    assert_eq!(calc.match_to_desired_speed(MAX_VEL + 1, MAX_VEL * 2), MAX_DECELERATION);
    // Within the band: coast.
    assert_eq!(calc.match_to_desired_speed(1_000_000, 1_000_000 + SPEED_TOLERANCE), 0);
    assert_eq!(calc.match_to_desired_speed(1_000_000, 1_000_000 - SPEED_TOLERANCE), 0);
    // Below the band: accelerate.
    assert_eq!(
        calc.match_to_desired_speed(1_000_000, 1_000_000 + SPEED_TOLERANCE + 1),
        MAX_ACC
    );
    // Above the band: brake.
    assert_eq!(
        calc.match_to_desired_speed(1_000_000, 1_000_000 - SPEED_TOLERANCE - 1),
        MAX_DECELERATION
    );
}

use ringline::common::RunStatus;
use ringline::monitor::{Alert, CriticalAlert, UnsafeAlert, WarnAlert};
use ringline::protocol::{
    decode_wire_alert, AlertType, PlatformServerState, ReadyStatus, TAG_MAX_VELOCITY_EXCEEDED,
};

#[test]
fn ready_status_codes_roundtrip() {
    assert_eq!(ReadyStatus::ImReadyOk.code(), 0);
    assert_eq!(ReadyStatus::ImNotReadyError.code(), 1);
    assert_eq!(ReadyStatus::from_code(0), Some(ReadyStatus::ImReadyOk));
    assert_eq!(ReadyStatus::from_code(1), Some(ReadyStatus::ImNotReadyError));
    assert_eq!(ReadyStatus::from_code(2), None);
    assert_eq!(ReadyStatus::from_code(-1), None);
}

#[test]
fn alert_type_codes_are_distinct() {
    assert_eq!(AlertType::Critical.code(), 0);
    assert_eq!(AlertType::Unsafe.code(), 1);
    assert_eq!(AlertType::Warn.code(), 2);
}

#[test]
fn unsafe_alert_frames_and_decodes() {
    let alert = Alert::Unsafe(UnsafeAlert::MaxVelocityExceeded(6_950_000));
    let wire = alert.to_wire();
    assert_eq!(wire.alert_type, 1);
    assert_eq!(wire.message.len(), 9);
    assert_eq!(wire.message[0], TAG_MAX_VELOCITY_EXCEEDED);
    assert_eq!(decode_wire_alert(&wire), Some(alert));
}

#[test]
fn negative_velocity_frames_and_decodes() {
    let alert = Alert::Unsafe(UnsafeAlert::MaxVelocityExceeded(-123_456));
    let wire = alert.to_wire();
    assert_eq!(decode_wire_alert(&wire), Some(alert));
}

#[test]
fn payload_free_alerts_frame_to_their_tag_alone() {
    let wire = Alert::Critical(CriticalAlert {}).to_wire();
    assert_eq!(wire.alert_type, 0);
    assert!(wire.message.is_empty());
    assert_eq!(decode_wire_alert(&wire), Some(Alert::Critical(CriticalAlert {})));

    let wire = Alert::Warn(WarnAlert {}).to_wire();
    assert_eq!(wire.alert_type, 2);
    assert!(wire.message.is_empty());
    assert_eq!(decode_wire_alert(&wire), Some(Alert::Warn(WarnAlert {})));
}

#[test]
fn mangled_wire_alerts_are_rejected() {
    let mut wire = Alert::Unsafe(UnsafeAlert::MaxVelocityExceeded(5)).to_wire();
    wire.alert_type = 17;
    assert_eq!(decode_wire_alert(&wire), None);
    let mut wire = Alert::Unsafe(UnsafeAlert::MaxVelocityExceeded(5)).to_wire();
    wire.message.pop();
    assert_eq!(decode_wire_alert(&wire), None);
}

#[test]
fn run_status_flag_follows_signals() {
    let state = PlatformServerState::new();
    // A fresh platform is stopped.
    assert_eq!(state.read(), RunStatus::Stop);
    let _ = state.start_signal();
    assert_eq!(state.read(), RunStatus::Start);
    // Signals are idempotent.
    let _ = state.start_signal();
    assert_eq!(state.read(), RunStatus::Start);
    let _ = state.stop_signal();
    assert_eq!(state.read(), RunStatus::Stop);
    // Ping has no side effect.
    let _ = state.ping();
    assert_eq!(state.read(), RunStatus::Stop);
}

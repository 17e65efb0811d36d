use ringline::centre::{
    classify_ready, combine_leg_outcomes, CentrePhase, CentreState, ReadyAction,
};
use ringline::common::{ClientError, PlatformID, RunStatus};
use ringline::protocol::{ImReadyMsg, PlatformServerState};

fn roster3() -> CentreState {
    CentreState::new(vec![PlatformID(1), PlatformID(2), PlatformID(3)])
}

#[test]
fn readiness_fires_exactly_on_completion() {
    let mut centre = roster3();
    assert_eq!(centre.phase(), CentrePhase::Collecting);
    assert_eq!(centre.outstanding_len(), 3);

    assert!(!centre.note_ready(PlatformID(2)));
    assert_eq!(centre.outstanding_len(), 2);
    assert!(!centre.note_ready(PlatformID(1)));
    assert_eq!(centre.outstanding_len(), 1);
    assert_eq!(centre.phase(), CentrePhase::Collecting);

    // The third notification completes the roster: the broadcast fires.
    assert!(centre.note_ready(PlatformID(3)));
    assert_eq!(centre.outstanding_len(), 0);
    assert_eq!(centre.phase(), CentrePhase::AllReady);

    // Closing the channel afterwards no longer aborts the run.
    centre.channel_closed();
    assert_eq!(centre.phase(), CentrePhase::AllReady);
}

#[test]
fn duplicate_and_unknown_ready_reports_change_nothing() {
    let mut centre = roster3();
    assert!(!centre.note_ready(PlatformID(2)));
    assert!(!centre.note_ready(PlatformID(2)));
    assert!(!centre.note_ready(PlatformID(99)));
    assert_eq!(centre.outstanding_len(), 2);
}

#[test]
fn closed_channel_aborts_an_incomplete_run() {
    let mut centre = roster3();
    assert!(!centre.note_ready(PlatformID(1)));
    assert!(!centre.note_ready(PlatformID(3)));
    assert_eq!(centre.outstanding_len(), 1);
    // The channel closes with one platform outstanding: no broadcast, ever.
    centre.channel_closed();
    assert_eq!(centre.phase(), CentrePhase::Aborted);
    assert_eq!(centre.outstanding_len(), 1);
}

#[test]
fn not_ready_reports_are_informational() {
    let centre = roster3();
    centre.note_not_ready(PlatformID(1));
    assert_eq!(centre.outstanding_len(), 3);
}

#[test]
fn ready_reports_classify_by_wire_code() {
    let ready = ImReadyMsg { ready_status: 0, platform_id: 7 };
    assert_eq!(classify_ready(&ready), ReadyAction::MarkReady(PlatformID(7)));
    let not_ready = ImReadyMsg { ready_status: 1, platform_id: 7 };
    assert_eq!(classify_ready(&not_ready), ReadyAction::NoteNotReady(PlatformID(7)));
    let unknown = ImReadyMsg { ready_status: 99, platform_id: 7 };
    assert_eq!(classify_ready(&unknown), ReadyAction::IgnoreUnknown);
}

#[test]
fn broadcast_aggregation_reports_first_failure() {
    let all_ok: Vec<Result<(), ClientError>> = vec![Ok(()), Ok(()), Ok(())];
    assert_eq!(combine_leg_outcomes(&all_ok), Ok(()));

    let mixed: Vec<Result<(), ClientError>> = vec![
        Ok(()),
        Err(ClientError::RequestError),
        Err(ClientError::ConnectError),
    ];
    assert_eq!(combine_leg_outcomes(&mixed), Err(ClientError::RequestError));

    let none: Vec<Result<(), ClientError>> = vec![];
    assert_eq!(combine_leg_outcomes(&none), Ok(()));

    // A worker that died before reporting is a failure of its own kind.
    let crashed: Vec<Result<(), ClientError>> =
        vec![Ok(()), Err(ClientError::ThreadPanicked)];
    assert_eq!(combine_leg_outcomes(&crashed), Err(ClientError::ThreadPanicked));
}

#[test]
fn broadcast_partial_failure_still_starts_reachable_platforms() {
    // Three platforms, one unreachable: its leg fails, the other two still
    // switch to Start, and the aggregate reports the failure.
    let platforms = [
        PlatformServerState::new(),
        PlatformServerState::new(),
        PlatformServerState::new(),
    ];
    let mut outcomes: Vec<Result<(), ClientError>> = Vec::new();
    for (i, platform) in platforms.iter().enumerate() {
        if i == 1 {
            // This platform cannot be reached: no signal arrives.
            outcomes.push(Err(ClientError::ConnectError));
        } else {
            let _ = platform.start_signal();
            outcomes.push(Ok(()));
        }
    }
    assert_eq!(combine_leg_outcomes(&outcomes), Err(ClientError::ConnectError));
    assert_eq!(platforms[0].read(), RunStatus::Start);
    assert_eq!(platforms[1].read(), RunStatus::Stop);
    assert_eq!(platforms[2].read(), RunStatus::Start);
}

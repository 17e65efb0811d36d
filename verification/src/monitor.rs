//! Safety monitoring: alert values and the monitor that inspects each
//! control cycle's input for violations.

use vstd::prelude::*;
use crate::common::RunStatus;
use crate::kinematics::{InputParams, MAX_SPEED};
use crate::track::Track;

verus! {

/// Payload of an unrecoverable critical situation.  No critical conditions
/// are defined yet, so the payload carries nothing.
#[derive(Debug, Copy, Clone, PartialEq, Eq, Structural)]
pub struct CriticalAlert {}

/// Undesired states within the assumed error margins.
#[derive(Debug, Copy, Clone, PartialEq, Eq, Structural)]
pub enum UnsafeAlert {
    /// The platform moved faster than the track's speed limit; carries the
    /// observed velocity.
    MaxVelocityExceeded(i64),
}

/// Payload of a warning.  No warning conditions are defined yet, so the
/// payload carries nothing.
#[derive(Debug, Copy, Clone, PartialEq, Eq, Structural)]
pub struct WarnAlert {}

/// A safety alert a platform reports to the centre, by severity.
#[derive(Debug, Copy, Clone, PartialEq, Eq, Structural)]
pub enum Alert {
    /// Unrecoverable critical situation.
    Critical(CriticalAlert),
    /// Undesired state within the assumed error margins.
    Unsafe(UnsafeAlert),
    /// Warning, information.
    Warn(WarnAlert),
}

impl Alert {
    /// Every payload carried by the alert is within the representable
    /// bounds.
    pub open spec fn wf(self) -> bool {
        match self {
            Alert::Unsafe(UnsafeAlert::MaxVelocityExceeded(v)) => -MAX_SPEED <= v
                <= MAX_SPEED,
            _ => true,
        }
    }
}

/// The checks a platform runs on every control cycle's input: for its users
/// to implement with their own safety predicates.
pub trait Monitor<I> {
    /// Inputs on which the implementation's `check` is defined.
    spec fn input_ok(&self, input: I) -> bool;

    fn check(&self, run_status: &RunStatus, input: &I) -> Vec<Alert>
        requires
            self.input_ok(*input),
    ;
}

/// Monitors a single predicate: the platform's own velocity against the
/// track's speed limit.
pub struct SimpleMonitor {
    pub track: Track,
}

impl SimpleMonitor {
    /// Inspect one cycle's input: exactly one `MaxVelocityExceeded` alert,
    /// carrying the observed velocity, while the excess persists; no alert
    /// otherwise.
    pub fn check(&self, run_status: &RunStatus, input: &InputParams) -> (r: Vec<Alert>)
        requires
            self.track.wf(),
            input.wf(),
        ensures
            input.velocity > self.track.max_vel ==> r@ == seq![
                Alert::Unsafe(UnsafeAlert::MaxVelocityExceeded(input.velocity)),
            ],
            input.velocity <= self.track.max_vel ==> r@ == Seq::<Alert>::empty(),
            forall|i: int| 0 <= i < r@.len() ==> (#[trigger] r@[i]).wf(),
    {
        let mut alerts: Vec<Alert> = Vec::new();
        if input.velocity > self.track.max_vel {
            alerts.push(Alert::Unsafe(UnsafeAlert::MaxVelocityExceeded(input.velocity)));
        }
        proof {
            if input.velocity > self.track.max_vel {
                assert(alerts@ == seq![
                    Alert::Unsafe(UnsafeAlert::MaxVelocityExceeded(input.velocity)),
                ]);
            } else {
                assert(alerts@ == Seq::<Alert>::empty());
            }
        }
        alerts
    }
}

impl Monitor<InputParams> for SimpleMonitor {
    open spec fn input_ok(&self, input: InputParams) -> bool {
        self.track.wf() && input.wf()
    }

    fn check(&self, run_status: &RunStatus, input: &InputParams) -> Vec<Alert> {
        SimpleMonitor::check(self, run_status, input)
    }
}

/// One observation of a platform's control input, tagged with the platform
/// and the instant (time units since run start) it was taken.
#[derive(Debug, Copy, Clone)]
pub struct PlatformInfo<I> {
    pub input_params: I,
    pub timestamp: i64,
    pub platform_id: u32,
}

impl<I> PlatformInfo<I> {
    pub fn new(input_params: I, timestamp: i64, platform_id: u32) -> (r: PlatformInfo<I>)
        ensures
            r.input_params == input_params,
            r.timestamp == timestamp,
            r.platform_id == platform_id,
    {
        PlatformInfo { input_params, timestamp, platform_id }
    }
}

} // verus!

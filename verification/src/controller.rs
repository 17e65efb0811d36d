//! The platform controller's per-cycle decision on pure data: compute the
//! acceleration to command and the alerts to send.
//!
//! The continuous loop around it — read the loader, query the run status,
//! apply the setter, send the alerts — is plain plumbing for the caller; its
//! correctness does not depend on the cycle rate, because elapsed-time
//! extrapolation in the state cells covers any span between cycles.

use vstd::prelude::*;
use crate::common::RunStatus;
use crate::kinematics::InputParams;
use crate::monitor::{Alert, SimpleMonitor, UnsafeAlert};
use crate::track::SimpleCalculate;

verus! {

/// Full logic of a platform on pure data: the control law that commands
/// acceleration and the monitor that raises alerts, over one shared track.
pub struct Controller {
    pub calculate_params: SimpleCalculate,
    pub monitor: SimpleMonitor,
}

impl Controller {
    /// Both components are built over the same well-formed track.
    pub open spec fn wf(self) -> bool {
        &&& self.calculate_params.track.wf()
        &&& self.monitor.track == self.calculate_params.track
    }

    /// One control cycle on pure data: from the run status and the current
    /// control input, the acceleration to command — always within the
    /// track's limits — and the alerts to report.
    pub fn cycle(&self, run_status: &RunStatus, input: &InputParams) -> (r: (i64, Vec<
        Alert,
    >))
        requires
            self.wf(),
            input.wf(),
            input.position.length_halves == 2 * self.calculate_params.track.track_length,
        ensures
            r.0 == self.calculate_params.spec_calculate(*run_status, *input),
            self.calculate_params.track.max_deceleration <= r.0
                <= self.calculate_params.track.max_acc,
            input.velocity > self.calculate_params.track.max_vel ==> r.1@ == seq![
                Alert::Unsafe(UnsafeAlert::MaxVelocityExceeded(input.velocity)),
            ],
            input.velocity <= self.calculate_params.track.max_vel ==> r.1@
                == Seq::<Alert>::empty(),
    {
        let acc: i64 = self.calculate_params.calculate(run_status, input);
        let alerts: Vec<Alert> = self.monitor.check(run_status, input);
        (acc, alerts)
    }
}

} // verus!

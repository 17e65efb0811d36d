//! Wire-protocol message shapes and codes for the centre and platform
//! services, the byte framing of alert payloads, and the platform-side
//! run-status handler state.
//!
//! The message shapes are independent of the transport encoding; a typed RPC
//! layer around the library moves them over the wire.  An alert's payload is
//! opaque bytes to the transport; its framing is defined and checked here.

use vstd::prelude::*;
use vstd::bytes::{spec_u64_to_le_bytes, u64_from_le_bytes, u64_to_le_bytes};
use vstd::rwlock::{RwLock, RwLockPredicate};
use crate::common::RunStatus;
use crate::kinematics::MAX_SPEED;
use crate::monitor::{Alert, CriticalAlert, UnsafeAlert, WarnAlert};

verus! {

/// A platform's readiness report, as carried on the wire.
#[derive(Debug, Copy, Clone, PartialEq, Eq, Structural)]
pub struct ImReadyMsg {
    /// A [`ReadyStatus`] code.
    pub ready_status: i32,
    pub platform_id: u32,
}

/// Acknowledgement of a readiness report.
#[derive(Debug, Copy, Clone, PartialEq, Eq, Structural)]
pub struct ImReadyAnswer {}

/// Acknowledgement of a batch of alerts.
#[derive(Debug, Copy, Clone, PartialEq, Eq, Structural)]
pub struct ReceivedAlerts {}

/// Liveness probe to a platform; no side effect.
#[derive(Debug, Copy, Clone, PartialEq, Eq, Structural)]
pub struct PingMsg {}

#[derive(Debug, Copy, Clone, PartialEq, Eq, Structural)]
pub struct PongAnswer {}

/// Order to switch the local run status to Start.
#[derive(Debug, Copy, Clone, PartialEq, Eq, Structural)]
pub struct StartMsg {}

#[derive(Debug, Copy, Clone, PartialEq, Eq, Structural)]
pub struct StartAnswer {}

/// Order to switch the local run status to Stop.
#[derive(Debug, Copy, Clone, PartialEq, Eq, Structural)]
pub struct StopMsg {}

#[derive(Debug, Copy, Clone, PartialEq, Eq, Structural)]
pub struct StopAnswer {}

/// The readiness value a platform reports.
#[derive(Debug, Copy, Clone, PartialEq, Eq, Structural)]
pub enum ReadyStatus {
    ImReadyOk,
    ImNotReadyError,
}

/// Wire code of a readiness value.
pub open spec fn spec_ready_status_code(s: ReadyStatus) -> i32 {
    match s {
        ReadyStatus::ImReadyOk => 0,
        ReadyStatus::ImNotReadyError => 1,
    }
}

/// The readiness value a wire code stands for, if any.
pub open spec fn spec_ready_status_from_code(code: i32) -> Option<ReadyStatus> {
    if code == 0 {
        Some(ReadyStatus::ImReadyOk)
    } else if code == 1 {
        Some(ReadyStatus::ImNotReadyError)
    } else {
        None
    }
}

impl ReadyStatus {
    pub fn code(self) -> (r: i32)
        ensures
            r == spec_ready_status_code(self),
    {
        match self {
            ReadyStatus::ImReadyOk => 0,
            ReadyStatus::ImNotReadyError => 1,
        }
    }

    pub fn from_code(code: i32) -> (r: Option<ReadyStatus>)
        ensures
            r == spec_ready_status_from_code(code),
    {
        if code == 0 {
            Some(ReadyStatus::ImReadyOk)
        } else if code == 1 {
            Some(ReadyStatus::ImNotReadyError)
        } else {
            None
        }
    }
}

/// Every readiness value decodes back from its own wire code.
pub proof fn lemma_ready_status_roundtrip(s: ReadyStatus)
    ensures
        spec_ready_status_from_code(spec_ready_status_code(s)) == Some(s),
{
}

/// Severity tag of an alert, as carried on the wire.
#[derive(Debug, Copy, Clone, PartialEq, Eq, Structural)]
pub enum AlertType {
    Critical,
    Unsafe,
    Warn,
}

/// Wire code of an alert severity.
pub open spec fn spec_alert_type_code(t: AlertType) -> i32 {
    match t {
        AlertType::Critical => 0,
        AlertType::Unsafe => 1,
        AlertType::Warn => 2,
    }
}

impl AlertType {
    pub fn code(self) -> (r: i32)
        ensures
            r == spec_alert_type_code(self),
    {
        match self {
            AlertType::Critical => 0,
            AlertType::Unsafe => 1,
            AlertType::Warn => 2,
        }
    }
}

/// An alert as carried on the wire: a severity code and the encoded payload,
/// opaque to the transport.
#[derive(Debug, Clone, PartialEq, Eq)]
pub struct WireAlert {
    /// An [`AlertType`] code.
    pub alert_type: i32,
    /// The framed payload of the specific alert variant.
    pub message: Vec<u8>,
}

/// Frame tag of a `MaxVelocityExceeded` payload.
pub const TAG_MAX_VELOCITY_EXCEEDED: u8 = 1;

/// The signed velocity is framed with a non-negative offset so the byte
/// encoding needs no sign handling: the payload carries `v + MAX_SPEED`.
pub open spec fn spec_velocity_offset(v: int) -> u64 {
    (v + MAX_SPEED) as u64
}

/// Severity of an alert.
pub open spec fn spec_alert_severity(alert: Alert) -> AlertType {
    match alert {
        Alert::Critical(_) => AlertType::Critical,
        Alert::Unsafe(_) => AlertType::Unsafe,
        Alert::Warn(_) => AlertType::Warn,
    }
}

/// The framed payload bytes of an alert: a tag byte naming the variant,
/// then the variant's values; payload-free variants frame to no bytes.
pub open spec fn spec_alert_payload(alert: Alert) -> Seq<u8> {
    match alert {
        Alert::Unsafe(UnsafeAlert::MaxVelocityExceeded(v)) => seq![
            TAG_MAX_VELOCITY_EXCEEDED,
        ] + spec_u64_to_le_bytes(spec_velocity_offset(v as int)),
        _ => Seq::<u8>::empty(),
    }
}

impl Alert {
    /// Encode the alert for the wire: its severity code and framed payload.
    pub fn to_wire(&self) -> (r: WireAlert)
        requires
            self.wf(),
        ensures
            r.alert_type == spec_alert_type_code(spec_alert_severity(*self)),
            r.message@ == spec_alert_payload(*self),
    {
        match self {
            Alert::Unsafe(UnsafeAlert::MaxVelocityExceeded(v)) => {
                let offset: u64 = (*v + MAX_SPEED) as u64;
                let bytes = u64_to_le_bytes(offset);
                let mut message: Vec<u8> = Vec::new();
                message.push(TAG_MAX_VELOCITY_EXCEEDED);
                let mut rest = bytes;
                let mut i: usize = 0;
                let n: usize = rest.len();
                while i < n
                    invariant
                        0 <= i <= n,
                        n == rest@.len(),
                        message@ == seq![TAG_MAX_VELOCITY_EXCEEDED] + rest@.subrange(
                            0,
                            i as int,
                        ),
                    decreases n - i,
                {
                    message.push(rest[i]);
                    i += 1;
                }
                proof {
                    assert(rest@.subrange(0, n as int) == rest@);
                }
                WireAlert { alert_type: AlertType::Unsafe.code(), message }
            },
            Alert::Critical(_) => WireAlert {
                alert_type: AlertType::Critical.code(),
                message: Vec::new(),
            },
            Alert::Warn(_) => WireAlert {
                alert_type: AlertType::Warn.code(),
                message: Vec::new(),
            },
        }
    }
}

/// Decode a wire alert framed by [`Alert::to_wire`]; `None` when the
/// severity code or the payload frame is not one this library produces.
pub fn decode_wire_alert(wire: &WireAlert) -> (r: Option<Alert>)
    ensures
        match r {
            Some(alert) => alert.wf() && wire.alert_type == spec_alert_type_code(
                spec_alert_severity(alert),
            ) && wire.message@ == spec_alert_payload(alert),
            None => true,
        },
{
    if wire.alert_type == 0 && wire.message.len() == 0 {
        Some(Alert::Critical(CriticalAlert {}))
    } else if wire.alert_type == 2 && wire.message.len() == 0 {
        Some(Alert::Warn(WarnAlert {}))
    } else if wire.alert_type == 1 && wire.message.len() == 9 && wire.message[0]
        == TAG_MAX_VELOCITY_EXCEEDED {
        let mut payload: Vec<u8> = Vec::new();
        let mut i: usize = 1;
        while i < 9
            invariant
                1 <= i <= 9,
                wire.message@.len() == 9,
                payload@ == wire.message@.subrange(1, i as int),
            decreases 9 - i,
        {
            payload.push(wire.message[i]);
            i += 1;
        }
        let offset: u64 = u64_from_le_bytes(payload.as_slice());
        if offset <= 2 * MAX_SPEED as u64 {
            let v: i64 = (offset as i64) - MAX_SPEED;
            proof {
                vstd::bytes::lemma_auto_spec_u64_to_from_le_bytes();
                assert(wire.message@ == seq![TAG_MAX_VELOCITY_EXCEEDED]
                    + wire.message@.subrange(1, 9));
            }
            Some(Alert::Unsafe(UnsafeAlert::MaxVelocityExceeded(v)))
        } else {
            None
        }
    } else {
        None
    }
}

/// Alerts framed for the wire decode back to themselves.
pub proof fn lemma_alert_roundtrip(alert: Alert, wire: WireAlert)
    requires
        alert.wf(),
        wire.alert_type == spec_alert_type_code(spec_alert_severity(alert)),
        wire.message@ == spec_alert_payload(alert),
    ensures
        forall|other: Alert|
            other.wf() && wire.alert_type == spec_alert_type_code(
                spec_alert_severity(other),
            ) && wire.message@ == spec_alert_payload(other) ==> other == alert,
{
    assert forall|other: Alert|
        other.wf() && wire.alert_type == spec_alert_type_code(spec_alert_severity(other))
            && wire.message@ == spec_alert_payload(other) implies other == alert by {
        vstd::bytes::lemma_auto_spec_u64_to_from_le_bytes();
        match (alert, other) {
            (
                Alert::Unsafe(UnsafeAlert::MaxVelocityExceeded(v1)),
                Alert::Unsafe(UnsafeAlert::MaxVelocityExceeded(v2)),
            ) => {
                assert(spec_alert_payload(alert)[0] == TAG_MAX_VELOCITY_EXCEEDED);
                assert(spec_u64_to_le_bytes(spec_velocity_offset(v1 as int))
                    == spec_alert_payload(alert).subrange(1, 9));
                assert(spec_u64_to_le_bytes(spec_velocity_offset(v2 as int))
                    == spec_alert_payload(other).subrange(1, 9));
            },
            _ => {},
        }
    }
}

/// Invariant of the run-status flag's lock: any flag value is admissible.
pub struct FlagInv {}

impl RwLockPredicate<bool> for FlagInv {
    open spec fn inv(self, v: bool) -> bool {
        true
    }
}

/// The run status a stored flag value stands for.
pub open spec fn spec_status_of_flag(flag: bool) -> RunStatus {
    if flag {
        RunStatus::Start
    } else {
        RunStatus::Stop
    }
}

/// The flag value a run status is stored as.
pub open spec fn spec_flag_of_status(status: RunStatus) -> bool {
    match status {
        RunStatus::Start => true,
        RunStatus::Stop => false,
    }
}

/// The two encodings invert each other, so no signal is confused with the
/// other.
pub proof fn lemma_run_status_flag_roundtrip(status: RunStatus, flag: bool)
    ensures
        spec_status_of_flag(spec_flag_of_status(status)) == status,
        spec_flag_of_status(spec_status_of_flag(flag)) == flag,
{
}

/// The platform-side handler state of the platform service: the local run
/// status, written by the start/stop handlers and read (without blocking on
/// the handlers) by the control loop every cycle.
pub struct PlatformServerState {
    run_status: RwLock<bool, FlagInv>,
}

impl PlatformServerState {
    /// A fresh platform starts stopped.
    pub fn new() -> (r: PlatformServerState) {
        PlatformServerState { run_status: RwLock::new(false, Ghost(FlagInv {})) }
    }

    /// The last run status pushed by the centre.  Another handler may store
    /// a new value at any moment; the result is whatever flag value this
    /// read observed.
    pub fn read(&self) -> (r: RunStatus)
        ensures
            exists|flag: bool| r == spec_status_of_flag(flag),
    {
        let handle = self.run_status.acquire_read();
        let flag: bool = *handle.borrow();
        handle.release_read();
        let r = if flag {
            RunStatus::Start
        } else {
            RunStatus::Stop
        };
        proof {
            assert(r == spec_status_of_flag(flag));
        }
        r
    }

    /// Store a new run status.
    pub fn write(&self, value: RunStatus) {
        let flag: bool = match value {
            RunStatus::Start => true,
            RunStatus::Stop => false,
        };
        let (_, handle) = self.run_status.acquire_write();
        handle.release_write(flag);
    }

    /// Liveness probe: no side effect.
    pub fn ping(&self) -> (r: PongAnswer)
        ensures
            r == (PongAnswer {}),
    {
        PongAnswer {}
    }

    /// Handle a start order: switch the local run status to Start.
    pub fn start_signal(&self) -> (r: StartAnswer)
        ensures
            r == (StartAnswer {}),
    {
        self.write(RunStatus::Start);
        StartAnswer {}
    }

    /// Handle a stop order: switch the local run status to Stop.
    pub fn stop_signal(&self) -> (r: StopAnswer)
        ensures
            r == (StopAnswer {}),
    {
        self.write(RunStatus::Stop);
        StopAnswer {}
    }
}

} // verus!

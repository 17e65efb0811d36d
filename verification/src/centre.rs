//! Centre-side coordination: collecting readiness notifications until the
//! whole roster is ready, and aggregating the outcomes of a run-status
//! broadcast.

use vstd::prelude::*;
use crate::common::{ClientError, PlatformID};
use crate::protocol::{spec_ready_status_from_code, ImReadyMsg, ReadyStatus};

verus! {

/// Phase of one run's readiness collection.
#[derive(Debug, Copy, Clone, PartialEq, Eq, Structural)]
pub enum CentrePhase {
    /// Waiting for outstanding platforms to report ready.
    Collecting,
    /// Every platform reported ready; the broadcast was triggered, exactly
    /// once.
    AllReady,
    /// The notification channel closed before the roster was complete; this
    /// run never starts.
    Aborted,
}

/// The centre's readiness coordinator: the set of platforms whose readiness
/// is still outstanding, created from the configured roster at run start,
/// shrinking as notifications arrive, and emptying at most once.
pub struct CentreState {
    outstanding: Vec<PlatformID>,
    phase: CentrePhase,
}

/// No platform occurs twice.
pub open spec fn distinct_ids(s: Seq<PlatformID>) -> bool {
    forall|i: int, j: int| 0 <= i < j < s.len() ==> s[i] != s[j]
}

impl CentreState {
    /// The platforms whose readiness is still outstanding.
    pub closed spec fn spec_outstanding(self) -> Seq<PlatformID> {
        self.outstanding@
    }

    pub closed spec fn spec_phase(self) -> CentrePhase {
        self.phase
    }

    pub open spec fn wf(self) -> bool {
        &&& distinct_ids(self.spec_outstanding())
        &&& (self.spec_phase() == CentrePhase::AllReady ==> self.spec_outstanding().len()
            == 0)
    }

    /// Begin a run: the full roster is outstanding and collection starts.
    pub fn new(roster: Vec<PlatformID>) -> (r: CentreState)
        requires
            distinct_ids(roster@),
        ensures
            r.wf(),
            r.spec_outstanding() == roster@,
            r.spec_phase() == CentrePhase::Collecting,
    {
        CentreState { outstanding: roster, phase: CentrePhase::Collecting }
    }

    /// How many platforms are still outstanding.
    pub fn outstanding_len(&self) -> (r: usize)
        ensures
            r == self.spec_outstanding().len(),
    {
        self.outstanding.len()
    }

    /// The current phase.
    pub fn phase(&self) -> (r: CentrePhase)
        ensures
            r == self.spec_phase(),
    {
        self.phase
    }

    /// Handle a "ready" notification from `platform`: remove it from the
    /// outstanding set.  Returns true exactly when the set just became
    /// empty — the caller must then trigger the broadcast; the transition
    /// to `AllReady` makes it fire at most once per run.
    pub fn note_ready(&mut self, platform: PlatformID) -> (fire: bool)
        requires
            old(self).wf(),
            old(self).spec_phase() == CentrePhase::Collecting,
        ensures
            final(self).wf(),
            final(self).spec_outstanding().to_set() == old(self).spec_outstanding().to_set()
                .remove(platform),
            !final(self).spec_outstanding().contains(platform),
            final(self).spec_outstanding().len() == old(self).spec_outstanding().len() - (
            if old(self).spec_outstanding().contains(platform) {
                1int
            } else {
                0int
            }),
            fire <==> final(self).spec_outstanding().len() == 0,
            final(self).spec_phase() == (if fire {
                CentrePhase::AllReady
            } else {
                CentrePhase::Collecting
            }),
    {
        let ghost old_seq = self.outstanding@;
        let n: usize = self.outstanding.len();
        let mut i: usize = 0;
        let mut found: bool = false;
        while i < n && !found
            invariant
                0 <= i <= n,
                n == old_seq.len(),
                distinct_ids(old_seq),
                !found ==> self.outstanding@ == old_seq && forall|k: int|
                    0 <= k < i ==> old_seq[k] != platform,
                found ==> 0 < i <= n && old_seq[i - 1] == platform && self.outstanding@
                    == old_seq.remove(i - 1),
                self.phase == CentrePhase::Collecting,
            decreases n - i,
        {
            if self.outstanding[i] == platform {
                self.outstanding.remove(i);
                found = true;
            }
            i += 1;
        }
        proof {
            if found {
                let ghost j = i - 1;
                assert(self.outstanding@ == old_seq.remove(j));
                lemma_remove_distinct(old_seq, j);
                lemma_remove_to_set(old_seq, j);
            } else {
                assert(forall|k: int| 0 <= k < old_seq.len() ==> old_seq[k] != platform);
                assert(!old_seq.contains(platform));
                assert(old_seq.to_set().remove(platform) =~= old_seq.to_set());
            }
        }
        let fire: bool = self.outstanding.len() == 0;
        if fire {
            self.phase = CentrePhase::AllReady;
        }
        fire
    }

    /// Handle a "not ready" notification: informational only, the
    /// outstanding set is not altered.
    pub fn note_not_ready(&self, platform: PlatformID) {
    }

    /// The notification channel closed.  During collection this aborts the
    /// run — the broadcast never fires; after completion it changes
    /// nothing.
    pub fn channel_closed(&mut self)
        requires
            old(self).wf(),
        ensures
            final(self).wf(),
            final(self).spec_outstanding() == old(self).spec_outstanding(),
            final(self).spec_phase() == (if old(self).spec_phase()
                == CentrePhase::Collecting {
                CentrePhase::Aborted
            } else {
                old(self).spec_phase()
            }),
    {
        match self.phase {
            CentrePhase::Collecting => {
                self.phase = CentrePhase::Aborted;
            },
            _ => {},
        }
    }
}

/// Removing one element of a duplicate-free sequence keeps it
/// duplicate-free, and the removed value no longer occurs.
proof fn lemma_remove_distinct(s: Seq<PlatformID>, j: int)
    requires
        distinct_ids(s),
        0 <= j < s.len(),
    ensures
        distinct_ids(s.remove(j)),
        !s.remove(j).contains(s[j]),
{
    let r = s.remove(j);
    assert forall|i: int, k: int| 0 <= i < k < r.len() implies r[i] != r[k] by {
        if k < j {
            assert(r[i] == s[i] && r[k] == s[k]);
        } else if i >= j {
            assert(r[i] == s[i + 1] && r[k] == s[k + 1]);
        } else {
            assert(r[i] == s[i] && r[k] == s[k + 1]);
        }
    }
    assert forall|i: int| 0 <= i < r.len() implies r[i] != s[j] by {
        if i < j {
            assert(r[i] == s[i]);
        } else {
            assert(r[i] == s[i + 1]);
        }
    }
    if r.contains(s[j]) {
        let i = choose|i: int| 0 <= i < r.len() && r[i] == s[j];
        assert(false);
    }
}

/// Removing index `j` of a duplicate-free sequence removes exactly the
/// value `s[j]` from the set of elements.
proof fn lemma_remove_to_set(s: Seq<PlatformID>, j: int)
    requires
        distinct_ids(s),
        0 <= j < s.len(),
    ensures
        s.remove(j).to_set() == s.to_set().remove(s[j]),
{
    let r = s.remove(j);
    lemma_remove_distinct(s, j);
    assert forall|x: PlatformID| r.to_set().contains(x) implies s.to_set().remove(
        s[j],
    ).contains(x) by {
        let i = choose|i: int| 0 <= i < r.len() && r[i] == x;
        if i < j {
            assert(s[i] == x);
        } else {
            assert(s[i + 1] == x);
        }
        assert(s.to_set().contains(x));
        assert(x != s[j]);
    }
    assert forall|x: PlatformID| s.to_set().remove(s[j]).contains(x) implies r.to_set()
        .contains(x) by {
        let i = choose|i: int| 0 <= i < s.len() && s[i] == x;
        assert(i != j);
        if i < j {
            assert(r[i] == x);
        } else {
            assert(r[i - 1] == x);
        }
        assert(r.contains(x));
    }
    assert(r.to_set() =~= s.to_set().remove(s[j]));
}

/// What the centre's readiness handler does with one incoming report.
#[derive(Debug, Copy, Clone, PartialEq, Eq, Structural)]
pub enum ReadyAction {
    /// The platform reported ready: mark it ready with the coordinator.
    MarkReady(PlatformID),
    /// The platform reported not ready: informational only, log it.
    NoteNotReady(PlatformID),
    /// The report carried an unknown readiness code: log a warning.
    IgnoreUnknown,
}

/// Decide what one readiness report means: decode its status code and name
/// the effect the handler must apply.
pub fn classify_ready(msg: &ImReadyMsg) -> (r: ReadyAction)
    ensures
        r == (match spec_ready_status_from_code(msg.ready_status) {
            Some(ReadyStatus::ImReadyOk) => ReadyAction::MarkReady(
                PlatformID(msg.platform_id),
            ),
            Some(ReadyStatus::ImNotReadyError) => ReadyAction::NoteNotReady(
                PlatformID(msg.platform_id),
            ),
            None => ReadyAction::IgnoreUnknown,
        }),
{
    match ReadyStatus::from_code(msg.ready_status) {
        Some(ReadyStatus::ImReadyOk) => ReadyAction::MarkReady(PlatformID(msg.platform_id)),
        Some(ReadyStatus::ImNotReadyError) => ReadyAction::NoteNotReady(
            PlatformID(msg.platform_id),
        ),
        None => ReadyAction::IgnoreUnknown,
    }
}

/// Combine the per-platform outcomes of one run-status broadcast: success
/// only when every leg succeeded, otherwise the first failure.  Legs that
/// succeeded still took effect; there is no all-or-nothing semantics.
pub fn combine_leg_outcomes(outcomes: &Vec<Result<(), ClientError>>) -> (r: Result<
    (),
    ClientError,
>)
    ensures
        (forall|i: int| 0 <= i < outcomes@.len() ==> (#[trigger] outcomes@[i]) is Ok) ==> r
            == Result::<(), ClientError>::Ok(()),
        (exists|i: int| 0 <= i < outcomes@.len() && (#[trigger] outcomes@[i]) is Err)
            ==> exists|j: int|
            {
                &&& 0 <= j < outcomes@.len()
                &&& (#[trigger] outcomes@[j]) is Err
                &&& r == outcomes@[j]
                &&& forall|k: int| 0 <= k < j ==> (#[trigger] outcomes@[k]) is Ok
            },
{
    let n: usize = outcomes.len();
    let mut i: usize = 0;
    while i < n
        invariant
            0 <= i <= n,
            n == outcomes@.len(),
            forall|k: int| 0 <= k < i ==> (#[trigger] outcomes@[k]) is Ok,
        decreases n - i,
    {
        match outcomes[i] {
            Ok(_) => {
                i += 1;
            },
            Err(e) => {
                proof {
                    assert(outcomes@[i as int] is Err);
                }
                return Err(e);
            },
        }
    }
    Ok(())
}

} // verus!

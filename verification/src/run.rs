//! Per-plan execution protocol. A `RelayRun` walks a relay plan's targets in
//! order; for each target the driver resolves a proxy identity and performs
//! the send, then records the outcome — success or failure — and the run
//! moves on to the next target. Failures are contained to their own target:
//! recording one never removes, reorders or skips the targets that follow.

use vstd::prelude::*;
use crate::decision::RelayPlan;
use crate::forwarder::{Payload, build_payload, payload_faithful};

verus! {

/// The reported result of one target's resolve-and-forward attempt. Every
/// failure is terminal for that target alone: there is no retry.
#[derive(Clone, Copy, Debug, PartialEq, Eq)]
pub enum TargetOutcome {
    /// The send went through.
    Delivered,
    /// Listing or creating the proxy identity failed; the target is skipped.
    ResolveFailed,
    /// The send itself failed; reported, not retried.
    SendFailed,
}

/// One recorded attempt: which target it was made against, and how it ended.
#[derive(Clone, Copy, Debug, PartialEq, Eq)]
pub struct Attempt {
    /// The target channel attempted.
    pub target: u64,
    /// How the attempt ended.
    pub outcome: TargetOutcome,
}

/// The target presented next by a run over `targets` that has recorded
/// `done` attempts, if any target is left.
pub open spec fn next_target_of(targets: Seq<u64>, done: nat) -> Option<u64> {
    if done < targets.len() {
        Some(targets[done as int])
    } else {
        None
    }
}

/// The targets a run over `targets` with `done` recorded attempts has not
/// attempted yet, in order.
pub open spec fn remaining_of(targets: Seq<u64>, done: nat) -> Seq<u64> {
    if done <= targets.len() {
        targets.skip(done as int)
    } else {
        Seq::empty()
    }
}

/// The execution state of one relay plan: the outbound payload, the targets
/// in plan order, and the attempts recorded so far.
#[derive(Debug)]
pub struct RelayRun {
    /// Payload sent to every target.
    pub payload: Payload,
    /// Target channels, in plan order.
    pub targets: Vec<u64>,
    /// One entry per target already attempted, in the same order.
    pub attempts: Vec<Attempt>,
}

impl RelayRun {
    /// Every attempt so far was made against the plan's target of the same
    /// position, and no target was attempted twice.
    pub open spec fn wf(self) -> bool {
        &&& self.attempts@.len() <= self.targets@.len()
        &&& forall|i: int|
            0 <= i < self.attempts@.len() ==> #[trigger] self.attempts@[i].target
                == self.targets@[i]
    }

    /// The target the run will attempt next, if any.
    pub open spec fn spec_next_target(self) -> Option<u64> {
        next_target_of(self.targets@, self.attempts@.len())
    }

    /// Starts the run for one plan: builds the outbound payload from the
    /// plan's message and readies the plan's targets, none attempted yet.
    pub fn start(plan: RelayPlan) -> (run: RelayRun)
        ensures
            run.wf(),
            run.targets@ == plan.targets@,
            run.attempts@.len() == 0,
            payload_faithful(run.payload, plan.message.author, plan.message.content@),
    {
        let payload = build_payload(&plan.message.author, &plan.message.content);
        RelayRun { payload, targets: plan.targets, attempts: Vec::new() }
    }

    /// The target to attempt next, or `None` when the run is finished.
    pub fn next_target(&self) -> (t: Option<u64>)
        ensures
            t == self.spec_next_target(),
    {
        if self.attempts.len() < self.targets.len() {
            Some(self.targets[self.attempts.len()])
        } else {
            None
        }
    }

    /// Records the outcome of the attempt against the current target and
    /// advances to the next one. Any outcome — delivered or failed —
    /// advances the run the same way: the payload and the targets that
    /// follow are untouched.
    pub fn record(&mut self, outcome: TargetOutcome)
        requires
            old(self).wf(),
            old(self).spec_next_target() is Some,
        ensures
            final(self).wf(),
            final(self).payload == old(self).payload,
            final(self).targets == old(self).targets,
            final(self).attempts@ == old(self).attempts@.push(
                (Attempt {
                    target: old(self).targets@[old(self).attempts@.len() as int],
                    outcome,
                }),
            ),
    {
        let t = self.targets[self.attempts.len()];
        self.attempts.push(Attempt { target: t, outcome });
    }
}

/// Failure isolation: which target comes next, and which targets are still
/// owed an attempt, depend only on how many attempts were recorded — never
/// on whether any of them failed. Two runs over the same targets whose
/// histories differ only in outcomes present the same next target and the
/// same remaining targets.
pub proof fn lemma_failure_isolation(targets: Seq<u64>, a1: Seq<Attempt>, a2: Seq<Attempt>)
    requires
        a1.len() == a2.len(),
    ensures
        next_target_of(targets, a1.len()) == next_target_of(targets, a2.len()),
        remaining_of(targets, a1.len()) == remaining_of(targets, a2.len()),
{
}

/// A finished run made exactly one forward attempt per target: as many
/// attempts as the plan had targets, the i-th attempt against the i-th
/// target, whatever each attempt's outcome was.
pub proof fn lemma_run_covers_targets(run: RelayRun)
    requires
        run.wf(),
        run.spec_next_target() is None,
    ensures
        run.attempts@.len() == run.targets@.len(),
        forall|i: int|
            0 <= i < run.targets@.len() ==> #[trigger] run.attempts@[i].target == run.targets@[i],
{
}

} // verus!

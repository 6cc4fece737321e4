//! The interruptible process runner's decision logic.
//!
//! Running a produced executable races two outcomes: the child process exits
//! on its own, or an event waiter scoped to `{SourceChanged, ShutDown}`
//! resolves. Exactly one side wins. A natural exit yields success or a
//! reported failure according to the exit status; a resolved waiter -- fired
//! or discarded alike -- means the child is killed and the run counts as a
//! successful, intentional stop.

use vstd::prelude::*;
use vstd::string::StringExecFns;
use crate::event::{BusRecv, Event, WaitOutcome, keeps_waiting, waiter_outcome, waiter_step_spec,
    lemma_first_relevant_decides};

verus! {

/// Which of the two racing outcomes resolved first: the supervised child
/// exited by itself (with or without success), or the event waiter's wake
/// signal resolved with the given outcome.
#[derive(Clone, Copy, Debug, PartialEq, Eq, Structural)]
pub enum RaceWinner {
    ChildExited { success: bool },
    WaiterDone { outcome: WaitOutcome },
}

/// What the runner does with the winning outcome: report a completed run,
/// report a failed run, or kill the child and count the run as stopped on
/// purpose.
#[derive(Clone, Copy, Debug, PartialEq, Eq, Structural)]
pub enum RunVerdict {
    CompletedOk,
    Failed,
    Interrupted,
}

/// The error reported when the supervised process exits with a failure
/// status before any event interrupts it. It carries the label the run was
/// started under.
#[derive(Debug)]
pub struct RunError {
    pub label: String,
}

impl RunError {
    /// The human-readable report for this error.
    pub fn message(&self) -> (r: String)
        ensures
            r@ == self.label@ + " failed"@,
    {
        let mut s = self.label.clone();
        s.append(" failed");
        s
    }
}

/// The verdict for each race winner: a natural exit completes the run, with
/// success decided by the exit status; a resolved waiter interrupts it, with
/// the fired and discarded outcomes treated identically.
pub open spec fn verdict_spec(w: RaceWinner) -> RunVerdict {
    match w {
        RaceWinner::ChildExited { success } => if success {
            RunVerdict::CompletedOk
        } else {
            RunVerdict::Failed
        },
        RaceWinner::WaiterDone { outcome: _ } => RunVerdict::Interrupted,
    }
}

/// Whether a verdict is reported to the caller as success: every verdict but
/// a failed natural exit is, interruption included.
pub open spec fn run_result_ok(v: RunVerdict) -> bool {
    v != RunVerdict::Failed
}

/// Decides the verdict for the winning side of the race, exactly as
/// [`verdict_spec`] describes. The caller kills the child if and only if the
/// verdict is `Interrupted`.
pub fn race_verdict(w: &RaceWinner) -> (v: RunVerdict)
    ensures
        v == verdict_spec(*w),
{
    match w {
        RaceWinner::ChildExited { success } => {
            if *success {
                RunVerdict::CompletedOk
            } else {
                RunVerdict::Failed
            }
        },
        RaceWinner::WaiterDone { outcome: _ } => RunVerdict::Interrupted,
    }
}

/// Turns a verdict into the run's reported result: `Ok` unless the child
/// failed on its own, and then an error carrying the run's label.
pub fn verdict_result(label: &str, v: RunVerdict) -> (r: Result<(), RunError>)
    ensures
        r is Ok <==> run_result_ok(v),
        r matches Err(e) ==> e.label@ == label@,
{
    match v {
        RunVerdict::Failed => Err(RunError { label: label.to_owned() }),
        _ => Ok(()),
    }
}

/// A child that exits on its own is never treated as an interruption, so no
/// kill is attempted; a clean exit is reported as success and a failing one
/// as a failure.
pub proof fn lemma_natural_exit_never_kills(success: bool)
    ensures
        verdict_spec(RaceWinner::ChildExited { success }) != RunVerdict::Interrupted,
        success ==> verdict_spec(RaceWinner::ChildExited { success }) == RunVerdict::CompletedOk
            && run_result_ok(verdict_spec(RaceWinner::ChildExited { success })),
        !success ==> verdict_spec(RaceWinner::ChildExited { success }) == RunVerdict::Failed
            && !run_result_ok(verdict_spec(RaceWinner::ChildExited { success })),
{
}

/// The runner treats a fired wake signal and a discarded one identically:
/// both interrupt the run, and the interruption is reported as success.
pub proof fn lemma_wake_outcomes_equivalent(a: WaitOutcome, b: WaitOutcome)
    ensures
        verdict_spec(RaceWinner::WaiterDone { outcome: a }) == verdict_spec(
            RaceWinner::WaiterDone { outcome: b },
        ),
        run_result_ok(verdict_spec(RaceWinner::WaiterDone { outcome: a })),
{
}

/// A source-change event that arrives while the child is still running fires
/// the runner's waiter -- the receptions before it having kept it waiting --
/// so the runner kills the child and reports success, whatever exit status
/// the child would otherwise have produced.
pub proof fn lemma_source_change_interrupts(targets: Seq<Event>, recvs: Seq<BusRecv>, k: int)
    requires
        targets.contains(Event::SourceChanged),
        0 <= k < recvs.len(),
        recvs[k] == BusRecv::Received(Event::SourceChanged),
        forall|i: int| 0 <= i < k ==> keeps_waiting(targets, #[trigger] recvs[i]),
    ensures
        waiter_outcome(targets, recvs) == Some(WaitOutcome::Fired),
        verdict_spec(RaceWinner::WaiterDone { outcome: WaitOutcome::Fired })
            == RunVerdict::Interrupted,
        run_result_ok(RunVerdict::Interrupted),
{
    lemma_first_relevant_decides(targets, recvs, k);
}

/// A shutdown event stops the runner's waiter on the discarded path -- it is
/// never reported as fired, even when shutdown is among the targets -- and
/// the runner still kills the child and reports success.
pub proof fn lemma_shutdown_interrupts(targets: Seq<Event>, recvs: Seq<BusRecv>, k: int)
    requires
        0 <= k < recvs.len(),
        recvs[k] == BusRecv::Received(Event::ShutDown),
        forall|i: int| 0 <= i < k ==> keeps_waiting(targets, #[trigger] recvs[i]),
    ensures
        waiter_outcome(targets, recvs) == Some(WaitOutcome::Discarded),
        verdict_spec(RaceWinner::WaiterDone { outcome: WaitOutcome::Discarded })
            == RunVerdict::Interrupted,
        run_result_ok(RunVerdict::Interrupted),
{
    assert(!keeps_waiting(targets, recvs[k]));
    assert(waiter_step_spec(targets, recvs[k]) is Stop);
    lemma_first_relevant_decides(targets, recvs, k);
}

} // verus!

use vstd::prelude::*;

verus! {

/// What the engine does when a completion action fails: best-effort actions
/// carry `Continue`, the durable one carries `Abort`.
#[derive(Clone, Copy, Debug, PartialEq, Eq, Structural)]
pub enum OnFailure {
    Continue,
    Abort,
}

/// The recorded outcome of one attempted completion action, together with
/// the failure policy it was attempted under.  `result` holds the failure
/// detail when the action failed.
pub struct ActionOutcome {
    pub on_failure: OnFailure,
    pub result: Result<(), String>,
}

impl ActionOutcome {
    pub open spec fn succeeded(self) -> bool {
        self.result is Ok
    }

    /// A failure that marks the whole run as failed.
    pub open spec fn fatal_failure(self) -> bool {
        self.on_failure is Abort && !self.succeeded()
    }
}

/// A run of attempted actions succeeds exactly when no action whose policy
/// is `Abort` has failed; `Continue` actions are best-effort and cannot make
/// the run fail.
pub open spec fn spec_run_succeeds(outcomes: Seq<ActionOutcome>) -> bool {
    forall|i: int| 0 <= i < outcomes.len() ==> !outcomes[i].fatal_failure()
}

/// Evaluate the uniform failure policy over the outcomes of an attempted run.
pub fn run_succeeds(outcomes: &Vec<ActionOutcome>) -> (r: bool)
    ensures
        r == spec_run_succeeds(outcomes@),
{
    let mut i: usize = 0;
    while i < outcomes.len()
        invariant
            0 <= i <= outcomes@.len(),
            forall|j: int| 0 <= j < i ==> !outcomes@[j].fatal_failure(),
        decreases outcomes@.len() - i,
    {
        let outcome = &outcomes[i];
        if matches!(outcome.on_failure, OnFailure::Abort) && outcome.result.is_err() {
            assert(outcomes@[i as int].fatal_failure());
            return false;
        }
        i = i + 1;
    }
    true
}

/// Failure of a best-effort (`Continue`) action never changes whether a run
/// succeeds: two runs with the same policies that agree on the outcome of
/// every `Abort` action succeed or fail together, whatever their best-effort
/// actions did.
pub proof fn lemma_best_effort_failure_isolated(a: Seq<ActionOutcome>, b: Seq<ActionOutcome>)
    requires
        a.len() == b.len(),
        forall|i: int| 0 <= i < a.len() ==> a[i].on_failure == b[i].on_failure,
        forall|i: int|
            0 <= i < a.len() && a[i].on_failure is Abort ==> (a[i].succeeded() == b[
                i
            ].succeeded()),
    ensures
        spec_run_succeeds(a) == spec_run_succeeds(b),
{
    assert forall|i: int| 0 <= i < a.len() implies a[i].fatal_failure() == b[
        i
    ].fatal_failure() by {
        assert(a[i].on_failure == b[i].on_failure);
    }
}

} // verus!

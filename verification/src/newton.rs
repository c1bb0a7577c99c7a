//! The budget of the Newton iterations of an implicit step.

use vstd::prelude::*;
use crate::params::{Fault, OdeError};

verus! {

/// What one Newton iteration came to.
#[derive(Clone, Copy, Debug, PartialEq, Eq, Structural)]
pub enum IterationOutcome {
    /// The linear solve or the evaluation of the system failed
    Failed(Fault),
    /// The scaled increment is below the threshold
    Converged,
    /// The rate of convergence shows that the iteration diverges
    Growing,
    /// Neither converged nor diverging yet
    Unsettled,
}

/// What follows from an iteration.
#[derive(Clone, Copy, Debug, PartialEq, Eq, Structural)]
pub enum NewtonVerdict {
    /// The step fails with this error; no retry
    Abort(OdeError),
    /// The stage values are found
    Finished,
    /// Flag the iterations as diverging and leave the step to be
    /// tried again with a smaller size
    GiveUp,
    /// Iterate once more
    Iterate,
}

/// Counts the Newton iterations of one step against their maximum.
#[derive(Clone, Copy, Debug)]
pub struct NewtonControl {
    /// Max number of iterations per step (≥ 1)
    pub n_iteration_max: usize,
    /// Iterations of the current step so far
    pub iterations: usize,
    /// Whether a further iteration may be started
    pub running: bool,
}

impl NewtonControl {
    /// A running step has budget left; no step ever exceeds it.
    pub open spec fn wf(self) -> bool {
        &&& self.n_iteration_max >= 1
        &&& self.iterations <= self.n_iteration_max
        &&& self.running ==> self.iterations < self.n_iteration_max
    }

    /// The control at the start of a step.
    pub open spec fn started(n_iteration_max: usize) -> NewtonControl {
        NewtonControl { n_iteration_max, iterations: 0, running: true }
    }

    /// The control after one more iteration, and what follows from it.
    pub open spec fn after_iteration(self, outcome: IterationOutcome) -> (
        NewtonControl,
        NewtonVerdict,
    ) {
        let count = (self.iterations + 1) as usize;
        let verdict = match outcome {
            IterationOutcome::Failed(fault) => NewtonVerdict::Abort(fault.as_error()),
            IterationOutcome::Converged => NewtonVerdict::Finished,
            IterationOutcome::Growing => NewtonVerdict::GiveUp,
            IterationOutcome::Unsettled => if count >= self.n_iteration_max {
                NewtonVerdict::GiveUp
            } else {
                NewtonVerdict::Iterate
            },
        };
        (
            NewtonControl { iterations: count, running: verdict is Iterate, ..self },
            verdict,
        )
    }

    /// Starts the iterations of a step.
    pub fn start(n_iteration_max: usize) -> (control: Self)
        requires
            n_iteration_max >= 1,
        ensures
            control == Self::started(n_iteration_max),
            control.wf(),
    {
        NewtonControl { n_iteration_max, iterations: 0, running: true }
    }

    /// Counts one iteration and decides what follows.
    ///
    /// The iterations are given up, and the step with them, exactly when
    /// the iteration diverges or the last iteration allowed has not
    /// converged; a failure of the linear algebra or of the system ends
    /// the step for good.
    pub fn iterate(self, outcome: IterationOutcome) -> (next: (NewtonControl, NewtonVerdict))
        requires
            self.wf(),
            self.running,
        ensures
            next == self.after_iteration(outcome),
            next.0.wf(),
            next.1 is GiveUp <==> outcome is Growing || (outcome is Unsettled && self.iterations
                + 1 == self.n_iteration_max),
            next.1 is Finished <==> outcome is Converged,
    {
        let mut control = self;
        control.iterations += 1;
        let verdict = match outcome {
            IterationOutcome::Failed(fault) => NewtonVerdict::Abort(fault.error()),
            IterationOutcome::Converged => NewtonVerdict::Finished,
            IterationOutcome::Growing => NewtonVerdict::GiveUp,
            IterationOutcome::Unsettled => {
                if control.iterations >= control.n_iteration_max {
                    NewtonVerdict::GiveUp
                } else {
                    NewtonVerdict::Iterate
                }
            },
        };
        control.running = match verdict {
            NewtonVerdict::Iterate => true,
            _ => false,
        };
        (control, verdict)
    }

    /// The control after `k` iterations that settled nothing.
    pub open spec fn after_unsettled(self, k: nat) -> NewtonControl
        decreases k,
    {
        if k == 0 {
            self
        } else {
            self.after_unsettled((k - 1) as nat).after_iteration(IterationOutcome::Unsettled).0
        }
    }
}

/// An iteration that never settles is given up with the last iteration
/// allowed and not before: the `k`-th iteration asks for another one
/// while `k` is below the maximum, and gives up when `k` reaches it.
pub proof fn lemma_budget_is_used_up(n_iteration_max: usize, k: nat)
    requires
        1 <= k <= n_iteration_max,
    ensures
        ({
            let before = NewtonControl::started(n_iteration_max).after_unsettled((k - 1) as nat);
            let (after, verdict) = before.after_iteration(IterationOutcome::Unsettled);
            &&& before.wf()
            &&& before.running
            &&& before.iterations == k - 1
            &&& after.iterations == k
            &&& after.n_iteration_max == n_iteration_max
            &&& after.running == (k < n_iteration_max)
            &&& after.wf()
            &&& verdict == if k == n_iteration_max {
                NewtonVerdict::GiveUp
            } else {
                NewtonVerdict::Iterate
            }
        }),
    decreases k,
{
    let start = NewtonControl::started(n_iteration_max);
    if k > 1 {
        lemma_budget_is_used_up(n_iteration_max, (k - 1) as nat);
        assert(start.after_unsettled((k - 1) as nat) == start.after_unsettled(
            (k - 2) as nat,
        ).after_iteration(IterationOutcome::Unsettled).0);
    } else {
        assert(start.after_unsettled(0) == start);
    }
}

} // verus!

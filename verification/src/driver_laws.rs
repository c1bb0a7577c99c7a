//! What holds of every solve, whatever the stepping strategy reports.

use vstd::prelude::*;
use crate::binary64::{
    is_nan,
    lemma_less_is_order_of_values,
    less_equal,
    lesser,
    scaled_value,
    ONE,
};
use crate::ode_solver::{SolveArguments, SolverState, StepReport};
use crate::params::Params;
use crate::workspace::{
    plan_for,
    CommitOutcome,
    EqualOutcome,
    Plan,
    Progress,
    SolveRequest,
    Stage,
    StepOutcome,
    Verdict,
    Workspace,
};

verus! {

/// Anything that can be reported to the driver.
#[derive(Clone, Copy, Debug, PartialEq, Eq, Structural)]
pub enum Event {
    /// A fixed-size step
    Equal(EqualOutcome),
    /// The check of the size of the next trial step: whether it has collapsed
    Size(bool),
    /// A trial step of variable stepping
    Step(StepOutcome),
    /// The commit of an accepted step
    Commit(CommitOutcome),
}

impl Workspace {
    /// The state after one event. An event for which the driver is not
    /// waiting changes nothing.
    pub open spec fn react(self, params: Params, event: Event) -> Workspace {
        match event {
            Event::Equal(outcome) => if self.stage == Stage::EqualStep {
                self.after_equal_step(outcome).0
            } else {
                self
            },
            Event::Size(underflow) => if self.stage == Stage::Attempt {
                self.after_size_check(underflow).0
            } else {
                self
            },
            Event::Step(outcome) => if self.stage == Stage::Trial {
                self.after_attempt(params, outcome).0
            } else {
                self
            },
            Event::Commit(outcome) => if self.stage == Stage::Commit {
                self.after_commit(params, outcome).0
            } else {
                self
            },
        }
    }

    /// The state after a sequence of events.
    pub open spec fn replay(self, params: Params, events: Seq<Event>) -> Workspace
        decreases events.len(),
    {
        if events.len() == 0 {
            self
        } else {
            self.replay(params, events.drop_last()).react(params, events.last())
        }
    }

    /// The state after `k` fixed-size steps that all succeeded.
    pub open spec fn after_equal_steps(self, k: nat) -> Workspace
        decreases k,
    {
        if k == 0 {
            self
        } else {
            self.after_equal_steps((k - 1) as nat).after_equal_step(EqualOutcome::Done).0
        }
    }

    /// What holds at every moment of a solve in variable stepping, also
    /// after it ended.
    pub open spec fn within_budget(self, n_step_max: usize) -> bool {
        &&& self.consistent(n_step_max)
        &&& self.stage != Stage::EqualStep
        &&& self.performed() <= n_step_max
        &&& self.accepted() + self.rejected() <= self.performed()
        &&& self.attempts <= n_step_max
    }
}

/// Equal stepping takes exactly the planned number of steps: after `k`
/// of `n` planned steps, `k` steps were performed, all of them accepted
/// and none rejected, `n - k` remain, and the solve is over exactly when
/// `k` reaches `n`. The step that brings `k` to `n` reports convergence,
/// every earlier one asks for another step.
pub proof fn lemma_equal_stepping_counts(n: usize, k: nat)
    requires
        1 <= k <= n,
    ensures
        ({
            let before = Workspace::started(Plan::Equal(n)).after_equal_steps((k - 1) as nat);
            let (after, progress) = before.after_equal_step(EqualOutcome::Done);
            &&& before.stage == Stage::EqualStep
            &&& after == Workspace::started(Plan::Equal(n)).after_equal_steps(k)
            &&& after.performed() == k
            &&& after.accepted() == k
            &&& after.rejected() == 0
            &&& after.remaining == n - k
            &&& after.stage == if k == n {
                Stage::Idle
            } else {
                Stage::EqualStep
            }
            &&& progress == if k == n {
                Progress::Converged
            } else {
                Progress::Continue
            }
        }),
    decreases k,
{
    if k > 1 {
        lemma_equal_stepping_counts(n, (k - 1) as nat);
    }
}

/// With a prescribed step size a solve that is taken performs as many
/// steps as the ceiling of the quotient of the interval and the step
/// size says, each of them accepted, and then has converged.
pub proof fn lemma_prescribed_steps_are_the_ceiling(
    state: SolverState,
    args: SolveArguments,
    k: nat,
)
    requires
        args.h_equal is Some,
        state.begun(args).1 is Ok,
        1 <= k <= crate::binary64::ceiling_count(args.h_equal->Some_0.quotient),
    ensures
        ({
            let n = crate::binary64::ceiling_count(args.h_equal->Some_0.quotient);
            let started = state.begun(args).0.work;
            let (after, progress) = started.after_equal_steps((k - 1) as nat).after_equal_step(
                EqualOutcome::Done,
            );
            &&& 0 <= n <= usize::MAX
            &&& state.begun(args).1 == Ok::<Plan, crate::params::OdeError>(Plan::Equal(n as usize))
            &&& after.performed() == k
            &&& after.accepted() == k
            &&& after.rejected() == 0
            &&& (progress == Progress::Converged) == (k == n)
            &&& (after.stage == Stage::Idle) == (k == n)
        }),
{
    let q = args.h_equal->Some_0.quotient;
    let n = crate::binary64::ceiling_count(q);
    assert(0 <= n <= usize::MAX) by {
        if !(is_nan(q) || crate::binary64::order_key(q) <= 0) {
            vstd::arithmetic::power2::lemma_pow2_pos(1074);
            crate::binary64::lemma_less_is_order_of_values(crate::binary64::ZERO, q);
            let v = scaled_value(q);
            let u = crate::binary64::unit();
            assert(scaled_value(crate::binary64::ZERO) == 0);
            vstd::arithmetic::div_mod::lemma_div_pos_is_pos(v + u - 1, u);
        }
    }
    lemma_equal_stepping_counts(n as usize, k);
}

/// A method without an error estimator, left to choose its own steps,
/// takes the fixed number of equal steps; a prescribed step size makes
/// every method take the number of steps that fits the interval.
pub proof fn lemma_plan_of_equal_steps(params: Params, request: SolveRequest)
    ensures
        request.h_equal matches crate::workspace::StepChoice::Count(n) ==> plan_for(
            params.method,
            request.h_equal,
        ) == Plan::Equal(n),
        request.h_equal is Automatic && !params.method.is_embedded() ==> plan_for(
            params.method,
            request.h_equal,
        ) == Plan::Equal(crate::params::N_EQUAL_STEPS),
        request.h_equal is Automatic && params.method.is_embedded() ==> plan_for(
            params.method,
            request.h_equal,
        ) == Plan::Variable,
{
}

/// A trial step whose error is within tolerance is accepted and counted;
/// one whose error is not is turned down: the number of accepted steps
/// stays, the next step is not the last, and if the solve goes on, the
/// next accepted step may not enlarge the step size.
pub proof fn lemma_acceptance(work: Workspace, params: Params, within_tolerance: bool)
    requires
        work.stage == Stage::Trial,
        work.consistent(params.n_step_max),
    ensures
        ({
            let (next, verdict) = work.after_attempt(
                params,
                StepOutcome::Estimated { within_tolerance },
            );
            &&& within_tolerance ==> {
                &&& verdict == (Verdict::Accept { clamp_growth: work.follows_reject_step })
                &&& next.stage == Stage::Commit
                &&& next.accepted() == work.accepted() + 1
                &&& next.rejected() == work.rejected()
            }
            &&& !within_tolerance ==> {
                &&& !(verdict is Accept)
                &&& next.stage != Stage::Commit
                &&& next.accepted() == work.accepted()
                &&& next.follows_reject_step
                &&& !next.last_step
                &&& next.stage == Stage::Attempt ==> next.after_size_check(false).0.after_attempt(
                    params,
                    StepOutcome::Estimated { within_tolerance: true },
                ).1 == (Verdict::Accept { clamp_growth: true })
            }
        }),
{
}

/// Acceptance goes by the value of the relative error: a computed step
/// is accepted exactly when its relative error is a number and its
/// value is below the value of one.
pub proof fn lemma_accepted_iff_error_below_one(work: Workspace, params: Params, rel_error: u64)
    requires
        work.stage == Stage::Trial,
        work.consistent(params.n_step_max),
    ensures
        work.after_attempt(params, (StepReport::Estimated { rel_error }).outcome()).1 is Accept
            <==> !is_nan(rel_error) && scaled_value(rel_error) < scaled_value(ONE),
{
    if !is_nan(rel_error) {
        lemma_less_is_order_of_values(rel_error, ONE);
    }
}

/// A step size that may not grow does not: held against the size of
/// the step just taken, the size to go on with is not above it, and is
/// the suggested size unless that is above.
pub proof fn lemma_growth_is_held_back(suggested: u64, h: u64)
    requires
        !is_nan(suggested),
        !is_nan(h),
    ensures
        less_equal(lesser(suggested, h), h),
        scaled_value(lesser(suggested, h)) <= scaled_value(h),
        less_equal(suggested, h) ==> lesser(suggested, h) == suggested,
{
    lemma_less_is_order_of_values(lesser(suggested, h), h);
}

/// Diverging iterations are handled like a rejection that bypasses the
/// error test: the station is kept, nothing is counted as accepted or
/// rejected, and growth of the step size is forbidden.
pub proof fn lemma_divergence_retries(work: Workspace, params: Params)
    requires
        work.stage == Stage::Trial,
        work.consistent(params.n_step_max),
    ensures
        ({
            let (next, verdict) = work.after_attempt(params, StepOutcome::Diverging);
            &&& next.accepted() == work.accepted()
            &&& next.rejected() == work.rejected()
            &&& next.performed() == work.performed() + 1
            &&& next.follows_reject_step
            &&& !next.last_step
            &&& verdict == if work.attempts + 1 >= params.n_step_max {
                Verdict::Abort(crate::params::OdeError::MaxStepsExceeded)
            } else {
                Verdict::ShrinkDiverging
            }
        }),
{
}

/// One event keeps a solve in variable stepping within its budget.
pub proof fn lemma_react_within_budget(work: Workspace, params: Params, event: Event)
    requires
        params.valid(),
        work.within_budget(params.n_step_max),
    ensures
        work.react(params, event).within_budget(params.n_step_max),
{
}

/// Whatever is reported, and in whatever order, a solve in variable
/// stepping never performs more steps than the configured maximum, and
/// never accepts and rejects more steps than it performed.
pub proof fn lemma_variable_stepping_bounded(params: Params, events: Seq<Event>)
    requires
        params.valid(),
    ensures
        ({
            let work = Workspace::started(Plan::Variable).replay(params, events);
            &&& work.within_budget(params.n_step_max)
            &&& work.performed() <= params.n_step_max
            &&& work.accepted() + work.rejected() <= work.performed()
        }),
    decreases events.len(),
{
    if events.len() > 0 {
        lemma_variable_stepping_bounded(params, events.drop_last());
        lemma_react_within_budget(
            Workspace::started(Plan::Variable).replay(params, events.drop_last()),
            params,
            events.last(),
        );
    }
}

/// Every trial step uses up one unit of the budget unless it ends the
/// solve, and the driver asks for a further trial only while the budget
/// lasts; so the events of one solve hold at most as many trial steps as
/// the configured maximum.
pub proof fn lemma_attempt_uses_budget(work: Workspace, params: Params, outcome: StepOutcome)
    requires
        work.stage == Stage::Trial,
        work.consistent(params.n_step_max),
    ensures
        ({
            let next = work.after_attempt(params, outcome).0;
            &&& next.stage == Stage::Idle || next.attempts == work.attempts + 1
            &&& next.stage == Stage::Attempt ==> next.attempts < params.n_step_max
        }),
{
}

/// What refuses a solve is a fault of its arguments, and what refuses a
/// configuration is a fault of the configuration.
pub proof fn lemma_refusals_are_classified(state: SolverState, args: SolveArguments, params: Params)
    ensures
        state.begun(args).1 is Err ==> state.begun(args).1->Err_0.is_invalid_input()
            && state.begun(args).0 == state,
        params.fault() is Some ==> params.fault()->Some_0.is_config_validation(),
{
}

/// A solve does not depend on what was solved before: two drivers of the
/// same configuration and dimension, in whatever state earlier solves
/// left them, give the same answer to the same request, and if they take
/// it, they are in the same state after it and after the same events.
pub proof fn lemma_repeated_solve_same(
    one: SolverState,
    other: SolverState,
    request: SolveArguments,
    events: Seq<Event>,
)
    requires
        one.params == other.params,
        one.ndim == other.ndim,
    ensures
        one.begun(request).1 == other.begun(request).1,
        one.begun(request).1 is Ok ==> {
            &&& one.begun(request).0 == other.begun(request).0
            &&& one.begun(request).0.work.replay(one.params, events) == other.begun(
                request,
            ).0.work.replay(other.params, events)
        },
{
}

} // verus!

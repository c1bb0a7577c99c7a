//! The driver of the ODE solver: it decides, event by event, whether a
//! step is taken, kept or tried again, and when the solve is over.
//!
//! Real numbers come in as the bits of binary64 numbers. The driver
//! compares them and never computes with them: `solve` runs the loop and
//! leaves the arithmetic, the stepping strategy and the output to an
//! implementation of `Numerics`. The single decisions of the loop are
//! public as well, for callers that run a loop of their own.

use vstd::prelude::*;
use crate::bench_info::{BenchInfo, Phase, StrategyCounts};
use crate::binary64::{
    abs,
    ceil_count,
    ceiling_count,
    le,
    less,
    less_equal,
    lesser,
    lt,
    min,
    EPSILON,
    ONE,
    TENTH,
    TEN_EPSILON,
    ZERO,
};
use crate::ode_system::OdeSystem;
use crate::params::{Fault, OdeError, Params, N_EQUAL_STEPS};
use crate::workspace::{
    plan_for,
    refusal,
    CommitOutcome,
    EqualOutcome,
    Plan,
    Progress,
    SolveRequest,
    Stage,
    StepChoice,
    StepOutcome,
    Verdict,
    Workspace,
};

verus! {

/// A step size prescribed by the caller.
#[derive(Clone, Copy, Debug)]
pub struct Prescribed {
    /// The step size asked for
    pub h: u64,
    /// The length of the interval divided by the step size asked for
    pub quotient: u64,
}

/// The arguments of a solve, as far as the driver looks at them.
#[derive(Clone, Copy, Debug)]
pub struct SolveArguments {
    /// Dimension of the state vector that was handed in
    pub y_dim: usize,
    /// The initial station
    pub x0: u64,
    /// The final station
    pub x1: u64,
    /// A constant step size for equal stepping, if one is prescribed
    pub h_equal: Option<Prescribed>,
}

/// What the stepping strategy reports of one trial step.
#[derive(Clone, Copy, Debug, PartialEq, Eq, Structural)]
pub enum StepReport {
    /// The strategy failed
    Failed(Fault),
    /// The iterations of an implicit strategy do not converge
    Diverging,
    /// The step was computed, with this relative error
    Estimated { rel_error: u64 },
}

/// What is reported of the commit of an accepted step.
#[derive(Clone, Copy, Debug, PartialEq, Eq, Structural)]
pub enum CommitReport {
    /// The strategy or the output failed while committing
    Failed(Fault),
    /// The station advanced. `reach` is the new station plus the next
    /// step size, `gap` the distance of the new station from the final one.
    Advanced { reach: u64, gap: u64 },
}

impl SolveArguments {
    /// The facts that the driver decides on: the interval is reversed if
    /// the final station is less than the initial one, and a prescribed
    /// step size counts only if zero is less than it. The interval then
    /// takes as many steps as the ceiling of the quotient says.
    pub open spec fn facts(self) -> SolveRequest {
        SolveRequest {
            y_dim: self.y_dim,
            reversed: less(self.x1, self.x0),
            h_equal: match self.h_equal {
                None => StepChoice::Automatic,
                Some(prescribed) => if less(ZERO, prescribed.h) {
                    StepChoice::Count(ceiling_count(prescribed.quotient) as usize)
                } else {
                    StepChoice::NonPositive
                },
            },
        }
    }
}

impl StepReport {
    /// What the report comes to: a computed step is within tolerance
    /// exactly if its relative error is less than one.
    pub open spec fn outcome(self) -> StepOutcome {
        match self {
            StepReport::Failed(fault) => StepOutcome::Failed(fault),
            StepReport::Diverging => StepOutcome::Diverging,
            StepReport::Estimated { rel_error } => StepOutcome::Estimated {
                within_tolerance: less(rel_error, ONE),
            },
        }
    }
}

impl CommitReport {
    /// What the report comes to for a solve that ends at `x_end`: the
    /// next step reaches the end if the final station is not above
    /// `reach`, and the station is the final one if `gap` is not above
    /// ten times the machine epsilon.
    pub open spec fn outcome(self, x_end: u64) -> CommitOutcome {
        match self {
            CommitReport::Failed(fault) => CommitOutcome::Failed(fault),
            CommitReport::Advanced { reach, gap } => CommitOutcome::Advanced {
                reaches_end: less_equal(x_end, reach),
                at_end: less_equal(gap, TEN_EPSILON),
            },
        }
    }
}

/// The step size has fallen below the resolution of the station: it is
/// less than `floor`, a tenth of the station's magnitude times the
/// machine epsilon.
pub open spec fn step_size_underflows(h: u64, floor: u64) -> bool {
    less(h, floor)
}

/// What committing a step leaves behind.
#[derive(Clone, Copy, Debug)]
pub struct Accepted {
    /// The new station
    pub x: u64,
    /// The step size that the strategy suggests to go on with
    pub h_new: u64,
}

/// The work that the driver leaves to the owner of the numbers: the
/// arithmetic, the stepping strategy, and the output.
///
/// The driver relies on nothing that these functions return. Whatever
/// comes back, it keeps to its rules.
pub trait Numerics {
    /// Returns `a + b`
    fn sum(&self, a: u64, b: u64) -> u64;

    /// Returns `a - b`
    fn difference(&self, a: u64, b: u64) -> u64;

    /// Returns `a · b`
    fn product(&self, a: u64, b: u64) -> u64;

    /// Returns `a / b`
    fn ratio(&self, a: u64, b: u64) -> u64;

    /// Returns the number nearest to a count
    fn from_count(&self, n: usize) -> u64;

    /// Computes a trial step of size `h` from station `x` and state `y`,
    /// without touching either
    fn step(&mut self, x: u64, y: &Vec<u64>, h: u64) -> StepReport;

    /// Commits the trial step into `y`
    fn accept(&mut self, x: u64, y: &mut Vec<u64>, h: u64) -> Result<Accepted, Fault>;

    /// Returns the smaller step size with which a rejected step of
    /// size `h` is to be tried again
    fn reject(&mut self, h: u64) -> u64;

    /// Returns the counters of the strategy
    fn counts(&self) -> StrategyCounts;

    /// Records station `x`, state `y` and step size `h`
    fn push(&mut self, x: u64, y: &Vec<u64>, h: u64) -> Result<(), Fault>;

    /// Returns the nanoseconds that have passed since a fixed moment
    fn nanos(&self) -> u128;
}

/// The time from one reading of a clock to a later one; nothing if the
/// clock went backwards.
pub open spec fn elapsed(from: u128, to: u128) -> u128 {
    if to >= from {
        (to - from) as u128
    } else {
        0
    }
}

/// Returns the time from one reading of a clock to a later one
fn time_between(from: u128, to: u128) -> (nanos: u128)
    ensures
        nanos == elapsed(from, to),
{
    if to >= from {
        to - from
    } else {
        0
    }
}

/// What a driver consists of.
pub struct SolverState {
    /// The configuration, fixed at construction
    pub params: Params,
    /// The dimension of the system, fixed at construction
    pub ndim: usize,
    /// The final station of the solve in progress, or of the last one
    pub x_end: u64,
    /// The state of the solve in progress, or of the last one
    pub work: Workspace,
}

/// Implements the driver of a numerical solver for systems of ODEs.
///
/// The driver owns the decisions; the numbers stay with the caller, who
/// runs the stepping strategy and reports each result:
///
/// 1. `begin` checks the arguments and chooses equal or variable stepping.
/// 2. Equal stepping: report each step to `equal_step`.
/// 3. Variable stepping: have the size of each trial step checked by
///    `check_step_size`, report the step to `judge` and carry out its
///    verdict; after `Accept`, commit the step and report to `commit`.
pub struct OdeSolver {
    /// Holds the parameters
    params: Params,
    /// Dimension of the ODE system
    ndim: usize,
    /// The final station
    x_end: u64,
    /// Holds benchmark and work variables
    work: Workspace,
}

impl SolverState {
    /// The driver after it was asked to start a solve, and its answer.
    ///
    /// A request that is refused changes nothing. One that is taken
    /// replaces the whole state of the earlier solve.
    pub open spec fn begun(self, args: SolveArguments) -> (SolverState, Result<Plan, OdeError>) {
        match refusal(self.ndim, args.facts()) {
            Some(e) => (self, Err(e)),
            None => {
                let plan = plan_for(self.params.method, args.facts().h_equal);
                (
                    SolverState { work: Workspace::started(plan), x_end: args.x1, ..self },
                    Ok(plan),
                )
            },
        }
    }
}

impl View for OdeSolver {
    type V = SolverState;

    closed spec fn view(&self) -> SolverState {
        SolverState { params: self.params, ndim: self.ndim, x_end: self.x_end, work: self.work }
    }
}

impl OdeSolver {
    /// The configuration is valid and the state is one that the rules of
    /// the driver lead to.
    #[verifier::type_invariant]
    pub closed spec fn wf(&self) -> bool {
        self.params.valid() && self.work.consistent(self.params.n_step_max)
    }

    /// Allocates a new instance
    ///
    /// # Input
    ///
    /// * `params` -- holds all parameters, including the selection of the numerical method
    /// * `system` -- defines the ODE system
    pub fn new(params: Params, system: &OdeSystem) -> (res: Result<Self, OdeError>)
        ensures
            match params.fault() {
                Some(e) => res is Err && res->Err_0 == e,
                None => res is Ok && res->Ok_0@ == (SolverState {
                    params,
                    ndim: system.ndim,
                    x_end: ZERO,
                    work: Workspace::fresh(),
                }),
            },
    {
        match params.validate() {
            Err(e) => Err(e),
            Ok(_) => Ok(
                OdeSolver { params, ndim: system.ndim, x_end: ZERO, work: Workspace::new() },
            ),
        }
    }

    /// Returns some benchmarking data
    pub fn bench(&self) -> (bench: &BenchInfo)
        ensures
            *bench == self@.work.bench,
    {
        &self.work.bench
    }

    /// Returns what the driver is waiting for
    pub fn stage(&self) -> (stage: Stage)
        ensures
            stage == self@.work.stage,
    {
        self.work.stage
    }

    /// Tells whether the last trial step was turned down
    pub fn follows_reject_step(&self) -> (flag: bool)
        ensures
            flag == self@.work.follows_reject_step,
    {
        self.work.follows_reject_step
    }

    /// Returns the strategy that has to carry out the steps
    pub fn strategy(&self) -> (strategy: crate::params::Strategy)
        ensures
            strategy == self@.params.method.carried_out_by(),
    {
        self.params.method.strategy()
    }

    /// Returns the parameters
    pub fn params(&self) -> (params: Params)
        ensures
            params == self@.params,
    {
        self.params
    }

    /// Returns the dimension of the system
    pub fn ndim(&self) -> (ndim: usize)
        ensures
            ndim == self@.ndim,
    {
        self.ndim
    }

    /// Returns the size of the first step of variable stepping: the
    /// initial step size of the configuration, or the length of the
    /// interval if that is less.
    pub fn initial_step_size(&self, span: u64) -> (h: u64)
        ensures
            h == lesser(self@.params.h_ini, span),
    {
        min(self.params.h_ini, span)
    }

    /// Returns the size of the next trial step: the step size that
    /// was suggested, or what remains of the interval if that is less.
    pub fn trial_step_size(&self, h_new: u64, remaining: u64) -> (h: u64)
        ensures
            h == lesser(h_new, remaining),
    {
        min(h_new, remaining)
    }

    /// Returns the step size to go on with after an accepted step of
    /// size `h`: the size that the strategy suggests, but not more than
    /// `h` if the step before was turned down.
    pub fn accepted_step_size(&self, suggested: u64, h: u64) -> (h_new: u64)
        ensures
            h_new == if self@.work.follows_reject_step {
                lesser(suggested, h)
            } else {
                suggested
            },
    {
        if self.work.follows_reject_step {
            min(suggested, h)
        } else {
            suggested
        }
    }

    /// Records the duration of a phase of the solve in progress.
    ///
    /// The steps that were counted are not touched.
    pub fn record_time(&mut self, phase: Phase, nanos: u128)
        ensures
            final(self)@ == (SolverState {
                work: Workspace {
                    bench: old(self)@.work.bench.timed(phase, nanos),
                    ..old(self)@.work
                },
                ..old(self)@
            }),
    {
        proof {
            use_type_invariant(&*self);
        }
        let mut work = self.work;
        work.bench.record_time(phase, nanos);
        self.work = work;
    }

    /// Takes over the counters that the stepping strategy kept.
    ///
    /// The steps that were counted are not touched.
    pub fn record_counts(&mut self, counts: StrategyCounts)
        ensures
            final(self)@ == (SolverState {
                work: Workspace {
                    bench: old(self)@.work.bench.counted(counts),
                    ..old(self)@.work
                },
                ..old(self)@
            }),
    {
        proof {
            use_type_invariant(&*self);
        }
        let mut work = self.work;
        work.bench.record_counts(counts);
        self.work = work;
    }

    /// Starts a solve.
    ///
    /// The dimension of the state vector must be that of the system, the
    /// final station must not be less than the initial one, and a
    /// prescribed step size must be positive. A solve that is refused
    /// changes nothing. One that is taken wipes the state of any
    /// earlier solve, so that nothing of it leaks into this one, and
    /// answers with the mode of stepping.
    pub fn begin(&mut self, args: SolveArguments) -> (res: Result<Plan, OdeError>)
        ensures
            (final(self)@, res) == old(self)@.begun(args),
    {
        proof {
            use_type_invariant(&*self);
        }
        if args.y_dim != self.ndim {
            return Err(OdeError::DimensionMismatch);
        }
        if lt(args.x1, args.x0) {
            return Err(OdeError::ReversedInterval);
        }
        let plan = match args.h_equal {
            Some(prescribed) => {
                if !lt(ZERO, prescribed.h) {
                    return Err(OdeError::NonPositiveStep);
                }
                Plan::Equal(ceil_count(prescribed.quotient))
            },
            None => {
                if self.params.method.embedded() {
                    Plan::Variable
                } else {
                    Plan::Equal(N_EQUAL_STEPS)
                }
            },
        };
        self.x_end = args.x1;
        self.work = Workspace::start(plan, self.params.n_step_max);
        Ok(plan)
    }

    /// Records one fixed-size step.
    ///
    /// Every step counts as performed, and as accepted unless the
    /// strategy failed to compute it; none is ever rejected. The solve
    /// has converged when the last of the planned steps is done.
    pub fn equal_step(&mut self, outcome: EqualOutcome) -> (progress: Progress)
        requires
            old(self)@.work.stage == Stage::EqualStep,
        ensures
            final(self)@.params == old(self)@.params,
            final(self)@.ndim == old(self)@.ndim,
            final(self)@.x_end == old(self)@.x_end,
            (final(self)@.work, progress) == old(self)@.work.after_equal_step(outcome),
    {
        proof {
            use_type_invariant(&*self);
        }
        let (work, progress) = self.work.equal_step(outcome, self.params.n_step_max);
        self.work = work;
        progress
    }

    /// Admits the next trial step unless its size has collapsed.
    ///
    /// # Input
    ///
    /// * `h` -- the size of the step
    /// * `floor` -- a tenth of the magnitude of the station times the machine epsilon
    ///
    /// A size below the floor ends the solve; no step is tried or counted.
    pub fn check_step_size(&mut self, h: u64, floor: u64) -> (res: Result<
        (),
        OdeError,
    >)
        requires
            old(self)@.work.stage == Stage::Attempt,
        ensures
            final(self)@.params == old(self)@.params,
            final(self)@.ndim == old(self)@.ndim,
            final(self)@.x_end == old(self)@.x_end,
            final(self)@.work == old(self)@.work.after_size_check(
                step_size_underflows(h, floor),
            ).0,
            res == match old(self)@.work.after_size_check(
                step_size_underflows(h, floor),
            ).1 {
                Some(e) => Err::<(), OdeError>(e),
                None => Ok::<(), OdeError>(()),
            },
    {
        proof {
            use_type_invariant(&*self);
        }
        let (work, error) = self.work.check_step_size(
            lt(h, floor),
            self.params.n_step_max,
        );
        self.work = work;
        match error {
            Some(e) => Err(e),
            None => Ok(()),
        }
    }

    /// Judges one trial step of variable stepping.
    ///
    /// The step is accepted exactly when its error was estimated and is
    /// less than one. A step that is turned down leaves the number of
    /// accepted steps as it was and forbids the next accepted step to
    /// enlarge the step size. Once the allowed number of steps is used
    /// up, turning a step down ends the solve.
    pub fn judge(&mut self, report: StepReport) -> (verdict: Verdict)
        requires
            old(self)@.work.stage == Stage::Trial,
        ensures
            final(self)@.params == old(self)@.params,
            final(self)@.ndim == old(self)@.ndim,
            final(self)@.x_end == old(self)@.x_end,
            (final(self)@.work, verdict) == old(self)@.work.after_attempt(
                old(self)@.params,
                report.outcome(),
            ),
            verdict is Accept <==> report is Estimated && less(report->rel_error, ONE),
    {
        proof {
            use_type_invariant(&*self);
        }
        let outcome = match report {
            StepReport::Failed(fault) => StepOutcome::Failed(fault),
            StepReport::Diverging => StepOutcome::Diverging,
            StepReport::Estimated { rel_error } => StepOutcome::Estimated {
                within_tolerance: lt(rel_error, ONE),
            },
        };
        let (work, verdict) = self.work.judge(&self.params, outcome);
        self.work = work;
        verdict
    }

    /// Gives up the solve in progress for a failure outside its steps.
    pub fn abandon(&mut self, fault: Fault) -> (error: OdeError)
        ensures
            final(self)@ == (SolverState {
                work: Workspace { stage: Stage::Idle, ..old(self)@.work },
                ..old(self)@
            }),
            error == fault.as_error(),
    {
        proof {
            use_type_invariant(&*self);
        }
        self.work = self.work.abandon();
        fault.error()
    }

    /// Records that an accepted step was committed.
    ///
    /// The solve converges when the station that the step reached is the
    /// final station. A step whose successor would reach the final
    /// station announces that successor as the last; if the last step
    /// misses the final station, the solve fails.
    pub fn commit(&mut self, report: CommitReport) -> (progress: Progress)
        requires
            old(self)@.work.stage == Stage::Commit,
        ensures
            final(self)@.params == old(self)@.params,
            final(self)@.ndim == old(self)@.ndim,
            final(self)@.x_end == old(self)@.x_end,
            (final(self)@.work, progress) == old(self)@.work.after_commit(
                old(self)@.params,
                report.outcome(old(self)@.x_end),
            ),
    {
        proof {
            use_type_invariant(&*self);
        }
        let outcome = match report {
            CommitReport::Failed(fault) => CommitOutcome::Failed(fault),
            CommitReport::Advanced { reach, gap } => CommitOutcome::Advanced {
                reaches_end: le(self.x_end, reach),
                at_end: le(gap, TEN_EPSILON),
            },
        };
        let (work, progress) = self.work.commit(&self.params, outcome);
        self.work = work;
        progress
    }
}

/// The error, if any, with which the arguments of a solve are refused:
/// the state vector must have the dimension of the system, the final
/// station must not be less than the initial one, and a prescribed step
/// size must be a positive number. They are looked at in this order.
pub open spec fn refused(ndim: usize, y_dim: nat, x0: u64, x1: u64, h_equal: Option<u64>) -> Option<
    OdeError,
> {
    if y_dim != ndim {
        Some(OdeError::DimensionMismatch)
    } else if less(x1, x0) {
        Some(OdeError::ReversedInterval)
    } else if h_equal is Some && !less(ZERO, h_equal->Some_0) {
        Some(OdeError::NonPositiveStep)
    } else {
        None
    }
}

/// What holds of the counters when a solve is over that was to take
/// equal steps.
pub open spec fn equal_solve_summary(work: Workspace, ended_well: bool) -> bool {
    &&& work.stage == Stage::Idle
    &&& work.rejected() == 0
    &&& work.accepted() <= work.performed() <= work.accepted() + 1
    &&& ended_well ==> work.remaining == 0 && work.accepted() == work.performed()
}

/// What holds of the counters when a solve in variable stepping is over.
pub open spec fn variable_solve_summary(work: Workspace, n_step_max: usize, ended_well: bool) -> bool {
    &&& work.stage == Stage::Idle
    &&& work.performed() <= n_step_max
    &&& work.accepted() + work.rejected() <= work.performed()
    &&& ended_well ==> work.accepted() >= 1
}

impl OdeSolver {
    /// Solves the ODE system
    ///
    /// # Input
    ///
    /// * `numerics` -- does the arithmetic, runs the stepping strategy and takes the output
    /// * `y` -- the initial value of the vector of dependent variables; it will be updated to `y1` at the end
    /// * `x0` -- the initial value of the independent variable
    /// * `x1` -- the final value of the independent variable
    /// * `h_equal` -- a constant stepsize for solving with equal-steps; otherwise,
    ///   if possible, variable step sizes are automatically calculated. If automatic
    ///   stepping is not possible (the method has no error estimator),
    ///   a constant (and equal) stepsize will be calculated for [N_EQUAL_STEPS] steps.
    ///
    /// Arguments that are refused change nothing and give their error.
    /// Otherwise the solve runs until it has converged or failed, and
    /// the counters say what was done: equal stepping never rejects and
    /// ends well only with every step accepted; variable stepping
    /// never performs more steps than the configured maximum.
    ///
    /// Equal stepping times each step, variable stepping the step that
    /// reaches the final station. The whole solution is timed when the
    /// solve has converged, and when variable stepping has used up its
    /// steps or missed the final station.
    pub fn solve<N: Numerics>(
        &mut self,
        numerics: &mut N,
        y: &mut Vec<u64>,
        x0: u64,
        x1: u64,
        h_equal: Option<u64>,
    ) -> (res: Result<(), OdeError>)
        ensures
            final(self)@.params == old(self)@.params,
            final(self)@.ndim == old(self)@.ndim,
            match refused(old(self)@.ndim, old(y)@.len(), x0, x1, h_equal) {
                Some(e) => res == Err::<(), OdeError>(e) && final(self)@ == old(self)@,
                None => {
                    &&& final(self)@.x_end == x1
                    &&& res is Err ==> res->Err_0.is_failure_of_solve()
                    &&& if h_equal is Some || !old(self)@.params.method.is_embedded() {
                        equal_solve_summary(final(self)@.work, res is Ok)
                    } else {
                        variable_solve_summary(
                            final(self)@.work,
                            old(self)@.params.n_step_max,
                            res is Ok,
                        )
                    }
                    &&& h_equal is None && !old(self)@.params.method.is_embedded() && res is Ok
                        ==> final(self)@.work.performed() == N_EQUAL_STEPS
                },
            },
    {
        let span = numerics.difference(x1, x0);
        let prescribed = match h_equal {
            Some(h) => Some(Prescribed { h, quotient: numerics.ratio(span, h) }),
            None => None,
        };
        let args = SolveArguments { y_dim: y.len(), x0, x1, h_equal: prescribed };
        let plan = match self.begin(args) {
            Err(e) => {
                return Err(e);
            },
            Ok(plan) => plan,
        };
        match plan {
            Plan::Equal(n) => self.take_equal_steps(numerics, y, x0, span, n),
            Plan::Variable => self.take_variable_steps(numerics, y, x0, x1, span),
        }
    }

    /// Takes the planned number of equal steps.
    fn take_equal_steps<N: Numerics>(
        &mut self,
        numerics: &mut N,
        y: &mut Vec<u64>,
        x0: u64,
        span: u64,
        n: usize,
    ) -> (res: Result<(), OdeError>)
        requires
            old(self)@.work == Workspace::started(Plan::Equal(n)),
        ensures
            final(self)@.params == old(self)@.params,
            final(self)@.ndim == old(self)@.ndim,
            final(self)@.x_end == old(self)@.x_end,
            res is Err ==> res->Err_0.is_failure_of_solve(),
            equal_solve_summary(final(self)@.work, res is Ok),
            res is Ok ==> final(self)@.work.performed() == n,
    {
        let begun = numerics.nanos();
        let h = numerics.ratio(span, numerics.from_count(n));
        let mut x = x0;

        // first output
        match numerics.push(x, y, h) {
            Err(fault) => {
                return Err(self.abandon(fault));
            },
            Ok(_) => {},
        }
        while self.stage() == Stage::EqualStep
            invariant
                self@.params == old(self)@.params,
                self@.ndim == old(self)@.ndim,
                self@.x_end == old(self)@.x_end,
                self@.work.stage == Stage::EqualStep || self@.work.stage == Stage::Idle,
                self@.work.rejected() == 0,
                self@.work.accepted() == self@.work.performed(),
                self@.work.performed() + self@.work.remaining == n,
                self@.work.stage == Stage::Idle ==> self@.work.remaining == 0,
            decreases self@.work.remaining,
        {
            proof {
                use_type_invariant(&*self);
            }
            let step_begun = numerics.nanos();

            // step
            match numerics.step(x, y, h) {
                StepReport::Failed(fault) => {
                    self.record_counts(numerics.counts());
                    match self.equal_step(EqualOutcome::StepFailed(fault)) {
                        _ => {
                            return Err(fault.error());
                        },
                    }
                },
                _ => {},
            }
            self.record_counts(numerics.counts());

            // update x and y, then output
            let committed = match numerics.accept(x, y, h) {
                Err(fault) => Err(fault),
                Ok(accepted) => {
                    x = accepted.x;
                    numerics.push(x, y, h)
                },
            };
            match committed {
                Err(fault) => {
                    match self.equal_step(EqualOutcome::CommitFailed(fault)) {
                        _ => {
                            return Err(fault.error());
                        },
                    }
                },
                Ok(_) => {
                    match self.equal_step(EqualOutcome::Done) {
                        _ => {},
                    }
                },
            }
            self.record_time(Phase::Step, time_between(step_begun, numerics.nanos()));
        }
        self.record_time(Phase::Total, time_between(begun, numerics.nanos()));
        Ok(())
    }

    /// Takes steps of variable size until the final station is reached
    /// or the solve fails.
    fn take_variable_steps<N: Numerics>(
        &mut self,
        numerics: &mut N,
        y: &mut Vec<u64>,
        x0: u64,
        x1: u64,
        span: u64,
    ) -> (res: Result<(), OdeError>)
        requires
            old(self)@.work == Workspace::started(Plan::Variable),
        ensures
            final(self)@.params == old(self)@.params,
            final(self)@.ndim == old(self)@.ndim,
            final(self)@.x_end == old(self)@.x_end,
            res is Err ==> res->Err_0.is_failure_of_solve(),
            variable_solve_summary(final(self)@.work, old(self)@.params.n_step_max, res is Ok),
    {
        proof {
            use_type_invariant(&*self);
        }
        let begun = numerics.nanos();
        let mut x = x0;
        let mut h_new = self.initial_step_size(span);

        // first output
        match numerics.push(x, y, h_new) {
            Err(fault) => {
                return Err(self.abandon(fault));
            },
            Ok(_) => {},
        }
        loop
            invariant
                self@.params == old(self)@.params,
                self@.ndim == old(self)@.ndim,
                self@.x_end == old(self)@.x_end,
                self@.params.valid(),
                self@.work.stage == Stage::Attempt,
                self@.work.attempts < self@.params.n_step_max,
                self@.work.performed() == self@.work.attempts,
                self@.work.accepted() + self@.work.rejected() <= self@.work.performed(),
            decreases self@.params.n_step_max - self@.work.attempts,
        {
            let step_begun = numerics.nanos();

            // update and check the stepsize
            let h = self.trial_step_size(h_new, numerics.difference(x1, x));
            let floor = numerics.product(TENTH, numerics.product(abs(x), EPSILON));
            match self.check_step_size(h, floor) {
                Err(e) => {
                    return Err(e);
                },
                Ok(_) => {},
            }

            // step
            let report = numerics.step(x, y, h);
            self.record_counts(numerics.counts());
            match self.judge(report) {
                Verdict::Abort(e) => {
                    match e {
                        OdeError::MaxStepsExceeded => {
                            self.record_time(
                                Phase::Total,
                                time_between(begun, numerics.nanos()),
                            );
                        },
                        _ => {},
                    }
                    return Err(e);
                },
                Verdict::ShrinkDiverging => {
                    h_new = numerics.product(h, self.params.m_diverging);
                },
                Verdict::ShrinkFirstReject => {
                    h_new = numerics.product(h, self.params.m_first_reject);
                },
                Verdict::RejectByMethod => {
                    h_new = numerics.reject(h);
                },
                Verdict::Accept { clamp_growth: _ } => {
                    // update x and y, then output
                    let committed = match numerics.accept(x, y, h) {
                        Err(fault) => Err(fault),
                        Ok(accepted) => {
                            x = accepted.x;
                            // do not allow h to grow if previous step was a reject
                            h_new = self.accepted_step_size(accepted.h_new, h);
                            numerics.push(x, y, h)
                        },
                    };
                    let report = match committed {
                        Err(fault) => CommitReport::Failed(fault),
                        Ok(_) => CommitReport::Advanced {
                            reach: numerics.sum(x, h_new),
                            gap: abs(numerics.difference(x, x1)),
                        },
                    };
                    match self.commit(report) {
                        Progress::Continue => {},
                        Progress::Converged => {
                            let now = numerics.nanos();
                            self.record_time(Phase::Step, time_between(step_begun, now));
                            self.record_time(Phase::Total, time_between(begun, now));
                            return Ok(());
                        },
                        Progress::Failed(e) => {
                            match e {
                                OdeError::CallbackFailure | OdeError::LinearAlgebraFailure => {},
                                _ => {
                                    self.record_time(
                                        Phase::Total,
                                        time_between(begun, numerics.nanos()),
                                    );
                                },
                            }
                            return Err(e);
                        },
                    }
                },
            }
            proof {
                use_type_invariant(&*self);
            }
        }
    }
}

} // verus!

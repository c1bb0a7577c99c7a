//! The mutable state of one solve and the rules by which it moves.
//!
//! The driver never does arithmetic on real numbers. The code that owns
//! the numbers runs a step and reports what happened as an event; the
//! rules below say how the state changes and what has to be done next.

use vstd::prelude::*;
use crate::bench_info::BenchInfo;
use crate::params::{Fault, Method, OdeError, Params, N_EQUAL_STEPS};

verus! {

/// What the driver is waiting for.
#[derive(Clone, Copy, Debug, PartialEq, Eq, Structural)]
pub enum Stage {
    /// No solve is in progress
    Idle,
    /// Equal stepping: the next fixed-size step is due
    EqualStep,
    /// Variable stepping: the size of the next trial step is to be checked
    Attempt,
    /// Variable stepping: the trial step is due
    Trial,
    /// Variable stepping: the trial step passed and must be committed
    Commit,
}

/// How the caller wants the step sizes chosen.
#[derive(Clone, Copy, Debug, PartialEq, Eq, Structural)]
pub enum StepChoice {
    /// No step size is prescribed
    Automatic,
    /// A step size is prescribed, and it is not a positive number
    NonPositive,
    /// A positive step size is prescribed; the interval takes this many
    /// steps of the size refitted to it
    Count(usize),
}

/// The facts about the arguments of a solve that the driver decides on.
#[derive(Clone, Copy, Debug)]
pub struct SolveRequest {
    /// Dimension of the state vector that was handed in
    pub y_dim: usize,
    /// The final station lies before the initial one
    pub reversed: bool,
    /// The choice of step sizes
    pub h_equal: StepChoice,
}

/// The mode of stepping that a solve starts in.
#[derive(Clone, Copy, Debug, PartialEq, Eq, Structural)]
pub enum Plan {
    /// Take this many equal steps, each accepted without an error test
    Equal(usize),
    /// Choose the step sizes by the estimated error
    Variable,
}

/// What one trial step of variable stepping came to.
#[derive(Clone, Copy, Debug, PartialEq, Eq, Structural)]
pub enum StepOutcome {
    /// The strategy failed
    Failed(Fault),
    /// The iterations of an implicit strategy do not converge
    Diverging,
    /// The step was computed; the flag says whether the relative error is below one
    Estimated { within_tolerance: bool },
}

/// What the driver orders after a trial step.
#[derive(Clone, Copy, Debug, PartialEq, Eq, Structural)]
pub enum Verdict {
    /// The solve is over with this error
    Abort(OdeError),
    /// Stay at the station and shrink the step size by the multiplier for diverging iterations
    ShrinkDiverging,
    /// Commit the step; with `clamp_growth` the next step size must not exceed this one
    Accept { clamp_growth: bool },
    /// Stay at the station and shrink the step size by the multiplier for a first rejection
    ShrinkFirstReject,
    /// Stay at the station and let the strategy compute the smaller step size
    RejectByMethod,
}

/// What committing an accepted step came to.
#[derive(Clone, Copy, Debug, PartialEq, Eq, Structural)]
pub enum CommitOutcome {
    /// The strategy or the output failed while committing
    Failed(Fault),
    /// The station advanced. `reaches_end`: the new station plus the next
    /// step size is not below the final station. `at_end`: the new
    /// station is the final one within ten times the machine epsilon.
    Advanced { reaches_end: bool, at_end: bool },
}

/// What one fixed-size step came to.
#[derive(Clone, Copy, Debug, PartialEq, Eq, Structural)]
pub enum EqualOutcome {
    /// The strategy failed while computing the step
    StepFailed(Fault),
    /// The strategy or the output failed while committing the step
    CommitFailed(Fault),
    /// The step was committed
    Done,
}

/// How the solve stands after a committed step.
#[derive(Clone, Copy, Debug, PartialEq, Eq, Structural)]
pub enum Progress {
    /// Another step is due
    Continue,
    /// The final station was reached
    Converged,
    /// The solve is over with this error
    Failed(OdeError),
}

/// The mutable state shared by the driver and the stepping strategy.
#[derive(Clone, Copy, Debug)]
pub struct Workspace {
    /// What the driver is waiting for
    pub stage: Stage,
    /// Equal stepping: steps still to take
    pub remaining: usize,
    /// Variable stepping: trial steps used so far
    pub attempts: usize,
    /// Variable stepping: the next accepted step ends the solve
    pub last_step: bool,
    /// True right after a step was rejected; forbids growth of the step size
    pub follows_reject_step: bool,
    /// Benchmark record
    pub bench: BenchInfo,
}

/// The plan that a method and a choice of step sizes lead to.
pub open spec fn plan_for(method: Method, choice: StepChoice) -> Plan {
    match choice {
        StepChoice::Count(n) => Plan::Equal(n),
        _ => if method.is_embedded() {
            Plan::Variable
        } else {
            Plan::Equal(N_EQUAL_STEPS)
        },
    }
}

/// The error, if any, with which a request is refused. The dimension is
/// looked at first, then the interval, then the step size.
pub open spec fn refusal(ndim: usize, request: SolveRequest) -> Option<OdeError> {
    if request.y_dim != ndim {
        Some(OdeError::DimensionMismatch)
    } else if request.reversed {
        Some(OdeError::ReversedInterval)
    } else if request.h_equal is NonPositive {
        Some(OdeError::NonPositiveStep)
    } else {
        None
    }
}

impl Workspace {
    /// The state in which nothing has happened yet.
    pub open spec fn fresh() -> Workspace {
        Workspace {
            stage: Stage::Idle,
            remaining: 0,
            attempts: 0,
            last_step: false,
            follows_reject_step: false,
            bench: BenchInfo::zeroed(),
        }
    }

    /// The state at the start of a solve that follows `plan`.
    pub open spec fn started(plan: Plan) -> Workspace {
        match plan {
            Plan::Equal(n) => Workspace {
                stage: if n == 0 {
                    Stage::Idle
                } else {
                    Stage::EqualStep
                },
                remaining: n,
                ..Self::fresh()
            },
            Plan::Variable => Workspace { stage: Stage::Attempt, ..Self::fresh() },
        }
    }

    /// The same state with the three step counters replaced.
    pub open spec fn counting(self, performed: int, accepted: int, rejected: int) -> Workspace
        recommends
            0 <= performed <= usize::MAX,
            0 <= accepted <= usize::MAX,
            0 <= rejected <= usize::MAX,
    {
        Workspace {
            bench: BenchInfo {
                n_performed_steps: performed as usize,
                n_accepted_steps: accepted as usize,
                n_rejected_steps: rejected as usize,
                ..self.bench
            },
            ..self
        }
    }

    /// Steps performed so far.
    pub open spec fn performed(self) -> int {
        self.bench.n_performed_steps as int
    }

    /// Steps accepted so far.
    pub open spec fn accepted(self) -> int {
        self.bench.n_accepted_steps as int
    }

    /// Steps rejected so far.
    pub open spec fn rejected(self) -> int {
        self.bench.n_rejected_steps as int
    }

    /// What holds of the state between any two events of a solve whose
    /// bound on the steps is `n_step_max`.
    pub open spec fn consistent(self, n_step_max: usize) -> bool {
        match self.stage {
            Stage::Idle => true,
            Stage::EqualStep => {
                &&& self.remaining >= 1
                &&& self.performed() == self.accepted()
                &&& self.rejected() == 0
                &&& self.performed() + self.remaining <= usize::MAX
            },
            Stage::Attempt | Stage::Trial => {
                &&& self.attempts < n_step_max
                &&& self.performed() == self.attempts
                &&& self.accepted() + self.rejected() <= self.performed()
            },
            Stage::Commit => {
                &&& 1 <= self.attempts <= n_step_max
                &&& self.performed() == self.attempts
                &&& 1 <= self.accepted()
                &&& self.accepted() + self.rejected() <= self.performed()
            },
        }
    }

    /// The state after a fixed-size step, and how the solve stands.
    pub open spec fn after_equal_step(self, outcome: EqualOutcome) -> (Workspace, Progress) {
        match outcome {
            EqualOutcome::StepFailed(fault) => (
                Workspace { stage: Stage::Idle, ..self }.counting(
                    self.performed() + 1,
                    self.accepted(),
                    self.rejected(),
                ),
                Progress::Failed(fault.as_error()),
            ),
            EqualOutcome::CommitFailed(fault) => (
                Workspace { stage: Stage::Idle, ..self }.counting(
                    self.performed() + 1,
                    self.accepted() + 1,
                    self.rejected(),
                ),
                Progress::Failed(fault.as_error()),
            ),
            EqualOutcome::Done => (
                Workspace {
                    stage: if self.remaining == 1 {
                        Stage::Idle
                    } else {
                        Stage::EqualStep
                    },
                    remaining: (self.remaining - 1) as usize,
                    ..self
                }.counting(self.performed() + 1, self.accepted() + 1, self.rejected()),
                if self.remaining == 1 {
                    Progress::Converged
                } else {
                    Progress::Continue
                },
            ),
        }
    }

    /// The state in which a trial step was turned down (rejected, or
    /// abandoned for diverging iterations) and the station kept.
    pub open spec fn turned_down(self, n_step_max: usize, rejected: int) -> Workspace {
        Workspace {
            stage: if self.attempts + 1 >= n_step_max {
                Stage::Idle
            } else {
                Stage::Attempt
            },
            attempts: (self.attempts + 1) as usize,
            last_step: false,
            follows_reject_step: true,
            ..self
        }.counting(self.performed() + 1, self.accepted(), rejected)
    }

    /// The order given when a trial step is turned down: the solve is
    /// over if that was the last step allowed, else `order` stands.
    pub open spec fn or_give_up(self, n_step_max: usize, order: Verdict) -> Verdict {
        if self.attempts + 1 >= n_step_max {
            Verdict::Abort(OdeError::MaxStepsExceeded)
        } else {
            order
        }
    }

    /// The state after the size of the next trial step was checked, and
    /// the error if the size has collapsed: then no step is tried and
    /// nothing is counted.
    pub open spec fn after_size_check(self, underflow: bool) -> (Workspace, Option<OdeError>) {
        if underflow {
            (Workspace { stage: Stage::Idle, ..self }, Some(OdeError::StepSizeUnderflow))
        } else {
            (Workspace { stage: Stage::Trial, ..self }, None)
        }
    }

    /// The state after a trial step of variable stepping, and the order
    /// that follows from it.
    pub open spec fn after_attempt(self, params: Params, outcome: StepOutcome) -> (
        Workspace,
        Verdict,
    ) {
        match outcome {
            StepOutcome::Failed(fault) => (
                Workspace { stage: Stage::Idle, ..self }.counting(
                    self.performed() + 1,
                    self.accepted(),
                    self.rejected(),
                ),
                Verdict::Abort(fault.as_error()),
            ),
            StepOutcome::Diverging => (
                self.turned_down(params.n_step_max, self.rejected()),
                self.or_give_up(params.n_step_max, Verdict::ShrinkDiverging),
            ),
            StepOutcome::Estimated { within_tolerance } => if within_tolerance {
                (
                    Workspace {
                        stage: Stage::Commit,
                        attempts: (self.attempts + 1) as usize,
                        ..self
                    }.counting(self.performed() + 1, self.accepted() + 1, self.rejected()),
                    Verdict::Accept { clamp_growth: self.follows_reject_step },
                )
            } else {
                (
                    self.turned_down(
                        params.n_step_max,
                        if self.accepted() > 0 {
                            self.rejected() + 1
                        } else {
                            self.rejected()
                        },
                    ),
                    self.or_give_up(
                        params.n_step_max,
                        if self.accepted() == 0 && params.shrinks_on_first_reject() {
                            Verdict::ShrinkFirstReject
                        } else {
                            Verdict::RejectByMethod
                        },
                    ),
                )
            },
        }
    }

    /// The state after an accepted step was committed, and how the solve stands.
    ///
    /// A step that reaches the final station ends the solve with
    /// success. A step that was announced as the last and does not
    /// reach it ends the solve with an error. Any other step announces
    /// its successor as the last if that one will reach the final station.
    pub open spec fn after_commit(self, params: Params, outcome: CommitOutcome) -> (
        Workspace,
        Progress,
    ) {
        match outcome {
            CommitOutcome::Failed(fault) => (
                Workspace { stage: Stage::Idle, ..self },
                Progress::Failed(fault.as_error()),
            ),
            CommitOutcome::Advanced { reaches_end, at_end } => if at_end {
                (
                    Workspace { stage: Stage::Idle, follows_reject_step: false, ..self },
                    Progress::Converged,
                )
            } else if self.last_step {
                (
                    Workspace { stage: Stage::Idle, follows_reject_step: false, ..self },
                    Progress::Failed(OdeError::XMismatchAtEnd),
                )
            } else if self.attempts >= params.n_step_max {
                (
                    Workspace {
                        stage: Stage::Idle,
                        follows_reject_step: false,
                        last_step: reaches_end,
                        ..self
                    },
                    Progress::Failed(OdeError::MaxStepsExceeded),
                )
            } else {
                (
                    Workspace {
                        stage: Stage::Attempt,
                        follows_reject_step: false,
                        last_step: reaches_end,
                        ..self
                    },
                    Progress::Continue,
                )
            },
        }
    }

    /// Starts a solve that follows `plan`.
    pub fn start(plan: Plan, n_step_max: usize) -> (work: Self)
        requires
            n_step_max >= 1,
        ensures
            work == Self::started(plan),
            work.consistent(n_step_max),
    {
        let mut work = Workspace::new();
        match plan {
            Plan::Equal(n) => {
                work.remaining = n;
                if n > 0 {
                    work.stage = Stage::EqualStep;
                }
            },
            Plan::Variable => {
                work.stage = Stage::Attempt;
            },
        }
        work
    }

    /// Records one fixed-size step.
    pub fn equal_step(self, outcome: EqualOutcome, n_step_max: usize) -> (next: (
        Workspace,
        Progress,
    ))
        requires
            self.stage == Stage::EqualStep,
            self.consistent(n_step_max),
        ensures
            next == self.after_equal_step(outcome),
            next.0.consistent(n_step_max),
    {
        let mut work = self;
        work.bench.n_performed_steps += 1;
        match outcome {
            EqualOutcome::StepFailed(fault) => {
                work.stage = Stage::Idle;
                (work, Progress::Failed(fault.error()))
            },
            EqualOutcome::CommitFailed(fault) => {
                work.bench.n_accepted_steps += 1;
                work.stage = Stage::Idle;
                (work, Progress::Failed(fault.error()))
            },
            EqualOutcome::Done => {
                work.bench.n_accepted_steps += 1;
                work.remaining -= 1;
                if work.remaining == 0 {
                    work.stage = Stage::Idle;
                    (work, Progress::Converged)
                } else {
                    (work, Progress::Continue)
                }
            },
        }
    }

    /// Admits the next trial step unless its size has collapsed.
    pub fn check_step_size(self, underflow: bool, n_step_max: usize) -> (next: (
        Workspace,
        Option<OdeError>,
    ))
        requires
            self.stage == Stage::Attempt,
            self.consistent(n_step_max),
        ensures
            next == self.after_size_check(underflow),
            next.0.consistent(n_step_max),
    {
        let mut work = self;
        if underflow {
            work.stage = Stage::Idle;
            (work, Some(OdeError::StepSizeUnderflow))
        } else {
            work.stage = Stage::Trial;
            (work, None)
        }
    }

    /// Judges one trial step of variable stepping.
    pub fn judge(self, params: &Params, outcome: StepOutcome) -> (next: (Workspace, Verdict))
        requires
            self.stage == Stage::Trial,
            self.consistent(params.n_step_max),
        ensures
            next == self.after_attempt(*params, outcome),
            next.0.consistent(params.n_step_max),
            next.1 is Accept <==> outcome == (StepOutcome::Estimated { within_tolerance: true }),
    {
        let mut work = self;
        match outcome {
            StepOutcome::Failed(fault) => {
                work.bench.n_performed_steps += 1;
                work.stage = Stage::Idle;
                (work, Verdict::Abort(fault.error()))
            },
            StepOutcome::Diverging => {
                work.bench.n_performed_steps += 1;
                work.turn_down(params.n_step_max, Verdict::ShrinkDiverging)
            },
            StepOutcome::Estimated { within_tolerance } => {
                work.bench.n_performed_steps += 1;
                if within_tolerance {
                    work.bench.n_accepted_steps += 1;
                    work.attempts += 1;
                    work.stage = Stage::Commit;
                    (work, Verdict::Accept { clamp_growth: work.follows_reject_step })
                } else {
                    let first = work.bench.n_accepted_steps == 0;
                    if !first {
                        work.bench.n_rejected_steps += 1;
                    }
                    if first && params.first_reject_shrinks() {
                        work.turn_down(params.n_step_max, Verdict::ShrinkFirstReject)
                    } else {
                        work.turn_down(params.n_step_max, Verdict::RejectByMethod)
                    }
                }
            },
        }
    }

    /// Keeps the station after a step that was turned down, and ends the
    /// solve if no further step is allowed.
    fn turn_down(self, n_step_max: usize, order: Verdict) -> (next: (Workspace, Verdict))
        requires
            self.attempts < n_step_max,
        ensures
            next.0 == (Workspace {
                stage: if self.attempts + 1 >= n_step_max {
                    Stage::Idle
                } else {
                    Stage::Attempt
                },
                attempts: (self.attempts + 1) as usize,
                last_step: false,
                follows_reject_step: true,
                ..self
            }),
            next.1 == self.or_give_up(n_step_max, order),
    {
        let mut work = self;
        work.follows_reject_step = true;
        work.last_step = false;
        work.attempts += 1;
        if work.attempts >= n_step_max {
            work.stage = Stage::Idle;
            (work, Verdict::Abort(OdeError::MaxStepsExceeded))
        } else {
            work.stage = Stage::Attempt;
            (work, order)
        }
    }

    /// Records that an accepted step was committed.
    pub fn commit(self, params: &Params, outcome: CommitOutcome) -> (next: (Workspace, Progress))
        requires
            self.stage == Stage::Commit,
            self.consistent(params.n_step_max),
        ensures
            next == self.after_commit(*params, outcome),
            next.0.consistent(params.n_step_max),
    {
        let mut work = self;
        match outcome {
            CommitOutcome::Failed(fault) => {
                work.stage = Stage::Idle;
                (work, Progress::Failed(fault.error()))
            },
            CommitOutcome::Advanced { reaches_end, at_end } => {
                work.follows_reject_step = false;
                if at_end {
                    work.stage = Stage::Idle;
                    (work, Progress::Converged)
                } else if work.last_step {
                    work.stage = Stage::Idle;
                    (work, Progress::Failed(OdeError::XMismatchAtEnd))
                } else {
                    work.last_step = reaches_end;
                    if work.attempts >= params.n_step_max {
                        work.stage = Stage::Idle;
                        (work, Progress::Failed(OdeError::MaxStepsExceeded))
                    } else {
                        work.stage = Stage::Attempt;
                        (work, Progress::Continue)
                    }
                }
            },
        }
    }

    /// Gives the solve up.
    pub fn abandon(self) -> (work: Workspace)
        ensures
            work == (Workspace { stage: Stage::Idle, ..self }),
            forall|n: usize| #[trigger] work.consistent(n),
    {
        let mut work = self;
        work.stage = Stage::Idle;
        work
    }

    /// Allocates a new instance
    pub fn new() -> (work: Self)
        ensures
            work == Self::fresh(),
    {
        Workspace {
            stage: Stage::Idle,
            remaining: 0,
            attempts: 0,
            last_step: false,
            follows_reject_step: false,
            bench: BenchInfo::new(),
        }
    }

    /// Resets all values
    pub fn reset(&mut self)
        ensures
            *final(self) == Self::fresh(),
    {
        self.stage = Stage::Idle;
        self.remaining = 0;
        self.attempts = 0;
        self.last_step = false;
        self.follows_reject_step = false;
        self.bench.reset();
    }
}

} // verus!

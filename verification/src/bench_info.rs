//! Counters and timing maxima collected while an ODE system is solved.

use vstd::prelude::*;

verus! {

/// Holds benchmark information.
///
/// Durations are plain nanosecond counts: whoever owns the clock measures
/// a phase and hands the elapsed time to the matching `stop_sw_*` method.
#[derive(Clone, Copy, Debug)]
pub struct BenchInfo {
    /// Number of calls to ODE system function
    pub n_function_eval: usize,
    /// Number of Jacobian matrix evaluations
    pub n_jacobian_eval: usize,
    /// Collects the number of steps, successful or not
    pub n_performed_steps: usize,
    /// Collects the number of accepted steps
    pub n_accepted_steps: usize,
    /// Collects the number of rejected steps
    pub n_rejected_steps: usize,
    /// Number of matrix assemblage/factorization
    pub n_matrix_factorization: usize,
    /// Last number of iterations
    pub n_iterations_last: usize,
    /// Max number of iterations among all steps
    pub n_iterations_max: usize,
    /// Max nanoseconds spent on steps
    pub nanos_step_max: u128,
    /// Max nanoseconds spent on Jacobian evaluation
    pub nanos_jacobian_max: u128,
    /// Max nanoseconds spent on the coefficient matrix factorization
    pub nanos_factor_max: u128,
    /// Max nanoseconds spent on the solution of the linear system
    pub nanos_lin_sol_max: u128,
    /// Total nanoseconds spent on the solution
    pub nanos_total: u128,
}

/// The phases of a solve whose durations are recorded.
#[derive(Clone, Copy, Debug, PartialEq, Eq, Structural)]
pub enum Phase {
    /// One step, accepted or not
    Step,
    /// One evaluation of the Jacobian matrix
    Jacobian,
    /// One factorization of the coefficient matrix
    Factor,
    /// One solution of the linear system
    LinSol,
    /// The whole solution
    Total,
}

/// The counters that a stepping strategy keeps while it works.
#[derive(Clone, Copy, Debug)]
pub struct StrategyCounts {
    /// Number of calls to ODE system function
    pub n_function_eval: usize,
    /// Number of Jacobian matrix evaluations
    pub n_jacobian_eval: usize,
    /// Number of matrix assemblage/factorization
    pub n_matrix_factorization: usize,
    /// Number of iterations of the last step
    pub n_iterations_last: usize,
}

/// The larger of two durations.
pub open spec fn longer(a: u128, b: u128) -> u128 {
    if b > a {
        b
    } else {
        a
    }
}

impl BenchInfo {
    /// The record with every counter and every duration at zero.
    pub open spec fn zeroed() -> BenchInfo {
        BenchInfo {
            n_function_eval: 0,
            n_jacobian_eval: 0,
            n_performed_steps: 0,
            n_accepted_steps: 0,
            n_rejected_steps: 0,
            n_matrix_factorization: 0,
            n_iterations_last: 0,
            n_iterations_max: 0,
            nanos_step_max: 0,
            nanos_jacobian_max: 0,
            nanos_factor_max: 0,
            nanos_lin_sol_max: 0,
            nanos_total: 0,
        }
    }

    /// Allocates a new instance
    pub fn new() -> (bench: Self)
        ensures
            bench == Self::zeroed(),
    {
        BenchInfo {
            n_function_eval: 0,
            n_jacobian_eval: 0,
            n_performed_steps: 0,
            n_accepted_steps: 0,
            n_rejected_steps: 0,
            n_matrix_factorization: 0,
            n_iterations_last: 0,
            n_iterations_max: 0,
            nanos_step_max: 0,
            nanos_jacobian_max: 0,
            nanos_factor_max: 0,
            nanos_lin_sol_max: 0,
            nanos_total: 0,
        }
    }

    /// Resets the values
    pub fn reset(&mut self)
        ensures
            *final(self) == Self::zeroed(),
    {
        self.n_function_eval = 0;
        self.n_jacobian_eval = 0;
        self.n_performed_steps = 0;
        self.n_accepted_steps = 0;
        self.n_rejected_steps = 0;
        self.n_matrix_factorization = 0;
        self.n_iterations_last = 0;
        self.n_iterations_max = 0;
        self.nanos_step_max = 0;
        self.nanos_jacobian_max = 0;
        self.nanos_factor_max = 0;
        self.nanos_lin_sol_max = 0;
        self.nanos_total = 0;
    }

    /// Records the duration of one step, keeping the longest seen so far.
    pub fn stop_sw_step(&mut self, nanos: u128)
        ensures
            *final(self) == (BenchInfo {
                nanos_step_max: longer(old(self).nanos_step_max, nanos),
                ..*old(self)
            }),
    {
        if nanos > self.nanos_step_max {
            self.nanos_step_max = nanos;
        }
    }

    /// Records the duration of one Jacobian evaluation, keeping the longest.
    pub fn stop_sw_jacobian(&mut self, nanos: u128)
        ensures
            *final(self) == (BenchInfo {
                nanos_jacobian_max: longer(old(self).nanos_jacobian_max, nanos),
                ..*old(self)
            }),
    {
        if nanos > self.nanos_jacobian_max {
            self.nanos_jacobian_max = nanos;
        }
    }

    /// Records the duration of one factorization, keeping the longest.
    pub fn stop_sw_factor(&mut self, nanos: u128)
        ensures
            *final(self) == (BenchInfo {
                nanos_factor_max: longer(old(self).nanos_factor_max, nanos),
                ..*old(self)
            }),
    {
        if nanos > self.nanos_factor_max {
            self.nanos_factor_max = nanos;
        }
    }

    /// Records the duration of one linear solve, keeping the longest.
    pub fn stop_sw_lin_sol(&mut self, nanos: u128)
        ensures
            *final(self) == (BenchInfo {
                nanos_lin_sol_max: longer(old(self).nanos_lin_sol_max, nanos),
                ..*old(self)
            }),
    {
        if nanos > self.nanos_lin_sol_max {
            self.nanos_lin_sol_max = nanos;
        }
    }

    /// Records the duration of the whole solution.
    pub fn stop_sw_total(&mut self, nanos: u128)
        ensures
            *final(self) == (BenchInfo { nanos_total: nanos, ..*old(self) }),
    {
        self.nanos_total = nanos;
    }

    /// The record after a duration was measured.
    pub open spec fn timed(self, phase: Phase, nanos: u128) -> BenchInfo {
        match phase {
            Phase::Step => BenchInfo { nanos_step_max: longer(self.nanos_step_max, nanos), ..self },
            Phase::Jacobian => BenchInfo {
                nanos_jacobian_max: longer(self.nanos_jacobian_max, nanos),
                ..self
            },
            Phase::Factor => BenchInfo {
                nanos_factor_max: longer(self.nanos_factor_max, nanos),
                ..self
            },
            Phase::LinSol => BenchInfo {
                nanos_lin_sol_max: longer(self.nanos_lin_sol_max, nanos),
                ..self
            },
            Phase::Total => BenchInfo { nanos_total: nanos, ..self },
        }
    }

    /// The record after the strategy reported its counters.
    pub open spec fn counted(self, counts: StrategyCounts) -> BenchInfo {
        BenchInfo {
            n_function_eval: counts.n_function_eval,
            n_jacobian_eval: counts.n_jacobian_eval,
            n_matrix_factorization: counts.n_matrix_factorization,
            n_iterations_last: counts.n_iterations_last,
            n_iterations_max: if counts.n_iterations_last > self.n_iterations_max {
                counts.n_iterations_last
            } else {
                self.n_iterations_max
            },
            ..self
        }
    }

    /// Records the duration of a phase: the longest one seen so far,
    /// or for the whole solution the duration itself.
    pub fn record_time(&mut self, phase: Phase, nanos: u128)
        ensures
            *final(self) == old(self).timed(phase, nanos),
    {
        match phase {
            Phase::Step => self.stop_sw_step(nanos),
            Phase::Jacobian => self.stop_sw_jacobian(nanos),
            Phase::Factor => self.stop_sw_factor(nanos),
            Phase::LinSol => self.stop_sw_lin_sol(nanos),
            Phase::Total => self.stop_sw_total(nanos),
        }
    }

    /// Takes over the counters of the strategy and keeps the largest
    /// number of iterations seen so far.
    pub fn record_counts(&mut self, counts: StrategyCounts)
        ensures
            *final(self) == old(self).counted(counts),
    {
        self.n_function_eval = counts.n_function_eval;
        self.n_jacobian_eval = counts.n_jacobian_eval;
        self.n_matrix_factorization = counts.n_matrix_factorization;
        self.n_iterations_last = counts.n_iterations_last;
        self.update_n_iterations_max();
    }

    /// Raises the maximum number of iterations to the last one, if larger.
    pub fn update_n_iterations_max(&mut self)
        ensures
            *final(self) == (BenchInfo {
                n_iterations_max: if old(self).n_iterations_last > old(self).n_iterations_max {
                    old(self).n_iterations_last
                } else {
                    old(self).n_iterations_max
                },
                ..*old(self)
            }),
    {
        if self.n_iterations_last > self.n_iterations_max {
            self.n_iterations_max = self.n_iterations_last;
        }
    }
}

} // verus!

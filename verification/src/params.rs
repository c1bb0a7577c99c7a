//! Method selection, configuration bounds and the errors of the ODE driver.

use vstd::prelude::*;
use crate::binary64::{
    bounded,
    clamp,
    lemma_bounded_within,
    less,
    lt,
    scaled_value,
    ZERO,
};

verus! {

/// Number of equal steps taken when the method cannot estimate its own
/// error and the caller prescribes no step size.
pub const N_EQUAL_STEPS: usize = 100;

/// Default absolute and relative tolerance: the bits of 1e-4
pub const DEFAULT_TOLERANCE: u64 = 0x3f1a_36e2_eb1c_432d;

/// Default initial step size: the bits of 1e-4
pub const DEFAULT_H_INI: u64 = 0x3f1a_36e2_eb1c_432d;

/// Default lower bound of the factor by which a step size changes: the bits of 0.2
pub const DEFAULT_M_MIN: u64 = 0x3fc9_9999_9999_999a;

/// Default upper bound of the factor by which a step size changes: the bits of 10
pub const DEFAULT_M_MAX: u64 = 0x4024_0000_0000_0000;

/// Default safety factor of the step-size formula: the bits of 0.9
pub const DEFAULT_M_SAFETY: u64 = 0x3fec_cccc_cccc_cccd;

/// Default multiplier for a rejection that precedes any acceptance: the bits of 0.1
pub const DEFAULT_M_FIRST_REJECT: u64 = 0x3fb9_9999_9999_999a;

/// Default multiplier for a step whose iterations diverge: the bits of 0.5
pub const DEFAULT_M_DIVERGING: u64 = 0x3fe0_0000_0000_0000;

/// The numerical methods that the driver can run.
#[derive(Clone, Copy, Debug, PartialEq, Eq, Structural)]
pub enum Method {
    /// Implicit Radau IIA collocation of order five (stiff problems)
    Radau5,
    /// Backward (implicit) Euler
    BwEuler,
    /// Forward (explicit) Euler
    FwEuler,
    /// Dormand-Prince pair of orders five and four
    DoPri5,
    /// Dormand-Prince pair of orders eight, five and three
    DoPri8,
}

/// The stepping strategies, one of which carries out a method.
#[derive(Clone, Copy, Debug, PartialEq, Eq, Structural)]
pub enum Strategy {
    /// Implicit collocation with Newton iterations
    Radau5,
    /// Backward Euler with Newton iterations
    EulerBackward,
    /// Forward Euler
    EulerForward,
    /// An explicit Runge-Kutta tableau with an embedded estimate
    ExplicitRungeKutta,
}

impl Method {
    /// The strategy that carries out each method.
    pub open spec fn carried_out_by(self) -> Strategy {
        match self {
            Method::Radau5 => Strategy::Radau5,
            Method::BwEuler => Strategy::EulerBackward,
            Method::FwEuler => Strategy::EulerForward,
            Method::DoPri5 => Strategy::ExplicitRungeKutta,
            Method::DoPri8 => Strategy::ExplicitRungeKutta,
        }
    }

    /// Returns the strategy that carries out the method.
    pub fn strategy(&self) -> (strategy: Strategy)
        ensures
            strategy == self.carried_out_by(),
    {
        match self {
            Method::Radau5 => Strategy::Radau5,
            Method::BwEuler => Strategy::EulerBackward,
            Method::FwEuler => Strategy::EulerForward,
            _ => Strategy::ExplicitRungeKutta,
        }
    }

    /// True for the methods that carry an embedded error estimator and
    /// can therefore choose their own step sizes.
    pub open spec fn is_embedded(self) -> bool {
        self is Radau5 || self is DoPri5 || self is DoPri8
    }

    /// True for the methods that solve a nonlinear system in every step.
    pub open spec fn is_implicit(self) -> bool {
        self is Radau5 || self is BwEuler
    }

    /// Tells whether the method has an embedded error estimator.
    pub fn embedded(&self) -> (e: bool)
        ensures
            e == self.is_embedded(),
    {
        match self {
            Method::Radau5 => true,
            Method::BwEuler => false,
            Method::FwEuler => false,
            Method::DoPri5 => true,
            Method::DoPri8 => true,
        }
    }

    /// Tells whether the method needs Newton iterations.
    pub fn implicit(&self) -> (i: bool)
        ensures
            i == self.is_implicit(),
    {
        match self {
            Method::Radau5 => true,
            Method::BwEuler => true,
            Method::FwEuler => false,
            Method::DoPri5 => false,
            Method::DoPri8 => false,
        }
    }
}

/// Where a failure reported by a stepping strategy came from.
#[derive(Clone, Copy, Debug, PartialEq, Eq, Structural)]
pub enum Fault {
    /// The user's function or Jacobian returned an error
    Callback,
    /// Factorization or linear solve failed
    LinearAlgebra,
}

/// Everything that can end a solve, or refuse to start one.
#[derive(Clone, Copy, Debug, PartialEq, Eq, Structural)]
pub enum OdeError {
    /// The state vector does not have the dimension of the system
    DimensionMismatch,
    /// The final station lies before the initial one
    ReversedInterval,
    /// A prescribed step size is zero or negative
    NonPositiveStep,
    /// The bound on the number of steps is zero
    StepBoundTooSmall,
    /// The bound on the number of Newton iterations is zero
    IterationBoundTooSmall,
    /// A tolerance is not a positive number
    NonPositiveTolerance,
    /// The initial step size is not a positive number
    NonPositiveInitialStep,
    /// The factors of the step-size formula are not positive numbers
    /// with the lower bound below the upper
    InvalidStepFactors,
    /// The user's function or Jacobian failed
    CallbackFailure,
    /// The linear-algebra layer failed
    LinearAlgebraFailure,
    /// The step size fell below the resolution of the independent variable
    StepSizeUnderflow,
    /// The allowed number of steps was used up before the end was reached
    MaxStepsExceeded,
    /// The last accepted station is not the requested final station
    XMismatchAtEnd,
}

impl Fault {
    /// The error that a fault surfaces as.
    pub open spec fn as_error(self) -> OdeError {
        match self {
            Fault::Callback => OdeError::CallbackFailure,
            Fault::LinearAlgebra => OdeError::LinearAlgebraFailure,
        }
    }

    /// Converts the fault into the error handed to the caller.
    pub fn error(&self) -> (e: OdeError)
        ensures
            e == self.as_error(),
    {
        match self {
            Fault::Callback => OdeError::CallbackFailure,
            Fault::LinearAlgebra => OdeError::LinearAlgebraFailure,
        }
    }
}

impl OdeError {
    /// The text of each error.
    pub open spec fn text(self) -> Seq<char> {
        match self {
            OdeError::DimensionMismatch => "y0.dim() must be equal to ndim"@,
            OdeError::ReversedInterval => "x1 must be greater than x0"@,
            OdeError::NonPositiveStep => "h_equal must be greater than zero"@,
            OdeError::StepBoundTooSmall => "parameter must satisfy: n_step_max >= 1"@,
            OdeError::IterationBoundTooSmall => "parameter must satisfy: n_iteration_max >= 1"@,
            OdeError::NonPositiveTolerance => "parameter must satisfy: abs_tol > 0 and rel_tol > 0"@,
            OdeError::NonPositiveInitialStep => "parameter must satisfy: h_ini > 0"@,
            OdeError::InvalidStepFactors => "parameter must satisfy: 0 < m_min < m_max, m_safety > 0, m_first_reject >= 0, m_diverging > 0"@,
            OdeError::CallbackFailure => "the function or the Jacobian of the system failed"@,
            OdeError::LinearAlgebraFailure => "factorization or linear solve failed"@,
            OdeError::StepSizeUnderflow => "the stepsize becomes too small"@,
            OdeError::MaxStepsExceeded => "variable stepping did not converge"@,
            OdeError::XMismatchAtEnd => "x is not equal to x1 at the end"@,
        }
    }

    /// True for errors that refuse the arguments of a call before anything is changed.
    pub open spec fn is_invalid_input(self) -> bool {
        self is DimensionMismatch || self is ReversedInterval || self is NonPositiveStep
    }

    /// True for errors that end a solve which was taken.
    pub open spec fn is_failure_of_solve(self) -> bool {
        self is CallbackFailure || self is LinearAlgebraFailure || self is StepSizeUnderflow
            || self is MaxStepsExceeded || self is XMismatchAtEnd
    }

    /// True for errors raised by the validation of the configuration.
    pub open spec fn is_config_validation(self) -> bool {
        self is StepBoundTooSmall || self is IterationBoundTooSmall || self is NonPositiveTolerance
            || self is NonPositiveInitialStep || self is InvalidStepFactors
    }

    /// Returns the message of the error.
    pub fn message(&self) -> (m: &'static str)
        ensures
            m@ == self.text(),
    {
        match self {
            OdeError::DimensionMismatch => "y0.dim() must be equal to ndim",
            OdeError::ReversedInterval => "x1 must be greater than x0",
            OdeError::NonPositiveStep => "h_equal must be greater than zero",
            OdeError::StepBoundTooSmall => "parameter must satisfy: n_step_max >= 1",
            OdeError::IterationBoundTooSmall => "parameter must satisfy: n_iteration_max >= 1",
            OdeError::NonPositiveTolerance => "parameter must satisfy: abs_tol > 0 and rel_tol > 0",
            OdeError::NonPositiveInitialStep => "parameter must satisfy: h_ini > 0",
            OdeError::InvalidStepFactors => "parameter must satisfy: 0 < m_min < m_max, m_safety > 0, m_first_reject >= 0, m_diverging > 0",
            OdeError::CallbackFailure => "the function or the Jacobian of the system failed",
            OdeError::LinearAlgebraFailure => "factorization or linear solve failed",
            OdeError::StepSizeUnderflow => "the stepsize becomes too small",
            OdeError::MaxStepsExceeded => "variable stepping did not converge",
            OdeError::XMismatchAtEnd => "x is not equal to x1 at the end",
        }
    }
}

/// The configuration of a solve.
///
/// Real numbers are held as the bits of binary64 numbers.
#[derive(Clone, Copy, Debug)]
pub struct Params {
    /// The numerical method
    pub method: Method,
    /// Absolute tolerance
    pub abs_tol: u64,
    /// Relative tolerance
    pub rel_tol: u64,
    /// Initial step size
    pub h_ini: u64,
    /// Lower bound of the factor by which a step size changes
    pub m_min: u64,
    /// Upper bound of the factor by which a step size changes
    pub m_max: u64,
    /// Safety factor of the step-size formula
    pub m_safety: u64,
    /// Multiplier that shrinks the step size when a step is rejected
    /// before any step was accepted; zero leaves the rejection to the method
    pub m_first_reject: u64,
    /// Multiplier that shrinks the step size when the iterations of a
    /// step diverge
    pub m_diverging: u64,
    /// Max number of steps (accepted or not) in variable stepping
    pub n_step_max: usize,
    /// Max number of Newton iterations per step
    pub n_iteration_max: usize,
    /// Whether the real and the complex system of the collocation method
    /// may be factorized and solved concurrently
    pub concurrent: bool,
}

impl Params {
    /// The default configuration of a method.
    pub open spec fn defaults(method: Method) -> Params {
        Params {
            method,
            abs_tol: DEFAULT_TOLERANCE,
            rel_tol: DEFAULT_TOLERANCE,
            h_ini: DEFAULT_H_INI,
            m_min: DEFAULT_M_MIN,
            m_max: DEFAULT_M_MAX,
            m_safety: DEFAULT_M_SAFETY,
            m_first_reject: DEFAULT_M_FIRST_REJECT,
            m_diverging: DEFAULT_M_DIVERGING,
            n_step_max: 100_000,
            n_iteration_max: 7,
            concurrent: true,
        }
    }

    /// The error of the configuration, if it has one. The bounds on
    /// steps and iterations are looked at first, then the tolerances,
    /// the initial step size, and the factors of the step-size formula.
    pub open spec fn fault(self) -> Option<OdeError> {
        if self.n_step_max < 1 {
            Some(OdeError::StepBoundTooSmall)
        } else if self.n_iteration_max < 1 {
            Some(OdeError::IterationBoundTooSmall)
        } else if !less(ZERO, self.abs_tol) || !less(ZERO, self.rel_tol) {
            Some(OdeError::NonPositiveTolerance)
        } else if !less(ZERO, self.h_ini) {
            Some(OdeError::NonPositiveInitialStep)
        } else if !less(ZERO, self.m_min) || !less(self.m_min, self.m_max) || !less(
            ZERO,
            self.m_safety,
        ) || less(self.m_first_reject, ZERO) || crate::binary64::is_nan(self.m_first_reject)
            || !less(ZERO, self.m_diverging) {
            Some(OdeError::InvalidStepFactors)
        } else {
            None
        }
    }

    /// The configuration is usable.
    pub open spec fn valid(self) -> bool {
        self.fault() is None
    }

    /// A fixed multiplier shrinks the step size when a step is rejected
    /// before any step was accepted: the multiplier is positive.
    pub open spec fn shrinks_on_first_reject(self) -> bool {
        less(ZERO, self.m_first_reject)
    }

    /// Allocates a new instance with default values.
    pub fn new(method: Method) -> (params: Self)
        ensures
            params == Self::defaults(method),
            params.valid(),
    {
        Params {
            method,
            abs_tol: DEFAULT_TOLERANCE,
            rel_tol: DEFAULT_TOLERANCE,
            h_ini: DEFAULT_H_INI,
            m_min: DEFAULT_M_MIN,
            m_max: DEFAULT_M_MAX,
            m_safety: DEFAULT_M_SAFETY,
            m_first_reject: DEFAULT_M_FIRST_REJECT,
            m_diverging: DEFAULT_M_DIVERGING,
            n_step_max: 100_000,
            n_iteration_max: 7,
            concurrent: true,
        }
    }

    /// Sets the tolerances, if both are positive numbers.
    pub fn set_tolerances(&mut self, abs_tol: u64, rel_tol: u64) -> (res: Result<(), OdeError>)
        ensures
            less(ZERO, abs_tol) && less(ZERO, rel_tol) ==> res is Ok && *final(self) == (Params {
                abs_tol,
                rel_tol,
                ..*old(self)
            }),
            !(less(ZERO, abs_tol) && less(ZERO, rel_tol)) ==> res == Err::<(), OdeError>(
                OdeError::NonPositiveTolerance,
            ) && *final(self) == *old(self),
    {
        if !lt(ZERO, abs_tol) || !lt(ZERO, rel_tol) {
            return Err(OdeError::NonPositiveTolerance);
        }
        self.abs_tol = abs_tol;
        self.rel_tol = rel_tol;
        Ok(())
    }

    /// Validates the configuration.
    pub fn validate(&self) -> (res: Result<(), OdeError>)
        ensures
            res == match self.fault() {
                Some(e) => Err::<(), OdeError>(e),
                None => Ok::<(), OdeError>(()),
            },
    {
        if self.n_step_max < 1 {
            return Err(OdeError::StepBoundTooSmall);
        }
        if self.n_iteration_max < 1 {
            return Err(OdeError::IterationBoundTooSmall);
        }
        if !lt(ZERO, self.abs_tol) || !lt(ZERO, self.rel_tol) {
            return Err(OdeError::NonPositiveTolerance);
        }
        if !lt(ZERO, self.h_ini) {
            return Err(OdeError::NonPositiveInitialStep);
        }
        if !lt(ZERO, self.m_min) || !lt(self.m_min, self.m_max) || !lt(ZERO, self.m_safety) || lt(
            self.m_first_reject,
            ZERO,
        ) || crate::binary64::nan(self.m_first_reject) || !lt(ZERO, self.m_diverging) {
            return Err(OdeError::InvalidStepFactors);
        }
        Ok(())
    }

    /// Tells whether a fixed multiplier shrinks the step size when a
    /// step is rejected before any step was accepted
    pub fn first_reject_shrinks(&self) -> (flag: bool)
        ensures
            flag == self.shrinks_on_first_reject(),
    {
        lt(ZERO, self.m_first_reject)
    }

    /// Brings the factor that a step-size formula proposes into the
    /// bounds of the configuration.
    ///
    /// The new step size is the old one times the result, whatever the
    /// formula proposed: also where the relative error was zero, or
    /// the proposal is not a number.
    pub fn bounded_factor(&self, proposed: u64) -> (factor: u64)
        ensures
            factor == bounded(proposed, self.m_min, self.m_max),
    {
        clamp(proposed, self.m_min, self.m_max)
    }
}

/// The factor by which a step size changes never exceeds the upper
/// bound of a valid configuration nor falls below its lower bound,
/// whatever the step-size formula proposes; a proposal strictly between
/// the bounds is taken as it is.
pub proof fn lemma_step_factor_within_bounds(params: Params, proposed: u64)
    requires
        params.valid(),
    ensures
        ({
            let factor = bounded(proposed, params.m_min, params.m_max);
            &&& !crate::binary64::is_nan(factor)
            &&& scaled_value(params.m_min) <= scaled_value(factor) <= scaled_value(params.m_max)
            &&& 0 < scaled_value(factor)
            &&& less(params.m_min, proposed) && less(proposed, params.m_max) ==> factor == proposed
        }),
{
    lemma_bounded_within(proposed, params.m_min, params.m_max);
    crate::binary64::lemma_less_is_order_of_values(ZERO, params.m_min);
}

/// A rejected step shrinks the step size where the safety factor and
/// the lower bound are below one: a proposal that is not above the
/// safety factor gives a factor below one, and not below the lower bound.
pub proof fn lemma_rejection_shrinks(params: Params, proposed: u64)
    requires
        params.valid(),
        less(params.m_safety, crate::binary64::ONE),
        less(params.m_min, crate::binary64::ONE),
        crate::binary64::less_equal(proposed, params.m_safety),
    ensures
        ({
            let factor = bounded(proposed, params.m_min, params.m_max);
            &&& less(factor, crate::binary64::ONE)
            &&& crate::binary64::less_equal(params.m_min, factor)
            &&& scaled_value(params.m_min) <= scaled_value(factor) < scaled_value(
                crate::binary64::ONE,
            )
        }),
{
    let factor = bounded(proposed, params.m_min, params.m_max);
    lemma_bounded_within(proposed, params.m_min, params.m_max);
    crate::binary64::lemma_less_is_order_of_values(factor, crate::binary64::ONE);
}

} // verus!

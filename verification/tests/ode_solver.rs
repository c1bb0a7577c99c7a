use russell::bench_info::StrategyCounts;
use russell::ode_solver::{Accepted, CommitReport, Numerics, OdeSolver, Prescribed, SolveArguments, StepReport};
use russell::ode_system::OdeSystem;
use russell::params::{Fault, Method, OdeError, Params, Strategy, N_EQUAL_STEPS};
use russell::workspace::{CommitOutcome, EqualOutcome, Plan, Progress, Stage, StepOutcome, Verdict, Workspace};

/// What a run records: stations, values and step sizes
struct Record {
    step_x: Vec<f64>,
    step_y: Vec<f64>,
    step_h: Vec<f64>,
}

fn number(bits: u64) -> f64 {
    f64::from_bits(bits)
}

/// The forward Euler method on a scalar equation, with the arithmetic of the machine
struct FwEuler {
    function: fn(f64, f64) -> f64,
    k: f64,
    n_function_eval: usize,
    clock: std::cell::Cell<u128>,
    record: Record,
}

impl FwEuler {
    fn new(function: fn(f64, f64) -> f64) -> Self {
        FwEuler {
            function,
            k: 0.0,
            n_function_eval: 0,
            clock: std::cell::Cell::new(0),
            record: Record {
                step_x: Vec::new(),
                step_y: Vec::new(),
                step_h: Vec::new(),
            },
        }
    }
}

impl Numerics for FwEuler {
    fn sum(&self, a: u64, b: u64) -> u64 {
        (number(a) + number(b)).to_bits()
    }
    fn difference(&self, a: u64, b: u64) -> u64 {
        (number(a) - number(b)).to_bits()
    }
    fn product(&self, a: u64, b: u64) -> u64 {
        (number(a) * number(b)).to_bits()
    }
    fn ratio(&self, a: u64, b: u64) -> u64 {
        (number(a) / number(b)).to_bits()
    }
    fn from_count(&self, n: usize) -> u64 {
        (n as f64).to_bits()
    }
    fn step(&mut self, x: u64, y: &Vec<u64>, _h: u64) -> StepReport {
        self.n_function_eval += 1;
        self.k = (self.function)(number(x), number(y[0]));
        StepReport::Estimated {
            rel_error: 0.0_f64.to_bits(),
        }
    }
    fn accept(&mut self, x: u64, y: &mut Vec<u64>, h: u64) -> Result<Accepted, Fault> {
        y[0] = (number(y[0]) + number(h) * self.k).to_bits();
        Ok(Accepted {
            x: (number(x) + number(h)).to_bits(),
            h_new: h,
        })
    }
    fn reject(&mut self, h: u64) -> u64 {
        h
    }
    fn counts(&self) -> StrategyCounts {
        StrategyCounts {
            n_function_eval: self.n_function_eval,
            n_jacobian_eval: 0,
            n_matrix_factorization: 0,
            n_iterations_last: 0,
        }
    }
    fn push(&mut self, x: u64, y: &Vec<u64>, h: u64) -> Result<(), Fault> {
        self.record.step_x.push(number(x));
        self.record.step_y.push(number(y[0]));
        self.record.step_h.push(number(h));
        Ok(())
    }
    fn nanos(&self) -> u128 {
        let now = self.clock.get() + 10;
        self.clock.set(now);
        now
    }
}

/// Runs the forward Euler method on a scalar equation under the driver
fn solve_fw_euler(
    solver: &mut OdeSolver,
    function: fn(f64, f64) -> f64,
    y0: &mut f64,
    x0: f64,
    x1: f64,
    h_equal: Option<f64>,
) -> Result<Record, OdeError> {
    let mut euler = FwEuler::new(function);
    let mut y = vec![y0.to_bits()];
    solver.solve(
        &mut euler,
        &mut y,
        x0.to_bits(),
        x1.to_bits(),
        h_equal.map(|h| h.to_bits()),
    )?;
    *y0 = number(y[0]);
    assert_eq!(solver.stage(), Stage::Idle);
    assert_eq!(solver.bench().n_function_eval, euler.n_function_eval);
    assert_eq!(solver.bench().n_function_eval, solver.bench().n_performed_steps);
    assert!(solver.bench().nanos_total >= solver.bench().nanos_step_max);
    assert!(solver.bench().n_performed_steps == 0 || solver.bench().nanos_step_max > 0);
    Ok(euler.record)
}

fn linspace(start: f64, stop: f64, count: usize) -> Vec<f64> {
    let mut res = vec![0.0; count];
    if count == 0 {
        return res;
    }
    res[0] = start;
    if count == 1 {
        return res;
    }
    res[count - 1] = stop;
    if count == 2 {
        return res;
    }
    let step = (stop - start) / ((count - 1) as f64);
    for i in 1..count {
        res[i] = start + (i as f64) * step;
    }
    res
}

fn vec_approx_eq(a: &[f64], b: &[f64], tol: f64) {
    assert_eq!(a.len(), b.len());
    for i in 0..a.len() {
        assert!((a[i] - b[i]).abs() <= tol, "{}: {} vs {}", i, a[i], b[i]);
    }
}

fn scalar_system() -> OdeSystem {
    OdeSystem::new(1, true, None, None)
}

#[test]
fn solve_works_1() {
    // system:
    // dy
    // —— = 1   with   y(x=0)=0    thus   y(x) = x
    // dx
    let system = scalar_system();
    let function: fn(f64, f64) -> f64 = |_, _| 1.0;

    // consistent initial conditions
    let mut x0 = 0.0;
    let mut y0 = x0;

    // solve the ODE system
    let params = Params::new(Method::FwEuler);
    let mut solver = OdeSolver::new(params, &system).unwrap();
    let xf = 1.0;
    let out = solve_fw_euler(&mut solver, function, &mut y0, x0, xf, None).unwrap();

    // check
    let h_equal_correct = (xf - x0) / (N_EQUAL_STEPS as f64);
    let h_values_correct = vec![h_equal_correct; N_EQUAL_STEPS + 1];
    let x_values_correct = linspace(x0, xf, N_EQUAL_STEPS + 1);
    let e_values_correct = vec![0.0; N_EQUAL_STEPS + 1];
    let global_error: Vec<f64> = (0..out.step_x.len())
        .map(|i| (out.step_y[i] - out.step_x[i]).abs())
        .collect();
    vec_approx_eq(&out.step_h, &h_values_correct, 1e-17);
    vec_approx_eq(&out.step_x, &x_values_correct, 1e-15);
    vec_approx_eq(&out.step_y, &x_values_correct, 1e-15);
    vec_approx_eq(&global_error, &e_values_correct, 1e-15);
    assert_eq!(solver.bench().n_performed_steps, 100);
    assert_eq!(solver.bench().n_accepted_steps, 100);
    assert_eq!(solver.bench().n_rejected_steps, 0);

    // reset problem
    x0 = 0.0;
    y0 = x0;

    // solve the ODE system again with prescribed h_equal
    let h_equal = Some(0.3);
    let xf = 1.2; // => will generate 4 steps
    let out = solve_fw_euler(&mut solver, function, &mut y0, x0, xf, h_equal).unwrap();

    // check again
    let nstep = 4;
    let h_values_correct = vec![0.3; nstep + 1];
    let x_values_correct = linspace(x0, xf, nstep + 1);
    let e_values_correct = vec![0.0; nstep + 1];
    let global_error: Vec<f64> = (0..out.step_x.len())
        .map(|i| (out.step_y[i] - out.step_x[i]).abs())
        .collect();
    vec_approx_eq(&out.step_h, &h_values_correct, 1e-17);
    vec_approx_eq(&out.step_x, &x_values_correct, 1e-17);
    vec_approx_eq(&out.step_y, &x_values_correct, 1e-15);
    vec_approx_eq(&global_error, &e_values_correct, 1e-15);
    assert_eq!(solver.bench().n_performed_steps, 4);
    assert_eq!(solver.bench().n_accepted_steps, 4);
}

#[test]
fn test_fweuler_hairer_wanner_eq1() {
    // Hairer-Wanner, Part II, Eq (1.1): y' = -50 (y - cos(x)), y(0) = 0
    let system = scalar_system();
    let function: fn(f64, f64) -> f64 = |x, y| -50.0 * (y - f64::cos(x));
    let analytical = |x: f64| {
        -50.0 * 50.0 / (50.0 * 50.0 + 1.0) * f64::exp(-50.0 * x)
            + 50.0 / (50.0 * 50.0 + 1.0) * f64::sin(x)
            + 50.0 * 50.0 / (50.0 * 50.0 + 1.0) * f64::cos(x)
    };
    let mut y0 = 0.0;
    let x0 = 0.0;
    let x1 = 1.5;
    let h_equal = Some(1.875 / 50.0);
    let params = Params::new(Method::FwEuler);
    let mut solver = OdeSolver::new(params, &system).unwrap();
    solve_fw_euler(&mut solver, function, &mut y0, x0, x1, h_equal).unwrap();
    let y1_correct = analytical(x1);
    assert!((y0 - 0.08589790706616637).abs() <= 1e-15);
    assert!((y0 - y1_correct).abs() <= 0.004753);
    let b = solver.bench();
    println!("{:?}", b);
    assert_eq!(b.n_performed_steps, 40);
    assert_eq!(b.n_accepted_steps, 40);
    assert_eq!(b.n_rejected_steps, 0);
}

#[test]
fn equal_steps_cover_the_interval_exactly_once() {
    // ceil(1.0 / 0.3) = 4 steps of size 0.25
    let system = scalar_system();
    let mut solver = OdeSolver::new(Params::new(Method::DoPri5), &system).unwrap();
    let mut y0 = 0.0;
    let out = solve_fw_euler(&mut solver, |_, _| 1.0, &mut y0, 0.0, 1.0, Some(0.3)).unwrap();
    assert_eq!(out.step_x.len(), 5);
    assert_eq!(out.step_h[0], 0.25);
    assert_eq!(*out.step_x.last().unwrap(), 1.0);
    assert_eq!(y0, 1.0);
    assert_eq!(solver.bench().n_performed_steps, 4);
}

#[test]
fn repeated_solve_gives_the_same_result() {
    let system = scalar_system();
    let mut solver = OdeSolver::new(Params::new(Method::FwEuler), &system).unwrap();
    let function: fn(f64, f64) -> f64 = |x, y| x - y;
    let mut first = 1.0;
    let one = solve_fw_euler(&mut solver, function, &mut first, 0.0, 2.0, Some(0.1)).unwrap();
    let bench_one = *solver.bench();
    let mut second = 1.0;
    let two = solve_fw_euler(&mut solver, function, &mut second, 0.0, 2.0, Some(0.1)).unwrap();
    let bench_two = *solver.bench();
    assert_eq!(first, second);
    assert_eq!(one.step_x, two.step_x);
    assert_eq!(one.step_y, two.step_y);
    assert_eq!(one.step_h, two.step_h);
    assert_eq!(bench_one.n_performed_steps, bench_two.n_performed_steps);
    assert_eq!(bench_one.n_accepted_steps, bench_two.n_accepted_steps);
    assert_eq!(bench_one.n_rejected_steps, bench_two.n_rejected_steps);
}

#[test]
fn new_validates_the_parameters() {
    let system = scalar_system();
    let mut params = Params::new(Method::Radau5);
    assert_eq!(params.validate(), Ok(()));
    params.n_step_max = 0;
    assert_eq!(params.validate(), Err(OdeError::StepBoundTooSmall));
    assert_eq!(OdeSolver::new(params, &system).err(), Some(OdeError::StepBoundTooSmall));
    params.n_iteration_max = 0;
    assert_eq!(OdeSolver::new(params, &system).err(), Some(OdeError::StepBoundTooSmall));
    params.n_step_max = 1;
    assert_eq!(params.validate(), Err(OdeError::IterationBoundTooSmall));
    assert_eq!(
        OdeSolver::new(params, &system).err(),
        Some(OdeError::IterationBoundTooSmall)
    );
    params.n_iteration_max = 1;
    let solver = OdeSolver::new(params, &system).unwrap();
    assert_eq!(solver.stage(), Stage::Idle);
    assert_eq!(solver.ndim(), 1);
    assert_eq!(solver.params().n_step_max, 1);
    assert_eq!(solver.bench().n_performed_steps, 0);
}

#[test]
fn default_parameters() {
    let params = Params::new(Method::DoPri8);
    assert_eq!(params.method, Method::DoPri8);
    assert_eq!(params.n_step_max, 100_000);
    assert_eq!(params.n_iteration_max, 7);
    assert!(params.first_reject_shrinks());
    assert_eq!(f64::from_bits(params.abs_tol), 1e-4);
    assert_eq!(f64::from_bits(params.rel_tol), 1e-4);
    assert_eq!(f64::from_bits(params.h_ini), 1e-4);
    assert_eq!(f64::from_bits(params.m_min), 0.2);
    assert_eq!(f64::from_bits(params.m_max), 10.0);
    assert_eq!(f64::from_bits(params.m_safety), 0.9);
    assert_eq!(f64::from_bits(params.m_first_reject), 0.1);
    assert_eq!(params.validate(), Ok(()));
    assert!(params.concurrent);
}

#[test]
fn methods_know_their_kind() {
    assert!(Method::Radau5.embedded());
    assert!(Method::DoPri5.embedded());
    assert!(Method::DoPri8.embedded());
    assert!(!Method::FwEuler.embedded());
    assert!(!Method::BwEuler.embedded());
    assert!(Method::Radau5.implicit());
    assert!(Method::BwEuler.implicit());
    assert!(!Method::FwEuler.implicit());
    assert!(!Method::DoPri5.implicit());
    assert!(!Method::DoPri8.implicit());
    assert_eq!(Method::Radau5.strategy(), Strategy::Radau5);
    assert_eq!(Method::BwEuler.strategy(), Strategy::EulerBackward);
    assert_eq!(Method::FwEuler.strategy(), Strategy::EulerForward);
    assert_eq!(Method::DoPri5.strategy(), Strategy::ExplicitRungeKutta);
    assert_eq!(Method::DoPri8.strategy(), Strategy::ExplicitRungeKutta);
    let solver = OdeSolver::new(Params::new(Method::DoPri8), &scalar_system()).unwrap();
    assert_eq!(solver.strategy(), Strategy::ExplicitRungeKutta);
}

fn automatic(y_dim: usize, x0: f64, x1: f64) -> SolveArguments {
    SolveArguments {
        y_dim,
        x0: x0.to_bits(),
        x1: x1.to_bits(),
        h_equal: None,
    }
}

fn counted(y_dim: usize, x0: f64, x1: f64, h: f64) -> SolveArguments {
    SolveArguments {
        y_dim,
        x0: x0.to_bits(),
        x1: x1.to_bits(),
        h_equal: Some(Prescribed {
            h: h.to_bits(),
            quotient: ((x1 - x0) / h).to_bits(),
        }),
    }
}

fn estimated(rel_error: f64) -> StepReport {
    StepReport::Estimated {
        rel_error: rel_error.to_bits(),
    }
}

/// The report of a commit at station `x` with the next step size `h_new`, for a solve that ends at `x1`
fn advanced(x: f64, h_new: f64, x1: f64) -> CommitReport {
    CommitReport::Advanced {
        reach: (x + h_new).to_bits(),
        gap: f64::abs(x - x1).to_bits(),
    }
}

/// Has the size of a step at station `x` checked
fn check(solver: &mut OdeSolver, x: f64, h: f64) -> Result<(), OdeError> {
    solver.check_step_size(h.to_bits(), (0.1 * f64::abs(x) * f64::EPSILON).to_bits())
}

#[test]
fn begin_refuses_bad_input_and_changes_nothing() {
    let system = OdeSystem::new(2, true, None, None);
    let mut solver = OdeSolver::new(Params::new(Method::DoPri5), &system).unwrap();
    assert_eq!(solver.begin(automatic(2, 0.0, 1.0)), Ok(Plan::Variable));
    assert_eq!(check(&mut solver, 0.0, 0.1), Ok(()));
    assert_eq!(solver.judge(estimated(1.5)), Verdict::ShrinkFirstReject);
    let bench = *solver.bench();
    // dimension first
    assert_eq!(
        solver.begin(counted(3, 1.0, 0.0, -0.1)),
        Err(OdeError::DimensionMismatch)
    );
    // then the interval
    assert_eq!(
        solver.begin(counted(2, 1.0, 0.0, -0.1)),
        Err(OdeError::ReversedInterval)
    );
    // then the step size
    assert_eq!(
        solver.begin(counted(2, 0.0, 1.0, -0.1)),
        Err(OdeError::NonPositiveStep)
    );
    assert_eq!(
        solver.begin(counted(2, 0.0, 1.0, 0.0)),
        Err(OdeError::NonPositiveStep)
    );
    assert_eq!(
        solver.begin(counted(2, 0.0, 1.0, -0.0)),
        Err(OdeError::NonPositiveStep)
    );
    assert_eq!(
        solver.begin(counted(2, 0.0, 1.0, f64::NAN)),
        Err(OdeError::NonPositiveStep)
    );
    // nothing was touched
    assert_eq!(solver.stage(), Stage::Attempt);
    assert!(solver.follows_reject_step());
    assert_eq!(solver.bench().n_performed_steps, bench.n_performed_steps);
    assert_eq!(bench.n_performed_steps, 1);
    // an interval that ends where it starts is not reversed
    assert_eq!(solver.begin(automatic(2, 1.0, 1.0)), Ok(Plan::Variable));
    assert_eq!(solver.begin(automatic(2, -0.0, 0.0)), Ok(Plan::Variable));
    assert_eq!(solver.begin(automatic(2, -2.0, -3.0)), Err(OdeError::ReversedInterval));
    assert_eq!(solver.begin(automatic(2, -3.0, -2.0)), Ok(Plan::Variable));
    assert_eq!(
        solver.begin(automatic(2, 1.0, f64::NEG_INFINITY)),
        Err(OdeError::ReversedInterval)
    );
}

#[test]
fn begin_chooses_the_mode_of_stepping() {
    let system = scalar_system();
    let auto = automatic(1, 0.0, 1.0);
    let seven = counted(1, 0.0, 1.0, 0.15);
    let none = counted(1, 1.0, 1.0, 0.1);
    for method in [Method::Radau5, Method::DoPri5, Method::DoPri8] {
        let mut solver = OdeSolver::new(Params::new(method), &system).unwrap();
        assert_eq!(solver.begin(auto), Ok(Plan::Variable));
        assert_eq!(solver.stage(), Stage::Attempt);
        assert_eq!(solver.begin(seven), Ok(Plan::Equal(7)));
        assert_eq!(solver.stage(), Stage::EqualStep);
    }
    for method in [Method::FwEuler, Method::BwEuler] {
        let mut solver = OdeSolver::new(Params::new(method), &system).unwrap();
        assert_eq!(solver.begin(auto), Ok(Plan::Equal(100)));
        assert_eq!(solver.stage(), Stage::EqualStep);
        assert_eq!(solver.begin(seven), Ok(Plan::Equal(7)));
        assert_eq!(solver.begin(none), Ok(Plan::Equal(0)));
        assert_eq!(solver.stage(), Stage::Idle);
    }
}

#[test]
fn equal_stepping_stops_at_a_failure() {
    let system = scalar_system();
    let mut solver = OdeSolver::new(Params::new(Method::BwEuler), &system).unwrap();
    let request = counted(1, 0.0, 1.0, 0.3);
    solver.begin(request).unwrap();
    assert_eq!(solver.equal_step(EqualOutcome::Done), Progress::Continue);
    assert_eq!(
        solver.equal_step(EqualOutcome::StepFailed(Fault::LinearAlgebra)),
        Progress::Failed(OdeError::LinearAlgebraFailure)
    );
    assert_eq!(solver.stage(), Stage::Idle);
    assert_eq!(solver.bench().n_performed_steps, 2);
    assert_eq!(solver.bench().n_accepted_steps, 1);

    solver.begin(request).unwrap();
    assert_eq!(
        solver.equal_step(EqualOutcome::CommitFailed(Fault::Callback)),
        Progress::Failed(OdeError::CallbackFailure)
    );
    assert_eq!(solver.stage(), Stage::Idle);
    assert_eq!(solver.bench().n_performed_steps, 1);
    assert_eq!(solver.bench().n_accepted_steps, 1);
}

#[test]
fn variable_stepping_accepts_and_rejects() {
    let system = scalar_system();
    let mut solver = OdeSolver::new(Params::new(Method::DoPri5), &system).unwrap();
    let (x0, x1) = (0.0, 1.0);
    assert_eq!(solver.begin(automatic(1, x0, x1)), Ok(Plan::Variable));

    // rejected before anything was accepted: not counted, fixed multiplier
    assert_eq!(check(&mut solver, 0.0, 0.4), Ok(()));
    assert_eq!(solver.stage(), Stage::Trial);
    assert_eq!(solver.judge(estimated(1.0)), Verdict::ShrinkFirstReject);
    assert_eq!(solver.bench().n_rejected_steps, 0);
    assert!(solver.follows_reject_step());

    // accepted right after a rejection: the step size must not grow
    assert_eq!(check(&mut solver, 0.0, 0.04), Ok(()));
    assert_eq!(solver.judge(estimated(0.999)), Verdict::Accept { clamp_growth: true });
    assert_eq!(solver.stage(), Stage::Commit);
    assert_eq!(solver.commit(advanced(0.04, 0.04, x1)), Progress::Continue);
    assert!(!solver.follows_reject_step());

    // rejected after an acceptance: counted, the method computes the new size
    assert_eq!(check(&mut solver, 0.04, 0.04), Ok(()));
    assert_eq!(solver.judge(estimated(3.0)), Verdict::RejectByMethod);
    assert_eq!(solver.bench().n_rejected_steps, 1);
    assert_eq!(solver.bench().n_accepted_steps, 1);

    // diverging iterations: retried, neither accepted nor rejected
    assert_eq!(check(&mut solver, 0.04, 0.02), Ok(()));
    assert_eq!(solver.judge(StepReport::Diverging), Verdict::ShrinkDiverging);
    assert_eq!(solver.bench().n_rejected_steps, 1);
    assert_eq!(solver.bench().n_accepted_steps, 1);
    assert!(solver.follows_reject_step());

    // accepted; the next step would reach the end
    assert_eq!(check(&mut solver, 0.04, 0.01), Ok(()));
    assert_eq!(solver.judge(estimated(1e-3)), Verdict::Accept { clamp_growth: true });
    assert_eq!(solver.commit(advanced(0.05, 0.95, x1)), Progress::Continue);

    // the last step
    assert_eq!(check(&mut solver, 0.05, 0.95), Ok(()));
    assert_eq!(solver.judge(estimated(0.0)), Verdict::Accept { clamp_growth: false });
    assert_eq!(solver.commit(advanced(1.0, 2.0, x1)), Progress::Converged);
    assert_eq!(solver.stage(), Stage::Idle);
    let bench = solver.bench();
    assert_eq!(bench.n_performed_steps, 6);
    assert_eq!(bench.n_accepted_steps, 3);
    assert_eq!(bench.n_rejected_steps, 1);
}

#[test]
fn acceptance_goes_by_the_relative_error() {
    let system = scalar_system();
    let mut solver = OdeSolver::new(Params::new(Method::DoPri8), &system).unwrap();
    let below = [0.0, -0.0, 5e-324, 0.5, 0.9999999999999999, -1.0, f64::NEG_INFINITY];
    let not_below = [1.0, 1.0000000000000002, 2.0, 1e300, f64::INFINITY, f64::NAN, -f64::NAN];
    for rel_error in below {
        assert!(rel_error < 1.0);
        solver.begin(automatic(1, 0.0, 1.0)).unwrap();
        check(&mut solver, 0.0, 0.1).unwrap();
        assert_eq!(solver.judge(estimated(rel_error)), Verdict::Accept { clamp_growth: false });
        assert_eq!(solver.bench().n_accepted_steps, 1);
    }
    for rel_error in not_below {
        assert!(!(rel_error < 1.0));
        solver.begin(automatic(1, 0.0, 1.0)).unwrap();
        check(&mut solver, 0.0, 0.1).unwrap();
        assert_eq!(solver.judge(estimated(rel_error)), Verdict::ShrinkFirstReject);
        assert_eq!(solver.bench().n_accepted_steps, 0);
        assert!(solver.follows_reject_step());
    }
}

#[test]
fn a_rejection_cancels_the_announced_last_step() {
    let system = scalar_system();
    let mut solver = OdeSolver::new(Params::new(Method::DoPri8), &system).unwrap();
    let x1 = 1.0;
    solver.begin(automatic(1, 0.0, x1)).unwrap();
    check(&mut solver, 0.0, 0.5).unwrap();
    assert_eq!(solver.judge(estimated(0.1)), Verdict::Accept { clamp_growth: false });
    assert_eq!(solver.commit(advanced(0.5, 0.5, x1)), Progress::Continue);
    check(&mut solver, 0.5, 0.5).unwrap();
    assert_eq!(solver.judge(estimated(7.0)), Verdict::RejectByMethod);
    // the step after the rejection is not the last any more
    check(&mut solver, 0.5, 0.25).unwrap();
    assert_eq!(solver.judge(estimated(0.1)), Verdict::Accept { clamp_growth: true });
    assert_eq!(solver.commit(advanced(0.75, 0.25, x1)), Progress::Continue);
    check(&mut solver, 0.75, 0.25).unwrap();
    assert_eq!(solver.judge(estimated(0.1)), Verdict::Accept { clamp_growth: false });
    // the station misses the end by more than ten times the machine epsilon
    assert_eq!(
        solver.commit(advanced(1.0 - 1e-14, 0.25, x1)),
        Progress::Failed(OdeError::XMismatchAtEnd)
    );
    assert_eq!(solver.stage(), Stage::Idle);

    // a station that is not a number misses the end as well
    solver.begin(automatic(1, 0.0, x1)).unwrap();
    check(&mut solver, 0.0, 0.5).unwrap();
    solver.judge(estimated(0.1));
    assert_eq!(solver.commit(advanced(0.5, 0.5, x1)), Progress::Continue);
    check(&mut solver, 0.5, 0.5).unwrap();
    solver.judge(estimated(0.1));
    assert_eq!(
        solver.commit(advanced(f64::NAN, 0.5, x1)),
        Progress::Failed(OdeError::XMismatchAtEnd)
    );
}

#[test]
fn the_end_is_met_within_ten_epsilon() {
    let system = scalar_system();
    let mut solver = OdeSolver::new(Params::new(Method::DoPri5), &system).unwrap();
    let x1 = 1.0;
    for (x, met) in [
        (1.0, true),
        (1.0 + 10.0 * f64::EPSILON, true),
        (1.0 - 10.0 * f64::EPSILON, true),
        (1.0 + 11.0 * f64::EPSILON, false),
        (1.0 - 11.0 * f64::EPSILON, false),
    ] {
        solver.begin(automatic(1, 0.0, x1)).unwrap();
        check(&mut solver, 0.0, 0.5).unwrap();
        solver.judge(estimated(0.1));
        assert_eq!(solver.commit(advanced(0.5, 0.5, x1)), Progress::Continue);
        check(&mut solver, 0.5, 0.5).unwrap();
        solver.judge(estimated(0.1));
        let expected = if met {
            Progress::Converged
        } else {
            Progress::Failed(OdeError::XMismatchAtEnd)
        };
        assert_eq!(f64::abs(x - x1) > 10.0 * f64::EPSILON, !met);
        assert_eq!(solver.commit(advanced(x, 0.5, x1)), expected);
    }
}

#[test]
fn the_last_step_is_announced_when_the_end_is_in_reach() {
    let system = scalar_system();
    let mut solver = OdeSolver::new(Params::new(Method::DoPri5), &system).unwrap();
    let x1 = 1.0;
    // just short of the end: two more steps are needed
    solver.begin(automatic(1, 0.0, x1)).unwrap();
    check(&mut solver, 0.0, 0.5).unwrap();
    solver.judge(estimated(0.1));
    assert_eq!(solver.commit(advanced(0.5, 0.4999, x1)), Progress::Continue);
    check(&mut solver, 0.5, 0.4999).unwrap();
    solver.judge(estimated(0.1));
    assert_eq!(solver.commit(advanced(0.9999, 0.0001, x1)), Progress::Continue);
    check(&mut solver, 0.9999, 0.0001).unwrap();
    solver.judge(estimated(0.1));
    assert_eq!(solver.commit(advanced(1.0, 0.0001, x1)), Progress::Converged);
    assert_eq!(solver.bench().n_accepted_steps, 3);
}

#[test]
fn first_rejection_without_the_fixed_multiplier() {
    let system = scalar_system();
    let mut params = Params::new(Method::Radau5);
    params.m_first_reject = 0.0_f64.to_bits();
    assert!(!params.first_reject_shrinks());
    let mut solver = OdeSolver::new(params, &system).unwrap();
    solver.begin(automatic(1, 0.0, 1.0)).unwrap();
    check(&mut solver, 0.0, 0.1).unwrap();
    assert_eq!(solver.judge(estimated(2.0)), Verdict::RejectByMethod);
    assert_eq!(solver.bench().n_rejected_steps, 0);
}

#[test]
fn variable_stepping_fails_fatally() {
    let system = scalar_system();
    let mut solver = OdeSolver::new(Params::new(Method::Radau5), &system).unwrap();
    let request = automatic(1, 0.0, 1.0e6);

    // the step size is below the resolution of the station
    let floor = 0.1 * 1.0e6 * f64::EPSILON;
    solver.begin(request).unwrap();
    assert_eq!(check(&mut solver, 1.0e6, 0.5 * floor), Err(OdeError::StepSizeUnderflow));
    assert_eq!(solver.stage(), Stage::Idle);
    assert_eq!(solver.bench().n_performed_steps, 0);
    solver.begin(request).unwrap();
    assert_eq!(check(&mut solver, 1.0e6, floor), Ok(()));
    assert_eq!(solver.stage(), Stage::Trial);
    solver.begin(request).unwrap();
    assert_eq!(check(&mut solver, 1.0e6, 2.0 * floor), Ok(()));
    // at the origin every size will do
    solver.begin(request).unwrap();
    assert_eq!(check(&mut solver, 0.0, 5e-323), Ok(()));

    solver.begin(request).unwrap();
    check(&mut solver, 0.0, 0.1).unwrap();
    assert_eq!(
        solver.judge(StepReport::Failed(Fault::Callback)),
        Verdict::Abort(OdeError::CallbackFailure)
    );
    assert_eq!(solver.stage(), Stage::Idle);
    assert_eq!(solver.bench().n_performed_steps, 1);

    solver.begin(request).unwrap();
    check(&mut solver, 0.0, 0.1).unwrap();
    assert_eq!(
        solver.judge(StepReport::Failed(Fault::LinearAlgebra)),
        Verdict::Abort(OdeError::LinearAlgebraFailure)
    );

    solver.begin(request).unwrap();
    check(&mut solver, 0.0, 0.1).unwrap();
    assert_eq!(solver.judge(estimated(0.5)), Verdict::Accept { clamp_growth: false });
    assert_eq!(
        solver.commit(CommitReport::Failed(Fault::Callback)),
        Progress::Failed(OdeError::CallbackFailure)
    );
    assert_eq!(solver.stage(), Stage::Idle);
}

#[test]
fn variable_stepping_gives_up_after_the_maximum_number_of_steps() {
    let system = scalar_system();
    let mut params = Params::new(Method::DoPri5);
    params.n_step_max = 3;
    let mut solver = OdeSolver::new(params, &system).unwrap();
    let x1 = 1.0;
    solver.begin(automatic(1, 0.0, x1)).unwrap();
    check(&mut solver, 0.0, 0.1).unwrap();
    assert_eq!(solver.judge(StepReport::Diverging), Verdict::ShrinkDiverging);
    check(&mut solver, 0.0, 0.05).unwrap();
    assert_eq!(solver.judge(estimated(4.0)), Verdict::ShrinkFirstReject);
    check(&mut solver, 0.0, 0.005).unwrap();
    assert_eq!(
        solver.judge(estimated(4.0)),
        Verdict::Abort(OdeError::MaxStepsExceeded)
    );
    assert_eq!(solver.stage(), Stage::Idle);
    assert_eq!(solver.bench().n_performed_steps, 3);

    // the last allowed step is accepted but does not end the interval
    solver.begin(automatic(1, 0.0, x1)).unwrap();
    let mut x = 0.0;
    for _ in 0..2 {
        check(&mut solver, x, 0.1).unwrap();
        assert_eq!(solver.judge(estimated(0.5)), Verdict::Accept { clamp_growth: false });
        x += 0.1;
        assert_eq!(solver.commit(advanced(x, 0.1, x1)), Progress::Continue);
    }
    check(&mut solver, x, 0.1).unwrap();
    assert_eq!(solver.judge(estimated(0.5)), Verdict::Accept { clamp_growth: false });
    x += 0.1;
    assert_eq!(
        solver.commit(advanced(x, 0.1, x1)),
        Progress::Failed(OdeError::MaxStepsExceeded)
    );
    assert_eq!(solver.bench().n_performed_steps, 3);
    assert_eq!(solver.bench().n_accepted_steps, 3);
}

#[test]
fn workspace_transitions_are_plain_functions() {
    let params = Params::new(Method::DoPri5);
    let work = Workspace::start(Plan::Variable, params.n_step_max);
    assert_eq!(work.stage, Stage::Attempt);
    let (stopped, error) = work.check_step_size(true, params.n_step_max);
    assert_eq!(error, Some(OdeError::StepSizeUnderflow));
    assert_eq!(stopped.stage, Stage::Idle);
    let (work, error) = work.check_step_size(false, params.n_step_max);
    assert_eq!(error, None);
    assert_eq!(work.stage, Stage::Trial);
    let (work, verdict) = work.judge(&params, StepOutcome::Estimated { within_tolerance: true });
    assert_eq!(verdict, Verdict::Accept { clamp_growth: false });
    assert_eq!(work.attempts, 1);
    let (work, progress) = work.commit(
        &params,
        CommitOutcome::Advanced {
            reaches_end: true,
            at_end: false,
        },
    );
    assert_eq!(progress, Progress::Continue);
    assert!(work.last_step);
    let mut again = work;
    again.reset();
    assert_eq!(again.stage, Stage::Idle);
    assert_eq!(again.attempts, 0);
    assert!(!again.last_step);
    assert_eq!(again.bench.n_performed_steps, 0);
    let fresh = Workspace::new();
    assert_eq!(fresh.stage, Stage::Idle);
    let equal = Workspace::start(Plan::Equal(2), params.n_step_max);
    let (equal, progress) = equal.equal_step(EqualOutcome::Done, params.n_step_max);
    assert_eq!(progress, Progress::Continue);
    let (equal, progress) = equal.equal_step(EqualOutcome::Done, params.n_step_max);
    assert_eq!(progress, Progress::Converged);
    assert_eq!(equal.remaining, 0);
}

#[test]
fn errors_have_messages() {
    assert_eq!(OdeError::DimensionMismatch.message(), "y0.dim() must be equal to ndim");
    assert_eq!(OdeError::ReversedInterval.message(), "x1 must be greater than x0");
    assert_eq!(OdeError::NonPositiveStep.message(), "h_equal must be greater than zero");
    assert_eq!(OdeError::StepSizeUnderflow.message(), "the stepsize becomes too small");
    assert_eq!(OdeError::MaxStepsExceeded.message(), "variable stepping did not converge");
    assert_eq!(OdeError::XMismatchAtEnd.message(), "x is not equal to x1 at the end");
    assert!(OdeError::StepBoundTooSmall.message().len() > 0);
    assert!(OdeError::IterationBoundTooSmall.message().len() > 0);
    assert!(OdeError::CallbackFailure.message().len() > 0);
    assert!(OdeError::LinearAlgebraFailure.message().len() > 0);
    assert_eq!(Fault::Callback.error(), OdeError::CallbackFailure);
    assert_eq!(Fault::LinearAlgebra.error(), OdeError::LinearAlgebraFailure);
}

#[test]
fn validate_refuses_bad_numbers() {
    let good = Params::new(Method::DoPri5);
    for bad in [0.0, -0.0, -1e-4, f64::NAN, f64::NEG_INFINITY] {
        let mut params = good;
        params.abs_tol = bad.to_bits();
        assert_eq!(params.validate(), Err(OdeError::NonPositiveTolerance));
        let mut params = good;
        params.rel_tol = bad.to_bits();
        assert_eq!(params.validate(), Err(OdeError::NonPositiveTolerance));
        let mut params = good;
        params.h_ini = bad.to_bits();
        assert_eq!(params.validate(), Err(OdeError::NonPositiveInitialStep));
        let mut params = good;
        params.m_min = bad.to_bits();
        assert_eq!(params.validate(), Err(OdeError::InvalidStepFactors));
        let mut params = good;
        params.m_safety = bad.to_bits();
        assert_eq!(params.validate(), Err(OdeError::InvalidStepFactors));
    }
    let mut params = good;
    params.m_max = params.m_min;
    assert_eq!(params.validate(), Err(OdeError::InvalidStepFactors));
    params.m_max = f64::NAN.to_bits();
    assert_eq!(params.validate(), Err(OdeError::InvalidStepFactors));
    let mut params = good;
    params.m_first_reject = (-0.1_f64).to_bits();
    assert_eq!(params.validate(), Err(OdeError::InvalidStepFactors));
    params.m_first_reject = f64::NAN.to_bits();
    assert_eq!(params.validate(), Err(OdeError::InvalidStepFactors));
    params.m_first_reject = 0.0_f64.to_bits();
    assert_eq!(params.validate(), Ok(()));
    // the bounds on the counts come first, the tolerances before the rest
    let mut params = good;
    params.h_ini = 0.0_f64.to_bits();
    params.abs_tol = 0.0_f64.to_bits();
    assert_eq!(params.validate(), Err(OdeError::NonPositiveTolerance));
    params.n_iteration_max = 0;
    assert_eq!(params.validate(), Err(OdeError::IterationBoundTooSmall));
    let system = scalar_system();
    assert_eq!(
        OdeSolver::new(params, &system).err(),
        Some(OdeError::IterationBoundTooSmall)
    );
    assert!(OdeError::NonPositiveTolerance.message().len() > 0);
    assert!(OdeError::NonPositiveInitialStep.message().len() > 0);
    assert!(OdeError::InvalidStepFactors.message().len() > 0);
}

#[test]
fn set_tolerances_works() {
    let mut params = Params::new(Method::Radau5);
    assert_eq!(params.set_tolerances(1e-7_f64.to_bits(), 1e-6_f64.to_bits()), Ok(()));
    assert_eq!(f64::from_bits(params.abs_tol), 1e-7);
    assert_eq!(f64::from_bits(params.rel_tol), 1e-6);
    assert_eq!(
        params.set_tolerances(0.0_f64.to_bits(), 1e-6_f64.to_bits()),
        Err(OdeError::NonPositiveTolerance)
    );
    assert_eq!(
        params.set_tolerances(1e-6_f64.to_bits(), (-1.0_f64).to_bits()),
        Err(OdeError::NonPositiveTolerance)
    );
    assert_eq!(
        params.set_tolerances(f64::NAN.to_bits(), 1e-6_f64.to_bits()),
        Err(OdeError::NonPositiveTolerance)
    );
    assert_eq!(f64::from_bits(params.abs_tol), 1e-7);
    assert_eq!(f64::from_bits(params.rel_tol), 1e-6);
}

#[test]
fn step_size_factor_stays_within_its_bounds() {
    let params = Params::new(Method::DoPri5);
    let order_plus_one = 5.0;
    for rel_error in [1e-300, 1e-12, 1e-3, 0.5, 1.0, 2.0, 1e3, 1e300, f64::INFINITY, 0.0] {
        let proposed = 0.9 * f64::powf(rel_error, -1.0 / order_plus_one);
        let factor = f64::from_bits(params.bounded_factor(proposed.to_bits()));
        assert!(factor >= 0.2 && factor <= 10.0, "{} -> {}", rel_error, factor);
        assert_eq!(factor, f64::min(10.0, f64::max(0.2, proposed)));
        let h = 0.01;
        let h_new = h * factor;
        assert!(h_new <= h * 10.0 && h_new >= h * 0.2);
    }
    // exact values of the formula
    assert_eq!(f64::from_bits(params.bounded_factor(0.9_f64.to_bits())), 0.9);
    assert_eq!(f64::from_bits(params.bounded_factor(0.2_f64.to_bits())), 0.2);
    assert_eq!(f64::from_bits(params.bounded_factor(0.19_f64.to_bits())), 0.2);
    assert_eq!(f64::from_bits(params.bounded_factor(10.0_f64.to_bits())), 10.0);
    assert_eq!(f64::from_bits(params.bounded_factor(10.5_f64.to_bits())), 10.0);
    assert_eq!(f64::from_bits(params.bounded_factor(f64::NAN.to_bits())), 0.2);
    assert_eq!(f64::from_bits(params.bounded_factor((-3.0_f64).to_bits())), 0.2);
}

#[test]
fn step_sizes_are_chosen_by_comparison() {
    let system = scalar_system();
    let mut solver = OdeSolver::new(Params::new(Method::DoPri5), &system).unwrap();
    // the first step is the initial step size unless the interval is shorter
    assert_eq!(f64::from_bits(solver.initial_step_size(1.0_f64.to_bits())), 1e-4);
    assert_eq!(f64::from_bits(solver.initial_step_size(1e-5_f64.to_bits())), 1e-5);
    // a trial step does not pass the end of the interval
    assert_eq!(
        f64::from_bits(solver.trial_step_size(0.3_f64.to_bits(), 0.25_f64.to_bits())),
        0.25
    );
    assert_eq!(
        f64::from_bits(solver.trial_step_size(0.2_f64.to_bits(), 0.25_f64.to_bits())),
        0.2
    );
    // after a rejection the step size may not grow
    solver.begin(automatic(1, 0.0, 1.0)).unwrap();
    check(&mut solver, 0.0, 0.1).unwrap();
    assert_eq!(solver.judge(estimated(2.0)), Verdict::ShrinkFirstReject);
    check(&mut solver, 0.0, 0.01).unwrap();
    assert_eq!(solver.judge(estimated(0.5)), Verdict::Accept { clamp_growth: true });
    assert_eq!(
        f64::from_bits(solver.accepted_step_size(0.05_f64.to_bits(), 0.01_f64.to_bits())),
        0.01
    );
    assert_eq!(
        f64::from_bits(solver.accepted_step_size(0.005_f64.to_bits(), 0.01_f64.to_bits())),
        0.005
    );
    assert_eq!(solver.commit(advanced(0.01, 0.01, 1.0)), Progress::Continue);
    // after an accepted step it may
    check(&mut solver, 0.01, 0.01).unwrap();
    assert_eq!(solver.judge(estimated(0.5)), Verdict::Accept { clamp_growth: false });
    assert_eq!(
        f64::from_bits(solver.accepted_step_size(0.05_f64.to_bits(), 0.01_f64.to_bits())),
        0.05
    );
}

#[test]
fn prescribed_step_size_gives_the_ceiling_of_the_quotient() {
    let system = scalar_system();
    let mut solver = OdeSolver::new(Params::new(Method::DoPri5), &system).unwrap();
    for (x0, x1, h, n) in [
        (0.0, 1.0, 0.3, 4),
        (0.0, 1.2, 0.3, 4),
        (0.0, 1.0, 0.25, 4),
        (0.0, 1.0, 0.2500000000000001, 4),
        (0.0, 1.0, 0.24999999999999997, 5),
        (0.0, 1.0, 1.0, 1),
        (0.0, 1.0, 7.0, 1),
        (0.0, 1.0, f64::INFINITY, 0),
        (0.0, 1.5, 1.875 / 50.0, 40),
        (-3.0, 5.0, 0.5, 16),
        (2.0, 2.0, 0.5, 0),
        (0.0, 1000.0, 1e-3, 1_000_000),
    ] {
        assert_eq!(f64::ceil((x1 - x0) / h) as usize, n);
        assert_eq!(solver.begin(counted(1, x0, x1, h)), Ok(Plan::Equal(n)));
        let mut steps = 0;
        while solver.stage() == Stage::EqualStep {
            solver.equal_step(EqualOutcome::Done);
            steps += 1;
        }
        assert_eq!(steps, n);
        assert_eq!(solver.bench().n_performed_steps, n);
        assert_eq!(solver.bench().n_accepted_steps, n);
        assert_eq!(solver.bench().n_rejected_steps, 0);
        // the realized step size partitions the interval uniformly
        if n > 0 {
            let realized = (x1 - x0) / (n as f64);
            assert!(realized <= h);
            assert!(((n as f64) * realized - (x1 - x0)).abs() <= 4.0 * f64::EPSILON * (x1 - x0).abs());
        }
    }
}

#[test]
fn a_first_step_that_spans_the_interval_ends_the_solve() {
    let system = scalar_system();
    let mut solver = OdeSolver::new(Params::new(Method::DoPri5), &system).unwrap();
    let (x0, x1) = (0.0, 1e-5);
    solver.begin(automatic(1, x0, x1)).unwrap();
    let h = f64::from_bits(solver.initial_step_size((x1 - x0).to_bits()));
    assert_eq!(h, 1e-5);
    check(&mut solver, x0, h).unwrap();
    assert_eq!(solver.judge(estimated(1e-8)), Verdict::Accept { clamp_growth: false });
    assert_eq!(solver.commit(advanced(x0 + h, 10.0 * h, x1)), Progress::Converged);
    assert_eq!(solver.stage(), Stage::Idle);
    assert_eq!(solver.bench().n_performed_steps, 1);
    assert_eq!(solver.bench().n_accepted_steps, 1);
}

/// A strategy that follows a script: each trial step reports the next entry
struct Scripted {
    script: Vec<StepReport>,
    next: usize,
    accept_fails: bool,
    stations: Vec<f64>,
    sizes: Vec<f64>,
    rejected_sizes: Vec<f64>,
    clock: std::cell::Cell<u128>,
}

impl Scripted {
    fn new(script: Vec<StepReport>) -> Self {
        Scripted {
            script,
            next: 0,
            accept_fails: false,
            stations: Vec::new(),
            sizes: Vec::new(),
            rejected_sizes: Vec::new(),
            clock: std::cell::Cell::new(0),
        }
    }
}

impl Numerics for Scripted {
    fn sum(&self, a: u64, b: u64) -> u64 {
        (number(a) + number(b)).to_bits()
    }
    fn difference(&self, a: u64, b: u64) -> u64 {
        (number(a) - number(b)).to_bits()
    }
    fn product(&self, a: u64, b: u64) -> u64 {
        (number(a) * number(b)).to_bits()
    }
    fn ratio(&self, a: u64, b: u64) -> u64 {
        (number(a) / number(b)).to_bits()
    }
    fn from_count(&self, n: usize) -> u64 {
        (n as f64).to_bits()
    }
    fn step(&mut self, _x: u64, _y: &Vec<u64>, h: u64) -> StepReport {
        self.sizes.push(number(h));
        let report = self.script[self.next % self.script.len()];
        self.next += 1;
        report
    }
    fn accept(&mut self, x: u64, y: &mut Vec<u64>, h: u64) -> Result<Accepted, Fault> {
        if self.accept_fails {
            return Err(Fault::Callback);
        }
        // dy/dx = 1
        y[0] = (number(y[0]) + number(h)).to_bits();
        Ok(Accepted {
            x: (number(x) + number(h)).to_bits(),
            h_new: (2.0 * number(h)).to_bits(),
        })
    }
    fn reject(&mut self, h: u64) -> u64 {
        self.rejected_sizes.push(number(h));
        (0.5 * number(h)).to_bits()
    }
    fn counts(&self) -> StrategyCounts {
        StrategyCounts {
            n_function_eval: 6 * self.next,
            n_jacobian_eval: 0,
            n_matrix_factorization: 0,
            n_iterations_last: 0,
        }
    }
    fn push(&mut self, x: u64, _y: &Vec<u64>, _h: u64) -> Result<(), Fault> {
        self.stations.push(number(x));
        Ok(())
    }
    fn nanos(&self) -> u128 {
        let now = self.clock.get() + 10;
        self.clock.set(now);
        now
    }
}

#[test]
fn solve_with_variable_steps_reaches_the_end() {
    let system = scalar_system();
    let mut params = Params::new(Method::DoPri5);
    params.h_ini = 0.125_f64.to_bits();
    let mut solver = OdeSolver::new(params, &system).unwrap();
    let accept = estimated(0.25);
    let reject = estimated(1.0);
    // reject, accept, accept, reject, diverge, then accept for good
    let mut script = vec![reject, accept, accept, reject, StepReport::Diverging];
    script.resize(25, accept);
    let mut stepper = Scripted::new(script);
    let mut y = vec![0.0_f64.to_bits()];
    let res = solver.solve(&mut stepper, &mut y, 0.0_f64.to_bits(), 1.0_f64.to_bits(), None);
    assert_eq!(res, Ok(()));
    // the sizes that were tried: the first rejection times 0.1, no growth right after it,
    // growth after an accepted step, the method's half after a later rejection,
    // half again for diverging iterations, and never beyond the end
    assert_eq!(
        stepper.sizes,
        vec![
            0.125,
            0.0125,
            0.0125,
            0.025,
            0.0125,
            0.00625,
            0.00625,
            0.0125,
            0.025,
            0.05,
            0.1,
            0.2,
            0.4,
            0.17499999999999993
        ]
    );
    assert_eq!(stepper.rejected_sizes, vec![0.025]);
    // the station moves by the size of each accepted step and not at all otherwise
    assert_eq!(
        stepper.stations,
        vec![
            0.0,
            0.0125,
            0.025,
            0.03125,
            0.0375,
            0.05,
            0.07500000000000001,
            0.125,
            0.225,
            0.42500000000000004,
            0.8250000000000001,
            1.0
        ]
    );
    assert!((number(y[0]) - 1.0).abs() <= 4.0 * f64::EPSILON);
    let bench = solver.bench();
    assert_eq!(bench.n_performed_steps, 14);
    assert_eq!(bench.n_accepted_steps, 11);
    assert_eq!(bench.n_rejected_steps, 1);
    assert_eq!(bench.n_function_eval, 6 * 14);
    assert!(bench.nanos_total > 0 && bench.nanos_step_max > 0);
    assert_eq!(solver.stage(), Stage::Idle);
}

#[test]
fn solve_refuses_bad_arguments() {
    let system = OdeSystem::new(2, true, None, None);
    let mut solver = OdeSolver::new(Params::new(Method::DoPri5), &system).unwrap();
    let mut stepper = Scripted::new(vec![estimated(0.5)]);
    let zero = 0.0_f64.to_bits();
    let one = 1.0_f64.to_bits();
    let mut short = vec![zero];
    assert_eq!(
        solver.solve(&mut stepper, &mut short, one, zero, Some(zero)),
        Err(OdeError::DimensionMismatch)
    );
    let mut y = vec![zero, zero];
    assert_eq!(
        solver.solve(&mut stepper, &mut y, one, zero, Some(zero)),
        Err(OdeError::ReversedInterval)
    );
    assert_eq!(
        solver.solve(&mut stepper, &mut y, zero, one, Some(zero)),
        Err(OdeError::NonPositiveStep)
    );
    assert_eq!(
        solver.solve(&mut stepper, &mut y, zero, one, Some((-0.5_f64).to_bits())),
        Err(OdeError::NonPositiveStep)
    );
    // nothing was stepped or written
    assert_eq!(stepper.next, 0);
    assert!(stepper.stations.is_empty());
    assert_eq!(y, vec![zero, zero]);
    assert_eq!(solver.bench().n_performed_steps, 0);
}

#[test]
fn solve_fails_with_the_strategy() {
    let system = scalar_system();
    let zero = 0.0_f64.to_bits();
    let one = 1.0_f64.to_bits();

    // the strategy fails in a trial step
    let mut solver = OdeSolver::new(Params::new(Method::Radau5), &system).unwrap();
    let mut stepper = Scripted::new(vec![estimated(0.5), StepReport::Failed(Fault::LinearAlgebra)]);
    let mut y = vec![zero];
    assert_eq!(
        solver.solve(&mut stepper, &mut y, zero, one, None),
        Err(OdeError::LinearAlgebraFailure)
    );
    assert_eq!(solver.bench().n_performed_steps, 2);
    assert_eq!(solver.bench().n_accepted_steps, 1);
    assert_eq!(number(y[0]), 1e-4);

    // the strategy fails while committing
    let mut stepper = Scripted::new(vec![estimated(0.5)]);
    stepper.accept_fails = true;
    let mut y = vec![zero];
    assert_eq!(
        solver.solve(&mut stepper, &mut y, zero, one, None),
        Err(OdeError::CallbackFailure)
    );
    assert_eq!(number(y[0]), 0.0);

    // equal steps stop at the first failure
    let mut stepper = Scripted::new(vec![estimated(7.0), estimated(7.0), StepReport::Failed(Fault::Callback)]);
    let mut y = vec![zero];
    assert_eq!(
        solver.solve(&mut stepper, &mut y, zero, one, Some(0.25_f64.to_bits())),
        Err(OdeError::CallbackFailure)
    );
    assert_eq!(solver.bench().n_performed_steps, 3);
    assert_eq!(solver.bench().n_accepted_steps, 2);
    assert_eq!(solver.bench().n_rejected_steps, 0);
    assert_eq!(number(y[0]), 0.5);
}

#[test]
fn solve_gives_up_after_the_maximum_number_of_steps() {
    let system = scalar_system();
    let mut params = Params::new(Method::DoPri8);
    params.n_step_max = 5;
    let mut solver = OdeSolver::new(params, &system).unwrap();
    let zero = 0.0_f64.to_bits();
    let one = 1.0_f64.to_bits();
    let mut stepper = Scripted::new(vec![estimated(2.0)]);
    let mut y = vec![zero];
    assert_eq!(
        solver.solve(&mut stepper, &mut y, zero, one, None),
        Err(OdeError::MaxStepsExceeded)
    );
    assert_eq!(solver.bench().n_performed_steps, 5);
    assert_eq!(solver.bench().n_accepted_steps, 0);
    assert_eq!(solver.bench().n_rejected_steps, 0);
    assert_eq!(stepper.stations, vec![0.0]);
    assert_eq!(number(y[0]), 0.0);
}

#[test]
fn solve_stops_when_the_step_size_collapses() {
    let system = scalar_system();
    let mut solver = OdeSolver::new(Params::new(Method::DoPri8), &system).unwrap();
    let mut stepper = Scripted::new(vec![estimated(2.0)]);
    let mut y = vec![0.0_f64.to_bits()];
    // every step is rejected: the size shrinks until it is below the resolution of the station
    let res = solver.solve(&mut stepper, &mut y, 1.0e3_f64.to_bits(), 2.0e3_f64.to_bits(), None);
    assert_eq!(res, Err(OdeError::StepSizeUnderflow));
    let last = *stepper.sizes.last().unwrap();
    assert!(last >= 0.1 * 1.0e3 * f64::EPSILON);
    assert!(0.1 * last < 0.1 * 1.0e3 * f64::EPSILON);
    assert_eq!(solver.bench().n_performed_steps, stepper.sizes.len());
    assert_eq!(solver.bench().n_accepted_steps, 0);
}

use russell::ode_system::{no_jacobian, perturbation_scale, OdeSystem, THRESHOLD};
use russell::sparse::{Storage, Symmetry};

#[test]
fn ode_system_most_none_works() {
    let mut n_function_eval = 0;
    struct Args {
        more_data_goes_here: bool,
    }
    let mut args = Args {
        more_data_goes_here: false,
    };
    let ode = OdeSystem::new(2, true, None, None);
    let mut function = |f: &mut Vec<f64>, x: f64, y: &Vec<f64>, args: &mut Args| -> Result<(), &'static str> {
        n_function_eval += 1;
        f[0] = -x * y[1];
        f[1] = x * y[0];
        args.more_data_goes_here = true;
        Ok(())
    };
    // call system function
    let x = 0.0;
    let y = vec![0.0; ode.ndim];
    let mut k = vec![0.0; ode.ndim];
    function(&mut k, x, &y, &mut args).unwrap();
    // call jacobian function
    assert_eq!(no_jacobian(), Err("Jacobian function is not available"));
    // check
    println!("n_function_eval = {}", n_function_eval);
    assert_eq!(n_function_eval, 1);
    assert_eq!(args.more_data_goes_here, true);
    assert_eq!(ode.jac_nnz, 4);
    assert_eq!(ode.work_dim, 2);
    assert!(ode.mass_nnz.is_none());
}

#[test]
fn ode_system_some_none_works() {
    let mut n_function_eval = 0;
    let mut n_jacobian_eval = 0;
    struct Args {
        more_data_goes_here_fn: bool,
        more_data_goes_here_jj: bool,
    }
    let mut args = Args {
        more_data_goes_here_fn: false,
        more_data_goes_here_jj: false,
    };
    let mut ode = OdeSystem::new(2, false, Some(2), None);
    let mut function = |f: &mut Vec<f64>, x: f64, y: &Vec<f64>, args: &mut Args| -> Result<(), &'static str> {
        n_function_eval += 1;
        f[0] = -x * y[1];
        f[1] = x * y[0];
        args.more_data_goes_here_fn = true;
        Ok(())
    };
    let mut jacobian = |jj: &mut Vec<(usize, usize, f64)>, x: f64, args: &mut Args| -> Result<(), &'static str> {
        n_jacobian_eval += 1;
        jj.clear();
        jj.push((0, 1, -x));
        jj.push((1, 0, x));
        args.more_data_goes_here_jj = true;
        Ok(())
    };
    ode.set_mass_matrix(2);
    // call system function
    let x = 0.0;
    let y = vec![0.0; ode.ndim];
    let mut k = vec![0.0; ode.ndim];
    function(&mut k, x, &y, &mut args).unwrap();
    // call jacobian function
    let mut jj = Vec::new();
    jacobian(&mut jj, x, &mut args).unwrap();
    // check
    println!("n_function_eval = {}", n_function_eval);
    println!("n_jacobian_eval = {}", n_jacobian_eval);
    assert_eq!(n_function_eval, 1);
    assert_eq!(n_jacobian_eval, 1);
    assert_eq!(args.more_data_goes_here_fn, true);
    assert_eq!(args.more_data_goes_here_jj, true);
    assert_eq!(jj.len(), ode.jac_nnz);
    assert_eq!(ode.work_dim, 0);
    assert_eq!(ode.mass_nnz, Some(2));
}

#[test]
fn jacobian_defaults_to_full() {
    let ode = OdeSystem::new(3, true, None, Some(Symmetry::General(Storage::Full)));
    assert_eq!(ode.jac_nnz, 9);
    assert_eq!(ode.jac_symmetry, Some(Symmetry::General(Storage::Full)));
    assert!(ode.numerical_jacobian_fits());
    let tight = OdeSystem::new(3, true, Some(8), None);
    assert!(!tight.numerical_jacobian_fits());
    let exact = OdeSystem::new(3, true, Some(9), Some(Symmetry::PositiveDefinite(Storage::Upper)));
    assert!(exact.numerical_jacobian_fits());
}

#[test]
fn numerical_jacobian_fills_column_by_column() {
    let ode = OdeSystem::new(2, true, None, None);
    assert_eq!(ode.numerical_jacobian_pattern(), vec![(0, 0), (1, 0), (0, 1), (1, 1)]);
    let one = OdeSystem::new(1, true, None, None);
    assert_eq!(one.numerical_jacobian_pattern(), vec![(0, 0)]);
    let three = OdeSystem::new(3, true, None, None);
    let pattern = three.numerical_jacobian_pattern();
    assert_eq!(pattern.len(), 9);
    assert_eq!(pattern[5], (2, 1));
    assert_eq!(pattern[6], (0, 2));
}

#[test]
fn numerical_jacobian_of_a_linear_system() {
    // f(x, y) = (-x y1, x y0): the differences reproduce the Jacobian
    let ode = OdeSystem::new(2, true, None, None);
    let x = 2.0;
    let f = |y: &[f64]| [-x * y[1], x * y[0]];
    let mut y = [0.5, -0.25];
    let fxy = f(&y);
    let multiplier = 1.0;
    let mut dense = [[0.0; 2]; 2];
    for (i, j) in ode.numerical_jacobian_pattern() {
        let original = y[j];
        let delta = f64::sqrt(f64::EPSILON * f64::from_bits(perturbation_scale(y[j].to_bits())));
        y[j] += delta;
        let work = f(&y);
        dense[i][j] = multiplier * (work[i] - fxy[i]) / delta;
        y[j] = original;
    }
    assert!((dense[0][0] - 0.0).abs() < 1e-7);
    assert!((dense[0][1] + 2.0).abs() < 1e-7);
    assert!((dense[1][0] - 2.0).abs() < 1e-7);
    assert!((dense[1][1] - 0.0).abs() < 1e-7);
}

#[test]
fn perturbation_scale_works() {
    assert_eq!(f64::from_bits(THRESHOLD), 1e-5);
    for yj in [0.0, -0.0, 1e-6, -1e-6, 1e-5, 2e-5, -2e-5, 0.5, -0.25, 1e10, f64::NEG_INFINITY] {
        let scale = f64::from_bits(perturbation_scale(yj.to_bits()));
        assert_eq!(scale, f64::max(1e-5, f64::abs(yj)));
    }
    assert_eq!(f64::from_bits(perturbation_scale(f64::NAN.to_bits())), 1e-5);
}

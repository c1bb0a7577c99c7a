//! Verified core of a scientific library: the control logic of an adaptive
//! ODE driver, the index structure of a 2D finite-difference Laplacian, and
//! the integer tables that the tensor and sparse-solver layers rely on.

pub mod bench_info;
pub mod binary64;
pub mod driver_laws;
pub mod grid;
pub mod laplacian_laws;
pub mod math_functions;
pub mod newton;
pub mod ode_solver;
pub mod ode_system;
pub mod params;
pub mod pde_discrete_laplacian_2d;
pub mod solver_intel_dss;
pub mod sparse;
pub mod stat;
pub mod tensor_constants;
pub mod workspace;

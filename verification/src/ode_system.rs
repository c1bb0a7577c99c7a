//! Description of a system of ordinary differential equations.

use vstd::prelude::*;
use crate::binary64::{abs, absolute, greater, max};
use crate::sparse::Symmetry;

verus! {

/// Smallest scale of a perturbation of the numerical Jacobian: the bits of 1e-5
pub const THRESHOLD: u64 = 0x3ee4_f8b5_88e3_68f1;

/// Returns the scale by which the numerical Jacobian perturbs an
/// unknown: the magnitude of the unknown, or the threshold if that is
/// greater. The perturbation itself is the square root of the machine
/// epsilon times this scale.
pub fn perturbation_scale(yj: u64) -> (scale: u64)
    ensures
        scale == greater(THRESHOLD, absolute(yj)),
{
    max(THRESHOLD, abs(yj))
}

/// Text of the error of a system that has no analytical Jacobian.
pub open spec fn no_jacobian_text() -> Seq<char> {
    "Jacobian function is not available"@
}

/// Returns an error to indicate that the Jacobian function is not available
pub fn no_jacobian() -> (res: Result<(), &'static str>)
    ensures
        res is Err,
        res->Err_0@ == no_jacobian_text(),
{
    Err("Jacobian function is not available")
}

/// Defines the shape of a system of ordinary differential equations.
///
/// The functions that evaluate the right-hand side and the Jacobian, and
/// the entries of the mass matrix, stay with the caller. The descriptor
/// holds the sizes by which buffers are allocated and filled.
#[derive(Clone, Copy, Debug)]
pub struct OdeSystem {
    /// System dimension
    pub ndim: usize,
    /// Use numerical Jacobian
    pub jac_numerical: bool,
    /// Number of non-zeros in the Jacobian matrix
    pub jac_nnz: usize,
    /// Symmetry properties of the Jacobian matrix
    pub jac_symmetry: Option<Symmetry>,
    /// Number of non-zeros of the mass matrix, if there is one
    pub mass_nnz: Option<usize>,
    /// Length of the work vector of the numerical Jacobian
    pub work_dim: usize,
}

/// Row and column of the `k`-th entry that the numerical Jacobian of a
/// system of dimension `ndim` writes: column after column, each from
/// the first row to the last.
pub open spec fn jacobian_position(ndim: int, k: int) -> (usize, usize)
    recommends
        ndim >= 1,
        0 <= k < ndim * ndim,
{
    ((k % ndim) as usize, (k / ndim) as usize)
}

impl OdeSystem {
    /// The dimension is positive and its square is a machine number.
    pub open spec fn wf(self) -> bool {
        &&& self.ndim >= 1
        &&& self.ndim * self.ndim <= usize::MAX
        &&& self.work_dim == if self.jac_numerical {
            self.ndim
        } else {
            0
        }
    }

    /// Allocates a new instance
    ///
    /// Without `jac_nnz` the Jacobian is taken to be full.
    pub fn new(
        ndim: usize,
        jac_numerical: bool,
        jac_nnz: Option<usize>,
        jac_symmetry: Option<Symmetry>,
    ) -> (system: Self)
        requires
            ndim >= 1,
            ndim * ndim <= usize::MAX,
        ensures
            system.wf(),
            system.ndim == ndim,
            system.jac_numerical == jac_numerical,
            system.jac_nnz == match jac_nnz {
                Some(n) => n as int,
                None => ndim * ndim,
            },
            system.jac_symmetry == jac_symmetry,
            system.mass_nnz is None,
    {
        OdeSystem {
            ndim,
            jac_numerical,
            jac_nnz: if let Some(n) = jac_nnz {
                n
            } else {
                ndim * ndim
            },
            jac_symmetry,
            mass_nnz: None,
            work_dim: if jac_numerical {
                ndim
            } else {
                0
            },
        }
    }

    /// Declares that the system has a mass matrix with `mass_nnz` non-zeros.
    pub fn set_mass_matrix(&mut self, mass_nnz: usize)
        ensures
            *final(self) == (OdeSystem { mass_nnz: Some(mass_nnz), ..*old(self) }),
    {
        self.mass_nnz = Some(mass_nnz);
    }

    /// Tells whether the Jacobian buffer can take every entry that the
    /// numerical Jacobian writes.
    pub fn numerical_jacobian_fits(&self) -> (fits: bool)
        requires
            self.wf(),
        ensures
            fits == (self.ndim * self.ndim <= self.jac_nnz),
    {
        self.ndim * self.ndim <= self.jac_nnz
    }

    /// Lists the positions that the numerical Jacobian fills, in the
    /// order in which it fills them.
    ///
    /// Column `j` holds the differences of the right-hand side for a
    /// perturbation of the `j`-th unknown alone.
    pub fn numerical_jacobian_pattern(&self) -> (pattern: Vec<(usize, usize)>)
        requires
            self.wf(),
        ensures
            pattern@.len() == self.ndim * self.ndim,
            forall|k: int|
                0 <= k < pattern@.len() ==> #[trigger] pattern@[k] == jacobian_position(
                    self.ndim as int,
                    k,
                ),
            forall|i: int, j: int|
                0 <= i < self.ndim && 0 <= j < self.ndim ==> #[trigger] pattern@[j * self.ndim
                    + i] == (i as usize, j as usize),
    {
        let n: usize = self.ndim;
        let mut pattern: Vec<(usize, usize)> = Vec::new();
        let mut j: usize = 0;
        while j < n
            invariant
                n == self.ndim,
                n >= 1,
                n * n <= usize::MAX,
                j <= n,
                pattern@.len() == j * n,
                forall|k: int|
                    0 <= k < pattern@.len() ==> #[trigger] pattern@[k] == jacobian_position(
                        n as int,
                        k,
                    ),
            decreases n - j,
        {
            let mut i: usize = 0;
            while i < n
                invariant
                    n == self.ndim,
                    n >= 1,
                    n * n <= usize::MAX,
                    j < n,
                    i <= n,
                    pattern@.len() == j * n + i,
                    forall|k: int|
                        0 <= k < pattern@.len() ==> #[trigger] pattern@[k] == jacobian_position(
                            n as int,
                            k,
                        ),
                decreases n - i,
            {
                proof {
                    lemma_position_of(n as int, i as int, j as int);
                }
                pattern.push((i, j));
                i += 1;
            }
            assert((j + 1) * n == j * n + n) by (nonlinear_arith);
            j += 1;
        }
        proof {
            assert forall|i: int, j: int| 0 <= i < n && 0 <= j < n implies #[trigger] pattern@[j
                * n + i] == (i as usize, j as usize) by {
                lemma_position_of(n as int, i, j);
            }
        }
        pattern
    }
}

/// Entry number `j * ndim + i` lies in row `i` and column `j`, and its
/// number is below the square of the dimension.
pub proof fn lemma_position_of(ndim: int, i: int, j: int)
    requires
        0 <= i < ndim,
        0 <= j < ndim,
    ensures
        0 <= j * ndim + i < ndim * ndim,
        (j * ndim + i) % ndim == i,
        (j * ndim + i) / ndim == j,
{
    vstd::arithmetic::div_mod::lemma_fundamental_div_mod_converse(j * ndim + i, ndim, j, i);
    assert(j * ndim + i < ndim * ndim) by (nonlinear_arith)
        requires
            0 <= i < ndim,
            0 <= j < ndim,
    ;
    assert(0 <= j * ndim) by (nonlinear_arith)
        requires
            0 <= j,
            0 < ndim,
    ;
}

} // verus!

//! The protocol of the Intel DSS solver for sparse linear systems, and
//! the messages of its status codes.
//!
//! The factorization and the solution are the work of a native library.
//! This module decides when a call may be made, with which arguments,
//! and what its status means.

use vstd::prelude::*;
use crate::sparse::{to_i32, to_i32_text, Symmetry};

verus! {

/// Status that the Intel DSS layer reports on success.
pub const MKL_DSS_SUCCESS: i32 = 0;

/// True for the status codes that Intel DSS documents by name: the
/// sixteen negative codes and the ten statistics and reordering codes.
pub open spec fn is_named_dss_code(err: int) -> bool {
    (-16 <= err <= -1) || (17 <= err <= 26)
}

/// Message shown for a status code that is not known.
pub open spec fn unknown_dss_message() -> Seq<char> {
    "Error: unknown error returned by c-code (IntelDSS)"@
}

/// The message that belongs to each Intel DSS status code.
pub open spec fn intel_dss_message(err: int) -> Seq<char> {
    if err == -1 {
        "MKL_DSS_ZERO_PIVOT"@
    }     else if err == -2 {
        "MKL_DSS_OUT_OF_MEMORY"@
    }     else if err == -3 {
        "MKL_DSS_FAILURE"@
    }     else if err == -4 {
        "MKL_DSS_ROW_ERR"@
    }     else if err == -5 {
        "MKL_DSS_COL_ERR"@
    }     else if err == -6 {
        "MKL_DSS_TOO_FEW_VALUES"@
    }     else if err == -7 {
        "MKL_DSS_TOO_MANY_VALUES"@
    }     else if err == -8 {
        "MKL_DSS_NOT_SQUARE"@
    }     else if err == -9 {
        "MKL_DSS_STATE_ERR"@
    }     else if err == -10 {
        "MKL_DSS_INVALID_OPTION"@
    }     else if err == -11 {
        "MKL_DSS_OPTION_CONFLICT"@
    }     else if err == -12 {
        "MKL_DSS_MSG_LVL_ERR"@
    }     else if err == -13 {
        "MKL_DSS_TERM_LVL_ERR"@
    }     else if err == -14 {
        "MKL_DSS_STRUCTURE_ERR"@
    }     else if err == -15 {
        "MKL_DSS_REORDER_ERR"@
    }     else if err == -16 {
        "MKL_DSS_VALUES_ERR"@
    }     else if err == 17 {
        "MKL_DSS_STATISTICS_INVALID_MATRIX"@
    }     else if err == 18 {
        "MKL_DSS_STATISTICS_INVALID_STATE"@
    }     else if err == 19 {
        "MKL_DSS_STATISTICS_INVALID_STRING"@
    }     else if err == 20 {
        "MKL_DSS_REORDER1_ERR"@
    }     else if err == 21 {
        "MKL_DSS_PREORDER_ERR"@
    }     else if err == 22 {
        "MKL_DSS_DIAG_ERR"@
    }     else if err == 23 {
        "MKL_DSS_I32BIT_ERR"@
    }     else if err == 24 {
        "MKL_DSS_OOC_MEM_ERR"@
    }     else if err == 25 {
        "MKL_DSS_OOC_OC_ERR"@
    }     else if err == 26 {
        "MKL_DSS_OOC_RW_ERR"@
    }     else if err == 100000 {
        "Error: c-code returned null pointer (IntelDSS)"@
    }     else if err == 200000 {
        "Error: c-code failed to allocate memory (IntelDSS)"@
    }     else if err == 400000 {
        "This code has not been compiled with Intel DSS"@
    } else {
        unknown_dss_message()
    }
}

/// Translates an Intel DSS status code into its message.
///
/// Every code has exactly one message; a named code never yields the
/// message reserved for unknown codes.
pub fn handle_intel_dss_error_code(err: i32) -> (message: &'static str)
    ensures
        message@ == intel_dss_message(err as int),
        is_named_dss_code(err as int) ==> message@ != unknown_dss_message(),
        message@.len() > 0,
{
    proof {
        lemma_dss_messages_distinct(err as int);
    }
    if err == -1 {
        "MKL_DSS_ZERO_PIVOT"
    }     else if err == -2 {
        "MKL_DSS_OUT_OF_MEMORY"
    }     else if err == -3 {
        "MKL_DSS_FAILURE"
    }     else if err == -4 {
        "MKL_DSS_ROW_ERR"
    }     else if err == -5 {
        "MKL_DSS_COL_ERR"
    }     else if err == -6 {
        "MKL_DSS_TOO_FEW_VALUES"
    }     else if err == -7 {
        "MKL_DSS_TOO_MANY_VALUES"
    }     else if err == -8 {
        "MKL_DSS_NOT_SQUARE"
    }     else if err == -9 {
        "MKL_DSS_STATE_ERR"
    }     else if err == -10 {
        "MKL_DSS_INVALID_OPTION"
    }     else if err == -11 {
        "MKL_DSS_OPTION_CONFLICT"
    }     else if err == -12 {
        "MKL_DSS_MSG_LVL_ERR"
    }     else if err == -13 {
        "MKL_DSS_TERM_LVL_ERR"
    }     else if err == -14 {
        "MKL_DSS_STRUCTURE_ERR"
    }     else if err == -15 {
        "MKL_DSS_REORDER_ERR"
    }     else if err == -16 {
        "MKL_DSS_VALUES_ERR"
    }     else if err == 17 {
        "MKL_DSS_STATISTICS_INVALID_MATRIX"
    }     else if err == 18 {
        "MKL_DSS_STATISTICS_INVALID_STATE"
    }     else if err == 19 {
        "MKL_DSS_STATISTICS_INVALID_STRING"
    }     else if err == 20 {
        "MKL_DSS_REORDER1_ERR"
    }     else if err == 21 {
        "MKL_DSS_PREORDER_ERR"
    }     else if err == 22 {
        "MKL_DSS_DIAG_ERR"
    }     else if err == 23 {
        "MKL_DSS_I32BIT_ERR"
    }     else if err == 24 {
        "MKL_DSS_OOC_MEM_ERR"
    }     else if err == 25 {
        "MKL_DSS_OOC_OC_ERR"
    }     else if err == 26 {
        "MKL_DSS_OOC_RW_ERR"
    }     else if err == 100000 {
        "Error: c-code returned null pointer (IntelDSS)"
    }     else if err == 200000 {
        "Error: c-code failed to allocate memory (IntelDSS)"
    }     else if err == 400000 {
        "This code has not been compiled with Intel DSS"
    } else {
        "Error: unknown error returned by c-code (IntelDSS)"
    }
}

/// No message is empty, and the named codes do not share the text of
/// the unknown code: their texts differ from it in length or in the
/// first character.
pub proof fn lemma_dss_messages_distinct(err: int)
    ensures
        intel_dss_message(err).len() > 0,
        is_named_dss_code(err) ==> intel_dss_message(err) != unknown_dss_message(),
{
    reveal_strlit("Error: unknown error returned by c-code (IntelDSS)");
    reveal_strlit("MKL_DSS_ZERO_PIVOT");
    reveal_strlit("MKL_DSS_OUT_OF_MEMORY");
    reveal_strlit("MKL_DSS_FAILURE");
    reveal_strlit("MKL_DSS_ROW_ERR");
    reveal_strlit("MKL_DSS_COL_ERR");
    reveal_strlit("MKL_DSS_TOO_FEW_VALUES");
    reveal_strlit("MKL_DSS_TOO_MANY_VALUES");
    reveal_strlit("MKL_DSS_NOT_SQUARE");
    reveal_strlit("MKL_DSS_STATE_ERR");
    reveal_strlit("MKL_DSS_INVALID_OPTION");
    reveal_strlit("MKL_DSS_OPTION_CONFLICT");
    reveal_strlit("MKL_DSS_MSG_LVL_ERR");
    reveal_strlit("MKL_DSS_TERM_LVL_ERR");
    reveal_strlit("MKL_DSS_STRUCTURE_ERR");
    reveal_strlit("MKL_DSS_REORDER_ERR");
    reveal_strlit("MKL_DSS_VALUES_ERR");
    reveal_strlit("MKL_DSS_STATISTICS_INVALID_MATRIX");
    reveal_strlit("MKL_DSS_STATISTICS_INVALID_STATE");
    reveal_strlit("MKL_DSS_STATISTICS_INVALID_STRING");
    reveal_strlit("MKL_DSS_REORDER1_ERR");
    reveal_strlit("MKL_DSS_PREORDER_ERR");
    reveal_strlit("MKL_DSS_DIAG_ERR");
    reveal_strlit("MKL_DSS_I32BIT_ERR");
    reveal_strlit("MKL_DSS_OOC_MEM_ERR");
    reveal_strlit("MKL_DSS_OOC_OC_ERR");
    reveal_strlit("MKL_DSS_OOC_RW_ERR");
    reveal_strlit("Error: c-code returned null pointer (IntelDSS)");
    reveal_strlit("Error: c-code failed to allocate memory (IntelDSS)");
    reveal_strlit("This code has not been compiled with Intel DSS");
    if is_named_dss_code(err) {
        assert(unknown_dss_message()[0] == 'E');
        assert(intel_dss_message(err)[0] == 'M');
    }
}

/// The structure of a sparse matrix, as far as the solver looks at it.
#[derive(Clone, Copy, Debug)]
pub struct MatrixInfo {
    /// Number of rows
    pub nrow: usize,
    /// Number of columns
    pub ncol: usize,
    /// Number of non-zero values
    pub nnz: usize,
    /// Declared symmetry
    pub symmetry: Option<Symmetry>,
}

/// The arguments of the native factorization.
#[derive(Clone, Copy, Debug, PartialEq, Eq, Structural)]
pub struct FactorizeCall {
    /// 1 if the matrix is general symmetric, else 0
    pub general_symmetric: i32,
    /// 1 if the matrix is positive-definite, else 0
    pub positive_definite: i32,
    /// Dimension of the matrix
    pub ndim: i32,
    /// Number of column indices and values to hand over
    pub nnz: usize,
}

/// What the solver remembers between calls.
pub struct DssState {
    /// Indicates whether the sparse matrix has been factorized or not
    pub factorized: bool,
    /// Holds the symmetry type used in the first call to factorize
    pub factorized_symmetry: Option<Symmetry>,
    /// Holds the matrix dimension saved in the first call to factorize
    pub factorized_ndim: usize,
    /// Holds the number of non-zeros saved in the first call to factorize
    pub factorized_nnz: usize,
}

/// The text of the refusal of a matrix that is not square.
pub open spec fn not_square_text() -> Seq<char> {
    "the matrix must be square"@
}

impl DssState {
    /// The state of a solver that has not factorized anything.
    pub open spec fn fresh() -> DssState {
        DssState {
            factorized: false,
            factorized_symmetry: None,
            factorized_ndim: 0,
            factorized_nnz: 0,
        }
    }

    /// The matrix has the structure that was factorized.
    pub open spec fn same_structure(self, info: MatrixInfo) -> bool {
        &&& info.symmetry == self.factorized_symmetry
        &&& info.nrow == self.factorized_ndim
        &&& info.nnz == self.factorized_nnz
    }

    /// The state after the structure of a square matrix was looked at:
    /// the first matrix defines the structure, also where it is then
    /// refused; later ones change nothing.
    pub open spec fn noted(self, info: MatrixInfo) -> DssState {
        if self.factorized {
            self
        } else {
            DssState {
                factorized_symmetry: info.symmetry,
                factorized_ndim: info.nrow,
                factorized_nnz: info.nnz,
                ..self
            }
        }
    }

    /// The message with which a square matrix is refused for
    /// factorization, if it is. A later matrix is compared with the
    /// first in symmetry, dimension and number of non-zeros, in this
    /// order; the first must have a non-zero for each row. Then the
    /// storage of a symmetric matrix must be the upper triangle, and
    /// the dimension must fit 32 bits.
    pub open spec fn factorize_refusal(self, info: MatrixInfo) -> Option<Seq<char>> {
        if self.factorized && info.symmetry != self.factorized_symmetry {
            Some("subsequent factorizations must use the same matrix (symmetry differs)"@)
        } else if self.factorized && info.nrow != self.factorized_ndim {
            Some("subsequent factorizations must use the same matrix (ndim differs)"@)
        } else if self.factorized && info.nnz != self.factorized_nnz {
            Some("subsequent factorizations must use the same matrix (nnz differs)"@)
        } else if !self.factorized && info.nnz < info.nrow {
            Some("for Intel DSS, nnz = row_pointers[nrow] must be ≥ nrow"@)
        } else if info.symmetry is Some && info.symmetry->Some_0.storage_refusal(false, true)
            is Some {
            info.symmetry->Some_0.storage_refusal(false, true)
        } else if info.nrow > i32::MAX {
            Some(to_i32_text())
        } else {
            None
        }
    }

    /// The arguments with which the native factorization is called for
    /// a matrix that is not refused.
    pub open spec fn factorize_call(self, info: MatrixInfo) -> FactorizeCall {
        let flags = match info.symmetry {
            Some(symmetry) => symmetry.flags(),
            None => (0i32, 0i32),
        };
        FactorizeCall {
            general_symmetric: flags.0,
            positive_definite: flags.1,
            ndim: info.nrow as i32,
            nnz: self.noted(info).factorized_nnz,
        }
    }

    /// The message with which a solve is refused, if it is: the matrix
    /// must have been factorized and have the same symmetry, dimension
    /// and number of non-zeros, and both vectors its dimension.
    pub open spec fn solve_refusal(self, info: MatrixInfo, x_dim: usize, rhs_dim: usize) -> Option<
        Seq<char>,
    > {
        if !self.factorized {
            Some("the function factorize must be called before solve"@)
        } else if info.symmetry != self.factorized_symmetry {
            Some("solve must use the same matrix (symmetry differs)"@)
        } else if info.nrow != self.factorized_ndim || info.ncol != self.factorized_ndim {
            Some("solve must use the same matrix (ndim differs)"@)
        } else if info.nnz != self.factorized_nnz {
            Some("solve must use the same matrix (nnz differs)"@)
        } else if x_dim != self.factorized_ndim {
            Some("the dimension of the vector of unknown values x is incorrect"@)
        } else if rhs_dim != self.factorized_ndim {
            Some("the dimension of the right-hand side vector is incorrect"@)
        } else {
            None
        }
    }
}

/// Keeps the protocol of the IntelDSS solver for sparse linear systems
///
/// 1. The structure of the matrix (nrow, ncol, nnz, symmetry) must be
///    exactly the same among multiple calls to `factorize`. The values may differ
///    from call to call, nonetheless.
/// 2. The first call to `factorize` will define the structure which must be
///    kept the same for the next calls.
/// 3. For symmetric matrices, `DSS` requires that the storage be the upper triangle.
pub struct SolverIntelDSS {
    factorized: bool,
    factorized_symmetry: Option<Symmetry>,
    factorized_ndim: usize,
    factorized_nnz: usize,
}

impl View for SolverIntelDSS {
    type V = DssState;

    closed spec fn view(&self) -> DssState {
        DssState {
            factorized: self.factorized,
            factorized_symmetry: self.factorized_symmetry,
            factorized_ndim: self.factorized_ndim,
            factorized_nnz: self.factorized_nnz,
        }
    }
}

/// Tells what a status of the native library means: success, or the
/// message of the status.
pub fn check_status(status: i32) -> (res: Result<(), &'static str>)
    ensures
        status == MKL_DSS_SUCCESS ==> res is Ok,
        status != MKL_DSS_SUCCESS ==> res is Err && res->Err_0@ == intel_dss_message(status as int),
{
    if status != MKL_DSS_SUCCESS {
        return Err(handle_intel_dss_error_code(status));
    }
    Ok(())
}

/// Tells whether two declarations of symmetry are the same.
fn same_symmetry(a: Option<Symmetry>, b: Option<Symmetry>) -> (same: bool)
    ensures
        same == (a == b),
{
    match (a, b) {
        (None, None) => true,
        (Some(x), Some(y)) => x == y,
        _ => false,
    }
}

impl SolverIntelDSS {
    /// Allocates a new instance
    pub fn new() -> (solver: Self)
        ensures
            solver@ == DssState::fresh(),
    {
        SolverIntelDSS {
            factorized: false,
            factorized_symmetry: None,
            factorized_ndim: 0,
            factorized_nnz: 0,
        }
    }

    /// Tells whether a matrix has been factorized
    pub fn factorized(&self) -> (flag: bool)
        ensures
            flag == self@.factorized,
    {
        self.factorized
    }

    /// Refuses a matrix that is not square.
    pub fn check_square(info: &MatrixInfo) -> (res: Result<(), &'static str>)
        ensures
            info.nrow == info.ncol ==> res is Ok,
            info.nrow != info.ncol ==> res is Err && res->Err_0@ == not_square_text(),
    {
        if info.nrow != info.ncol {
            return Err("the matrix must be square");
        }
        Ok(())
    }

    /// Prepares the factorization (and analysis/initialization if needed)
    ///
    /// Checks the structure of a square matrix against the one that was
    /// factorized first, or notes it if this is the first, and answers
    /// with the arguments of the native call. Whether the matrix is
    /// refused or not, a first matrix leaves its structure behind.
    pub fn begin_factorize(&mut self, info: &MatrixInfo) -> (res: Result<
        FactorizeCall,
        &'static str,
    >)
        ensures
            final(self)@ == old(self)@.noted(*info),
            match old(self)@.factorize_refusal(*info) {
                Some(text) => res is Err && res->Err_0@ == text,
                None => res == Ok::<FactorizeCall, &'static str>(
                    old(self)@.factorize_call(*info),
                ),
            },
    {
        if self.factorized {
            if !same_symmetry(info.symmetry, self.factorized_symmetry) {
                return Err("subsequent factorizations must use the same matrix (symmetry differs)");
            }
            if info.nrow != self.factorized_ndim {
                return Err("subsequent factorizations must use the same matrix (ndim differs)");
            }
            if info.nnz != self.factorized_nnz {
                return Err("subsequent factorizations must use the same matrix (nnz differs)");
            }
        } else {
            self.factorized_symmetry = info.symmetry;
            self.factorized_ndim = info.nrow;
            self.factorized_nnz = info.nnz;
            if self.factorized_nnz < self.factorized_ndim {
                return Err("for Intel DSS, nnz = row_pointers[nrow] must be ≥ nrow");
            }
        }
        let (general_symmetric, positive_definite) = match info.symmetry {
            Some(symmetry) => match symmetry.status(false, true) {
                Ok(flags) => flags,
                Err(text) => {
                    return Err(text);
                },
            },
            None => (0, 0),
        };
        let ndim = match to_i32(info.nrow) {
            Ok(ndim) => ndim,
            Err(text) => {
                return Err(text);
            },
        };
        Ok(FactorizeCall { general_symmetric, positive_definite, ndim, nnz: self.factorized_nnz })
    }

    /// Takes the status of the native factorization: success makes the
    /// solver factorized, anything else leaves it as it was.
    pub fn end_factorize(&mut self, status: i32) -> (res: Result<(), &'static str>)
        ensures
            status == MKL_DSS_SUCCESS ==> res is Ok && final(self)@ == (DssState {
                factorized: true,
                ..old(self)@
            }),
            status != MKL_DSS_SUCCESS ==> res is Err && res->Err_0@ == intel_dss_message(
                status as int,
            ) && final(self)@ == old(self)@,
    {
        match check_status(status) {
            Err(text) => Err(text),
            Ok(_) => {
                self.factorized = true;
                Ok(())
            },
        }
    }

    /// Checks that the solution of the linear system may be computed
    ///
    /// # Input
    ///
    /// * `info` -- the structure of the coefficient matrix A
    /// * `x_dim` -- the dimension of the vector of unknown values
    /// * `rhs_dim` -- the dimension of the right-hand side vector
    ///
    /// **Warning:** the matrix must be same one used in `factorize`.
    pub fn begin_solve(&self, info: &MatrixInfo, x_dim: usize, rhs_dim: usize) -> (res: Result<
        (),
        &'static str,
    >)
        ensures
            match self@.solve_refusal(*info, x_dim, rhs_dim) {
                Some(text) => res is Err && res->Err_0@ == text,
                None => res is Ok,
            },
    {
        if self.factorized {
            if !same_symmetry(info.symmetry, self.factorized_symmetry) {
                return Err("solve must use the same matrix (symmetry differs)");
            }
            if info.nrow != self.factorized_ndim || info.ncol != self.factorized_ndim {
                return Err("solve must use the same matrix (ndim differs)");
            }
            if info.nnz != self.factorized_nnz {
                return Err("solve must use the same matrix (nnz differs)");
            }
        } else {
            return Err("the function factorize must be called before solve");
        }
        if x_dim != self.factorized_ndim {
            return Err("the dimension of the vector of unknown values x is incorrect");
        }
        if rhs_dim != self.factorized_ndim {
            return Err("the dimension of the right-hand side vector is incorrect");
        }
        Ok(())
    }

    /// Returns the ordering effectively used by the solver (NOT AVAILABLE)
    pub fn get_effective_ordering(&self) -> (text: String)
        ensures
            text@ == "Unknown"@,
    {
        String::from_str("Unknown")
    }

    /// Returns the scaling effectively used by the solver (NOT AVAILABLE)
    pub fn get_effective_scaling(&self) -> (text: String)
        ensures
            text@ == "Unknown"@,
    {
        String::from_str("Unknown")
    }

    /// Returns the strategy (concerning symmetry) effectively used by the solver
    pub fn get_effective_strategy(&self) -> (text: String)
        ensures
            text@ == "Unknown"@,
    {
        String::from_str("Unknown")
    }
}

/// A solve is taken only after a factorization, and only for a square
/// matrix of the structure that was factorized, with vectors of its
/// dimension.
pub proof fn lemma_solve_needs_factorization(
    state: DssState,
    info: MatrixInfo,
    x_dim: usize,
    rhs_dim: usize,
)
    ensures
        state.solve_refusal(info, x_dim, rhs_dim) is None <==> {
            &&& state.factorized
            &&& state.same_structure(info)
            &&& info.ncol == info.nrow
            &&& x_dim == info.nrow
            &&& rhs_dim == info.nrow
        },
{
}

/// After a square matrix was taken for factorization and the native
/// call succeeded, the same matrix is taken again, for another
/// factorization and for a solve with vectors of its dimension; a
/// matrix of another structure is refused for both.
pub proof fn lemma_factorize_then_solve(state: DssState, info: MatrixInfo, other: MatrixInfo)
    requires
        info.nrow == info.ncol,
        state.factorize_refusal(info) is None,
    ensures
        ({
            let after = DssState { factorized: true, ..state.noted(info) };
            &&& after.same_structure(info)
            &&& after.factorize_refusal(info) is None
            &&& after.factorize_call(info) == state.factorize_call(info)
            &&& after.solve_refusal(info, info.nrow, info.nrow) is None
            &&& !after.same_structure(other) ==> after.factorize_refusal(other) is Some
                && after.solve_refusal(other, other.nrow, other.nrow) is Some
        }),
{
}

} // verus!

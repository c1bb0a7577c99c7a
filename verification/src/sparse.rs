//! Sparse matrix tools: package description and solver status messages.

use vstd::prelude::*;

verus! {

/// Text of the package description.
pub open spec fn desc_text() -> Seq<char> {
    "Sparse matrix tools and solvers"@
}

/// Returns the package description.
pub fn desc() -> (text: String)
    ensures
        text@ == desc_text(),
{
    String::from_str("Sparse matrix tools and solvers")
}

/// The part of a symmetric matrix that is stored.
#[derive(Clone, Copy, Debug, PartialEq, Eq, Structural)]
pub enum Storage {
    /// The lower triangle with the diagonal
    Lower,
    /// The upper triangle with the diagonal
    Upper,
    /// Both triangles
    Full,
}

/// Symmetry that a matrix is declared to have.
#[derive(Clone, Copy, Debug, PartialEq, Eq, Structural)]
pub enum Symmetry {
    /// Symmetric, not necessarily positive-definite
    General(Storage),
    /// Symmetric and positive-definite
    PositiveDefinite(Storage),
}

impl Symmetry {
    /// The part of the matrix that is stored.
    pub open spec fn storage(self) -> Storage {
        match self {
            Symmetry::General(storage) => storage,
            Symmetry::PositiveDefinite(storage) => storage,
        }
    }

    /// The pair of flags (general symmetric, positive-definite).
    pub open spec fn flags(self) -> (i32, i32) {
        match self {
            Symmetry::General(_) => (1, 0),
            Symmetry::PositiveDefinite(_) => (0, 1),
        }
    }

    /// The message with which a storage is refused, if it is: a
    /// required lower triangle is looked at first.
    pub open spec fn storage_refusal(self, must_be_lower: bool, must_be_upper: bool) -> Option<
        Seq<char>,
    > {
        if must_be_lower && self.storage() != Storage::Lower {
            Some(
                match self {
                    Symmetry::General(_) => "if the matrix is general symmetric, the required storage is lower triangular"@,
                    Symmetry::PositiveDefinite(_) => "if the matrix is positive-definite, the required storage is lower triangular"@,
                },
            )
        } else if must_be_upper && self.storage() != Storage::Upper {
            Some(
                match self {
                    Symmetry::General(_) => "if the matrix is general symmetric, the required storage is upper triangular"@,
                    Symmetry::PositiveDefinite(_) => "if the matrix is positive-definite, the required storage is upper triangular"@,
                },
            )
        } else {
            None
        }
    }

    /// Returns the flags (general symmetric, positive-definite) after
    /// checking that the storage is the required one.
    pub fn status(&self, must_be_lower: bool, must_be_upper: bool) -> (res: Result<
        (i32, i32),
        &'static str,
    >)
        ensures
            match self.storage_refusal(must_be_lower, must_be_upper) {
                Some(text) => res is Err && res->Err_0@ == text,
                None => res == Ok::<(i32, i32), &'static str>(self.flags()),
            },
    {
        match self {
            Symmetry::General(storage) => {
                if must_be_lower && !matches!(storage, Storage::Lower) {
                    return Err(
                        "if the matrix is general symmetric, the required storage is lower triangular",
                    );
                }
                if must_be_upper && !matches!(storage, Storage::Upper) {
                    return Err(
                        "if the matrix is general symmetric, the required storage is upper triangular",
                    );
                }
                Ok((1, 0))
            },
            Symmetry::PositiveDefinite(storage) => {
                if must_be_lower && !matches!(storage, Storage::Lower) {
                    return Err(
                        "if the matrix is positive-definite, the required storage is lower triangular",
                    );
                }
                if must_be_upper && !matches!(storage, Storage::Upper) {
                    return Err(
                        "if the matrix is positive-definite, the required storage is upper triangular",
                    );
                }
                Ok((0, 1))
            },
        }
    }
}

/// Text of the error of a number that does not fit 32 bits.
pub open spec fn to_i32_text() -> Seq<char> {
    "cannot downcast usize to i32"@
}

/// Converts a size to the 32-bit integer that the solvers take.
pub fn to_i32(num: usize) -> (res: Result<i32, &'static str>)
    ensures
        num <= i32::MAX ==> res == Ok::<i32, &'static str>(num as i32),
        num > i32::MAX ==> res is Err && res->Err_0@ == to_i32_text(),
{
    if num > 2147483647 {
        Err("cannot downcast usize to i32")
    } else {
        Ok(num as i32)
    }
}

} // verus!

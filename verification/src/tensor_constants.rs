//! Constants of the Mandel representation of second and fourth order
//! tensors: irrational numbers as binary64 bit patterns, and the maps
//! between tensor indices and positions in the vector and matrix forms.

use vstd::prelude::*;

verus! {

/// sqrt(2), as the bits of the nearest binary64 number
pub const SQRT_2: u64 = 0x3ff6a09e667f3bcd;

/// sqrt(3), as the bits of the nearest binary64 number
pub const SQRT_3: u64 = 0x3ffbb67ae8584caa;

/// sqrt(6), as the bits of the nearest binary64 number
pub const SQRT_6: u64 = 0x4003988e1409212e;

/// sqrt(2/3), as the bits of the nearest binary64 number
pub const SQRT_2_BY_3: u64 = 0x3fea20bd700c2c3e;

/// sqrt(3/2), as the bits of the nearest binary64 number
pub const SQRT_3_BY_2: u64 = 0x3ff3988e1409212e;

/// 1/3, as the bits of the nearest binary64 number
pub const ONE_BY_3: u64 = 0x3fd5555555555555;

/// 2/3, as the bits of the nearest binary64 number
pub const TWO_BY_3: u64 = 0x3fe5555555555555;

/// Tolerance to avoid zero division with the J2 invariant (1e-9), as
/// the bits of the nearest binary64 number
pub const TOL_J2: u64 = 0x3e112e0be826d695;

/// Position `m` of the vector form holds component `(i,j)`: the diagonal
/// goes first, then the upper diagonals, and, finally, the lower diagonals.
///
/// ```text
/// ┌   ┐    ┌    ┐
/// │ 0 │    │ 00 │
/// │ 1 │    │ 11 │
/// │ 2 │    │ 22 │    ┌          ┐
/// │ 3 │    │ 01 │    │ 00 01 02 │
/// │ 4 │ => │ 12 │ => │ 10 11 12 │
/// │ 5 │    │ 02 │    │ 20 21 22 │
/// │ 6 │    │ 10 │    └          ┘
/// │ 7 │    │ 21 │
/// │ 8 │    │ 20 │
/// └   ┘    └    ┘
/// ```
pub open spec fn component_of(m: int) -> (int, int) {
    if m == 0 {
        (0, 0)
    } else if m == 1 {
        (1, 1)
    } else if m == 2 {
        (2, 2)
    } else if m == 3 {
        (0, 1)
    } else if m == 4 {
        (1, 2)
    } else if m == 5 {
        (0, 2)
    } else if m == 6 {
        (1, 0)
    } else if m == 7 {
        (2, 1)
    } else {
        (2, 0)
    }
}

/// Position in the vector form of component `(i,j)`.
pub open spec fn position_of(i: int, j: int) -> int {
    if i == j {
        i
    } else if i < j {
        if i == 0 && j == 1 {
            3
        } else if i == 1 && j == 2 {
            4
        } else {
            5
        }
    } else {
        if i == 1 && j == 0 {
            6
        } else if i == 2 && j == 1 {
            7
        } else {
            8
        }
    }
}

/// Position in the vector form of a symmetric tensor, where a component
/// below the diagonal shares the position of its mirror image.
pub open spec fn folded(m: int) -> int {
    if m >= 6 {
        m - 3
    } else {
        m
    }
}

/// Maps the m-th position in the vector representation to (i,j) of Tensor2
pub fn m_to_ij(m: usize) -> (ij: (usize, usize))
    requires
        m < 9,
    ensures
        (ij.0 as int, ij.1 as int) == component_of(m as int),
        ij.0 < 3,
        ij.1 < 3,
{
    if m == 0 {
        (0, 0)
    } else if m == 1 {
        (1, 1)
    } else if m == 2 {
        (2, 2)
    } else if m == 3 {
        (0, 1)
    } else if m == 4 {
        (1, 2)
    } else if m == 5 {
        (0, 2)
    } else if m == 6 {
        (1, 0)
    } else if m == 7 {
        (2, 1)
    } else {
        (2, 0)
    }
}

/// Maps (i,j) of Tensor2 to the m-th position in the vector representation
///
/// Diagonal goes first, then the upper diagonals, and, finally, the lower diagonals.
pub fn ij_to_m(i: usize, j: usize) -> (m: usize)
    requires
        i < 3,
        j < 3,
    ensures
        m == position_of(i as int, j as int),
        m < 9,
{
    if i == j {
        i
    } else if i == 0 {
        if j == 1 {
            3
        } else {
            5
        }
    } else if i == 1 {
        if j == 2 {
            4
        } else {
            6
        }
    } else {
        if j == 1 {
            7
        } else {
            8
        }
    }
}

/// Maps (i,j) of Tensor2 to the m-th position in the vector representation (symmetric version)
pub fn ij_to_m_sym(i: usize, j: usize) -> (m: usize)
    requires
        i < 3,
        j < 3,
    ensures
        m == folded(position_of(i as int, j as int)),
        m < 6,
{
    let m: usize = ij_to_m(i, j);
    if m >= 6 {
        m - 3
    } else {
        m
    }
}

/// Maps the (m,n)-th position in the matrix representation to (i,j,k,l) of Tensor4
pub fn mn_to_ijkl(m: usize, n: usize) -> (ijkl: (usize, usize, usize, usize))
    requires
        m < 9,
        n < 9,
    ensures
        (ijkl.0 as int, ijkl.1 as int) == component_of(m as int),
        (ijkl.2 as int, ijkl.3 as int) == component_of(n as int),
        ijkl.0 < 3 && ijkl.1 < 3 && ijkl.2 < 3 && ijkl.3 < 3,
{
    let (i, j) = m_to_ij(m);
    let (k, l) = m_to_ij(n);
    (i, j, k, l)
}

/// Maps (i,j,k,l) of Tensor4 to the (m,n)-th position in the matrix representation
pub fn ijkl_to_mn(i: usize, j: usize, k: usize, l: usize) -> (mn: (usize, usize))
    requires
        i < 3,
        j < 3,
        k < 3,
        l < 3,
    ensures
        mn.0 == position_of(i as int, j as int),
        mn.1 == position_of(k as int, l as int),
        mn.0 < 9 && mn.1 < 9,
{
    (ij_to_m(i, j), ij_to_m(k, l))
}

/// Maps (i,j,k,l) of Tensor4 to the (m,n)-th position in the matrix representation (minor-symmetric version)
pub fn ijkl_to_mn_sym(i: usize, j: usize, k: usize, l: usize) -> (mn: (usize, usize))
    requires
        i < 3,
        j < 3,
        k < 3,
        l < 3,
    ensures
        mn.0 == folded(position_of(i as int, j as int)),
        mn.1 == folded(position_of(k as int, l as int)),
        mn.0 < 6 && mn.1 < 6,
{
    (ij_to_m_sym(i, j), ij_to_m_sym(k, l))
}

/// The nine positions and the nine components correspond one to one.
pub proof fn lemma_position_component_inverse(m: int, i: int, j: int)
    requires
        0 <= m < 9,
        0 <= i < 3,
        0 <= j < 3,
    ensures
        position_of(component_of(m).0, component_of(m).1) == m,
        component_of(position_of(i, j)) == (i, j),
        0 <= position_of(i, j) < 9,
        0 <= component_of(m).0 < 3 && 0 <= component_of(m).1 < 3,
{
}

/// A component and its mirror image share one position in the
/// symmetric form, and the first six positions are their own.
pub proof fn lemma_folded_is_symmetric(i: int, j: int)
    requires
        0 <= i < 3,
        0 <= j < 3,
    ensures
        folded(position_of(i, j)) == folded(position_of(j, i)),
        0 <= folded(position_of(i, j)) < 6,
        i <= j ==> folded(position_of(i, j)) == position_of(i, j),
{
}

} // verus!

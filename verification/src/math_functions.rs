//! Step functions of a real variable, decided on the bits of binary64
//! numbers.

use vstd::prelude::*;
use crate::binary64::{less, less_equal, lt, ONE, ZERO};

verus! {

/// The bits of minus one
pub const MINUS_ONE: u64 = 0xbff0_0000_0000_0000;

/// The bits of one half
pub const HALF: u64 = 0x3fe0_0000_0000_0000;

/// Calculates negative one raised to the power of n
///
/// ```text
///           ⎧  1  if n is even
/// (-1)ⁿ = = ⎨
///           ⎩ -1  if n is odd
/// ```
pub fn neg_one_pow_n(n: i32) -> (r: u64)
    ensures
        r == if n % 2 == 0 {
            ONE
        } else {
            MINUS_ONE
        },
{
    let distance: u32 = if n >= 0 {
        n as u32
    } else {
        (-(n as i64)) as u32
    };
    if distance % 2 == 0 {
        ONE
    } else {
        MINUS_ONE
    }
}

/// Evaluates the sign function
///
/// ```text
///           ⎧ -1   if x < 0
/// sign(x) = ⎨  0   if x = 0
///           ⎩  1   if x > 0
/// ```
///
/// What is not a number has the sign zero.
pub fn sign(x: u64) -> (r: u64)
    ensures
        r == if less(x, ZERO) {
            MINUS_ONE
        } else if less(ZERO, x) {
            ONE
        } else {
            ZERO
        },
{
    if lt(x, ZERO) {
        MINUS_ONE
    } else if lt(ZERO, x) {
        ONE
    } else {
        ZERO
    }
}

/// Evaluates the ramp function (Macaulay brackets)
///
/// ```text
///           ⎧ 0   if x < 0
/// ramp(x) = ⎨
///           ⎩ x   otherwise
/// ```
pub fn ramp(x: u64) -> (r: u64)
    ensures
        r == if less(x, ZERO) {
            ZERO
        } else {
            x
        },
{
    if lt(x, ZERO) {
        ZERO
    } else {
        x
    }
}

/// Evaluates the Heaviside step function (derivative of ramp(x))
///
/// ```text
///                ⎧ 0    if x < 0
/// heaviside(x) = ⎨ 1/2  if x = 0
///                ⎩ 1    if x > 0
/// ```
pub fn heaviside(x: u64) -> (r: u64)
    ensures
        r == if less(x, ZERO) {
            ZERO
        } else if less(ZERO, x) {
            ONE
        } else {
            HALF
        },
{
    if lt(x, ZERO) {
        ZERO
    } else if lt(ZERO, x) {
        ONE
    } else {
        HALF
    }
}

/// Evaluates the boxcar function
///
/// ```text
///                  ⎧ 0    if x < a or  x > b
/// boxcar(x; a,b) = ⎨ 1/2  if x = a or  x = b
///                  ⎩ 1    if x > a and x < b
/// ```
///
/// The upper edge must be greater than the lower.
pub fn boxcar(x: u64, a: u64, b: u64) -> (r: u64)
    requires
        !less_equal(b, a),
    ensures
        r == if less(x, a) || less(b, x) {
            ZERO
        } else if less(a, x) && less(x, b) {
            ONE
        } else {
            HALF
        },
{
    if lt(x, a) || lt(b, x) {
        ZERO
    } else if lt(a, x) && lt(x, b) {
        ONE
    } else {
        HALF
    }
}

} // verus!

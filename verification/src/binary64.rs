//! Order of the binary64 floating-point numbers, decided on their bits.
//!
//! A binary64 number is held as its 64 bits: one bit for the sign,
//! eleven for the exponent and fifty-two for the fraction. The driver of
//! the ODE solver never computes with such numbers; it only compares
//! them, and a comparison needs nothing but integers.

use vstd::prelude::*;
use vstd::arithmetic::power2::{
    lemma2_to64,
    lemma2_to64_rest,
    lemma_pow2_adds,
    lemma_pow2_pos,
    lemma_pow2_strictly_increases,
    lemma_pow2_unfold,
    pow2,
};
use vstd::arithmetic::div_mod::{lemma_fundamental_div_mod, lemma_fundamental_div_mod_converse};

verus! {

/// The bit of the sign; also the bits of negative zero
pub const SIGN: u64 = 0x8000_0000_0000_0000;

/// The bits of positive infinity
pub const INFINITY: u64 = 0x7ff0_0000_0000_0000;

/// The bits of zero
pub const ZERO: u64 = 0;

/// The bits of one
pub const ONE: u64 = 0x3ff0_0000_0000_0000;

/// The bits of ten times the machine epsilon
pub const TEN_EPSILON: u64 = 0x3ce4_0000_0000_0000;

/// The bits of the machine epsilon
pub const EPSILON: u64 = 0x3cb0_0000_0000_0000;

/// The bits of one tenth
pub const TENTH: u64 = 0x3fb9_9999_9999_999a;

/// Two to the power of fifty-two: the weight of the exponent in the bits
pub const FRACTION_RANGE: u64 = 0x0010_0000_0000_0000;

/// The bits without the sign.
pub open spec fn magnitude(bits: u64) -> int {
    if bits >= SIGN {
        bits - SIGN
    } else {
        bits as int
    }
}

/// The bits are not a number: the exponent is all ones and the fraction
/// is not zero.
pub open spec fn is_nan(bits: u64) -> bool {
    magnitude(bits) > INFINITY
}

/// An integer that orders the numbers as their values do: the magnitude
/// of the bits, negated under the sign bit. Both zeros have key zero.
pub open spec fn order_key(bits: u64) -> int {
    if bits >= SIGN {
        -magnitude(bits)
    } else {
        magnitude(bits)
    }
}

/// The first number is less than the second. Nothing is less than
/// anything if one of the two is not a number.
pub open spec fn less(a: u64, b: u64) -> bool {
    !is_nan(a) && !is_nan(b) && order_key(a) < order_key(b)
}

/// The first number is less than or equal to the second. Nothing is if
/// one of the two is not a number.
pub open spec fn less_equal(a: u64, b: u64) -> bool {
    !is_nan(a) && !is_nan(b) && order_key(a) <= order_key(b)
}

/// Tells whether the bits are not a number
pub fn nan(bits: u64) -> (r: bool)
    ensures
        r == is_nan(bits),
{
    if bits >= SIGN {
        bits - SIGN > INFINITY
    } else {
        bits > INFINITY
    }
}

/// Tells whether the first number is less than the second
pub fn lt(a: u64, b: u64) -> (r: bool)
    ensures
        r == less(a, b),
{
    if nan(a) || nan(b) {
        return false;
    }
    if a >= SIGN {
        let ma: u64 = a - SIGN;
        if b >= SIGN {
            ma > b - SIGN
        } else {
            ma > 0 || b > 0
        }
    } else {
        if b >= SIGN {
            false
        } else {
            a < b
        }
    }
}

/// Tells whether the first number is less than or equal to the second
pub fn le(a: u64, b: u64) -> (r: bool)
    ensures
        r == less_equal(a, b),
{
    if nan(a) || nan(b) {
        return false;
    }
    if a >= SIGN {
        if b >= SIGN {
            a - SIGN >= b - SIGN
        } else {
            true
        }
    } else {
        if b >= SIGN {
            a == 0 && b - SIGN == 0
        } else {
            a <= b
        }
    }
}

/// The number without its sign.
pub open spec fn absolute(bits: u64) -> u64 {
    magnitude(bits) as u64
}

/// Returns the absolute value of a number
pub fn abs(bits: u64) -> (r: u64)
    ensures
        r == absolute(bits),
        is_nan(r) == is_nan(bits),
        !is_nan(bits) ==> less_equal(ZERO, r) && scaled_value(r) == scaled_magnitude(bits),
{
    if bits >= SIGN {
        bits - SIGN
    } else {
        bits
    }
}

/// The lesser of two numbers: if one is not a number, the other; of
/// two equal numbers the first.
pub open spec fn lesser(a: u64, b: u64) -> u64 {
    if is_nan(a) {
        b
    } else if is_nan(b) {
        a
    } else if order_key(b) < order_key(a) {
        b
    } else {
        a
    }
}

/// The greater of two numbers: if one is not a number, the other; of
/// two equal numbers the first.
pub open spec fn greater(a: u64, b: u64) -> u64 {
    if is_nan(a) {
        b
    } else if is_nan(b) {
        a
    } else if order_key(a) < order_key(b) {
        b
    } else {
        a
    }
}

/// A number brought into the range from `low` to `high`: raised to
/// `low` if it is below or not a number, then lowered to `high`.
pub open spec fn bounded(x: u64, low: u64, high: u64) -> u64 {
    lesser(high, greater(low, x))
}

/// Returns the lesser of two numbers
pub fn min(a: u64, b: u64) -> (r: u64)
    ensures
        r == lesser(a, b),
{
    if nan(a) {
        b
    } else if nan(b) {
        a
    } else if lt(b, a) {
        b
    } else {
        a
    }
}

/// Returns the greater of two numbers
pub fn max(a: u64, b: u64) -> (r: u64)
    ensures
        r == greater(a, b),
{
    if nan(a) {
        b
    } else if nan(b) {
        a
    } else if lt(a, b) {
        b
    } else {
        a
    }
}

/// Brings a number into the range from `low` to `high`
pub fn clamp(x: u64, low: u64, high: u64) -> (r: u64)
    ensures
        r == bounded(x, low, high),
{
    min(high, max(low, x))
}

/// The lesser of two numbers is one of them and above neither; the
/// greater is one of them and below neither.
pub proof fn lemma_lesser_greater(a: u64, b: u64)
    ensures
        lesser(a, b) == a || lesser(a, b) == b,
        greater(a, b) == a || greater(a, b) == b,
        !is_nan(a) && !is_nan(b) ==> {
            &&& less_equal(lesser(a, b), a)
            &&& less_equal(lesser(a, b), b)
            &&& less_equal(a, greater(a, b))
            &&& less_equal(b, greater(a, b))
        },
        is_nan(lesser(a, b)) <==> is_nan(a) && is_nan(b),
        is_nan(greater(a, b)) <==> is_nan(a) && is_nan(b),
{
}

/// Whatever is brought into a range lies within it: between two bounds
/// that are numbers, the lower not above the upper, the result is a
/// number, not below the lower bound and not above the upper. A number
/// that lies within the range is left as it is.
pub proof fn lemma_bounded_within(x: u64, low: u64, high: u64)
    requires
        less_equal(low, high),
    ensures
        !is_nan(bounded(x, low, high)),
        less_equal(low, bounded(x, low, high)),
        less_equal(bounded(x, low, high), high),
        scaled_value(low) <= scaled_value(bounded(x, low, high)) <= scaled_value(high),
        less_equal(low, x) && less_equal(x, high) ==> order_key(bounded(x, low, high))
            == order_key(x),
        less(low, x) && less(x, high) ==> bounded(x, low, high) == x,
{
    lemma_less_is_order_of_values(low, bounded(x, low, high));
    lemma_less_is_order_of_values(bounded(x, low, high), high);
}

/// The numbers are ordered as numbers should be: nothing is less than
/// itself, the order is transitive, of two numbers one is less or they
/// are equal, and less-or-equal is less or equal. The two zeros are
/// equal, and what is not a number compares with nothing.
pub proof fn lemma_order(a: u64, b: u64, c: u64)
    ensures
        !less(a, a),
        less(a, b) && less(b, c) ==> less(a, c),
        less(a, b) ==> !less(b, a),
        less_equal(a, b) <==> less(a, b) || (!is_nan(a) && !is_nan(b) && order_key(a)
            == order_key(b)),
        !is_nan(a) && !is_nan(b) ==> (less(a, b) || less(b, a) || order_key(a) == order_key(b)),
        !is_nan(a) && !is_nan(b) ==> (less_equal(a, b) <==> !less(b, a)),
        order_key(ZERO) == order_key(SIGN),
        is_nan(a) ==> !less(a, b) && !less(b, a) && !less_equal(a, b) && !less_equal(b, a),
        !is_nan(a) && !is_nan(b) && order_key(a) == order_key(b) ==> a == b || (magnitude(a) == 0
            && magnitude(b) == 0),
{
}

/// The exponent field of the bits.
pub open spec fn exponent(bits: u64) -> int {
    magnitude(bits) / (FRACTION_RANGE as int)
}

/// The fraction field of the bits.
pub open spec fn fraction(bits: u64) -> int {
    magnitude(bits) % (FRACTION_RANGE as int)
}

/// The absolute value of the number, in units of the smallest positive
/// number (two to the power of -1074): the fraction alone below the
/// normal range, else the fraction with its leading one, doubled once
/// for each step of the exponent above one. For the bits of infinity
/// this is a number above every finite one.
pub open spec fn scaled_magnitude(bits: u64) -> int {
    if exponent(bits) == 0 {
        fraction(bits)
    } else {
        (FRACTION_RANGE + fraction(bits)) * pow2((exponent(bits) - 1) as nat)
    }
}

/// The value of the number in units of the smallest positive number.
pub open spec fn scaled_value(bits: u64) -> int {
    if bits >= SIGN {
        -scaled_magnitude(bits)
    } else {
        scaled_magnitude(bits)
    }
}

/// Of two numbers without sign, the one with the smaller bits has the
/// smaller value.
pub proof fn lemma_magnitude_orders_values(a: u64, b: u64)
    requires
        magnitude(a) < magnitude(b),
    ensures
        0 <= scaled_magnitude(a) < scaled_magnitude(b),
{
    let r = FRACTION_RANGE as int;
    let (ea, fa) = (exponent(a), fraction(a));
    let (eb, fb) = (exponent(b), fraction(b));
    lemma_fundamental_div_mod(magnitude(a), r);
    lemma_fundamental_div_mod(magnitude(b), r);
    assert(0 <= ea <= eb) by (nonlinear_arith)
        requires
            0 <= magnitude(a) < magnitude(b),
            ea == magnitude(a) / r,
            eb == magnitude(b) / r,
            r > 0,
    ;
    if ea == eb {
        if ea > 0 {
            lemma_pow2_pos((ea - 1) as nat);
            vstd::arithmetic::mul::lemma_mul_strict_inequality(
                r + fa,
                r + fb,
                pow2((ea - 1) as nat) as int,
            );
            assert(0 <= (r + fa) * pow2((ea - 1) as nat)) by (nonlinear_arith)
                requires
                    0 <= r + fa,
                    0 < pow2((ea - 1) as nat),
            ;
        }
    } else {
        // the value of `a` stays below the first value of the next exponent
        let pb = pow2((eb - 1) as nat) as int;
        lemma_pow2_pos((eb - 1) as nat);
        if ea > 0 {
            let pa = pow2((ea - 1) as nat) as int;
            lemma_pow2_pos((ea - 1) as nat);
            lemma_pow2_unfold(ea as nat);
            if ea < eb - 1 {
                lemma_pow2_strictly_increases(ea as nat, (eb - 1) as nat);
            }
            assert(2 * pa <= pb);
            assert((r + fa) * pa < r * pb) by (nonlinear_arith)
                requires
                    0 <= fa < r,
                    0 < pa,
                    2 * pa <= pb,
            ;
            assert(0 <= (r + fa) * pa) by (nonlinear_arith)
                requires
                    0 <= fa,
                    0 < r,
                    0 < pa,
            ;
        } else {
            assert(fa < r * pb) by (nonlinear_arith)
                requires
                    0 <= fa < r,
                    1 <= pb,
            ;
        }
        assert(r * pb <= (r + fb) * pb) by (nonlinear_arith)
            requires
                0 <= fb,
                0 < pb,
        ;
    }
}

/// The order decided on the bits is the order of the values: of two
/// numbers, the first is less than the second exactly when its value is.
pub proof fn lemma_less_is_order_of_values(a: u64, b: u64)
    requires
        !is_nan(a),
        !is_nan(b),
    ensures
        less(a, b) <==> scaled_value(a) < scaled_value(b),
        less_equal(a, b) <==> scaled_value(a) <= scaled_value(b),
        scaled_value(a) == 0 <==> magnitude(a) == 0,
{
    if magnitude(a) < magnitude(b) {
        lemma_magnitude_orders_values(a, b);
    }
    if magnitude(b) < magnitude(a) {
        lemma_magnitude_orders_values(b, a);
    }
    if magnitude(a) > 0 {
        lemma_magnitude_orders_values(ZERO, a);
    }
    if magnitude(b) > 0 {
        lemma_magnitude_orders_values(ZERO, b);
    }
    assert(scaled_magnitude(ZERO) == 0);
    if magnitude(a) == 0 {
        assert(scaled_magnitude(a) == 0);
    }
    if magnitude(b) == 0 {
        assert(scaled_magnitude(b) == 0);
    }
    if magnitude(a) == magnitude(b) {
        assert(scaled_magnitude(a) == scaled_magnitude(b));
    }
}

/// The number of units of the smallest positive number that make one.
pub open spec fn unit() -> int {
    pow2(1074) as int
}

/// The count that the ceiling of a number converts to: zero for what
/// is not a number and for a number that is not positive, else the
/// least integer that is not below the number, or the largest count
/// that the machine has if that is less.
pub open spec fn ceiling_count(q: u64) -> int {
    if is_nan(q) || order_key(q) <= 0 {
        0
    } else {
        let ceiling = (scaled_value(q) + unit() - 1) / unit();
        if ceiling > usize::MAX {
            usize::MAX as int
        } else {
            ceiling
        }
    }
}

/// The quotient that rounds a value up to whole units is the least
/// integer whose units are not below the value.
pub proof fn lemma_ceiling_quotient(value: int, units: int, n: int)
    requires
        units > 0,
        (n - 1) * units < value <= n * units,
    ensures
        (value + units - 1) / units == n,
{
    assert((n - 1) * units == n * units - units) by (nonlinear_arith);
    lemma_fundamental_div_mod_converse(
        value + units - 1,
        units,
        n,
        value + units - 1 - n * units,
    );
}

/// Returns two to the power of `k`
fn power_of_two(k: u64) -> (p: u64)
    requires
        k <= 52,
    ensures
        p == pow2(k as nat),
        1 <= p <= FRACTION_RANGE,
{
    let mut p: u64 = 1;
    let mut i: u64 = 0;
    proof {
        lemma2_to64();
        lemma2_to64_rest();
    }
    while i < k
        invariant
            i <= k <= 52,
            p == pow2(i as nat),
            pow2(52) == 0x10000000000000,
        decreases k - i,
    {
        proof {
            lemma_pow2_unfold((i + 1) as nat);
            if i + 1 < 52 {
                lemma_pow2_strictly_increases((i + 1) as nat, 52);
            }
        }
        p = p * 2;
        i += 1;
    }
    proof {
        lemma_pow2_pos(k as nat);
        if k < 52 {
            lemma_pow2_strictly_increases(k as nat, 52);
        }
    }
    p
}

/// Converts a whole number to a count, the largest count standing for
/// what is above it
fn to_count(whole: u64) -> (n: usize)
    ensures
        n == if whole > usize::MAX {
            usize::MAX as int
        } else {
            whole as int
        },
{
    if whole > usize::MAX as u64 {
        usize::MAX
    } else {
        whole as usize
    }
}

/// Returns the ceiling of a number as a count
///
/// What is not a number and what is not positive gives zero; a number
/// above the largest count, and infinity, gives the largest count.
pub fn ceil_count(q: u64) -> (n: usize)
    ensures
        n == ceiling_count(q),
{
    if nan(q) || q >= SIGN || q == 0 {
        return 0;
    }
    let e: u64 = q / FRACTION_RANGE;
    let f: u64 = q % FRACTION_RANGE;
    let sig: u64 = FRACTION_RANGE + f;
    proof {
        lemma2_to64();
        lemma2_to64_rest();
        lemma_pow2_pos(1074);
        assert(e == exponent(q) && f == fraction(q));
        assert(e <= 2047) by (nonlinear_arith)
            requires
                e == q / FRACTION_RANGE,
                q <= INFINITY,
        ;
        if e >= 1 {
            lemma_pow2_pos((e - 1) as nat);
        }
    }
    if e < 1023 {
        proof {
            // a positive number below one
            let v = scaled_value(q);
            if e == 0 {
                lemma_pow2_strictly_increases(52, 1074);
            } else {
                let a = pow2((e - 1) as nat) as int;
                lemma_pow2_adds(53, (e - 1) as nat);
                if e + 52 < 1074 {
                    lemma_pow2_strictly_increases((e + 52) as nat, 1074);
                }
                assert(0 < sig * a < pow2(53) * a) by (nonlinear_arith)
                    requires
                        0 < sig < pow2(53),
                        0 < a,
                ;
            }
            assert(0 < v <= unit());
            lemma_ceiling_quotient(v, unit(), 1);
        }
        return 1;
    }
    if e >= 1087 {
        proof {
            // a number of two to the power of sixty-four at least
            let v = scaled_value(q);
            let a = pow2((e - 1) as nat) as int;
            lemma_pow2_adds(1074, 12);
            if e - 1 > 1086 {
                lemma_pow2_strictly_increases(1086, (e - 1) as nat);
            }
            assert(pow2(1086) <= a);
            assert(sig * a >= pow2(64) * unit()) by (nonlinear_arith)
                requires
                    sig >= 0x10000000000000,
                    a >= unit() * 0x1000,
                    unit() > 0,
                    pow2(64) == 0x10000000000000000,
            ;
            let big = pow2(64) as int;
            assert((big - 1) * unit() < v) by (nonlinear_arith)
                requires
                    v >= big * unit(),
                    unit() > 0,
            ;
            let c = (v + unit() - 1) / unit();
            if c < big {
                lemma_fundamental_div_mod(v + unit() - 1, unit());
                assert(unit() * c <= unit() * (big - 1)) by (nonlinear_arith)
                    requires
                        c <= big - 1,
                        unit() > 0,
                ;
                assert(unit() * (big - 1) == (big - 1) * unit()) by (nonlinear_arith);
                assert(false);
            }
        }
        return usize::MAX;
    }
    if e >= 1075 {
        // a whole number
        let p: u64 = power_of_two(e - 1075);
        proof {
            let a = pow2((e - 1) as nat) as int;
            lemma_pow2_adds(1074, (e - 1075) as nat);
            if e - 1075 < 11 {
                lemma_pow2_strictly_increases((e - 1075) as nat, 11);
            }
            assert(sig * p < 0x10000000000000000) by (nonlinear_arith)
                requires
                    sig < 0x20000000000000,
                    p <= 0x800,
            ;
            let whole = sig * p;
            assert(sig * a == whole * unit()) by (nonlinear_arith)
                requires
                    a == unit() * p,
                    whole == sig * p,
            ;
            assert((whole - 1) * unit() < whole * unit()) by (nonlinear_arith)
                requires
                    unit() > 0,
            ;
            lemma_ceiling_quotient(scaled_value(q), unit(), whole);
        }
        to_count(sig * p)
    } else {
        // a number with a fraction
        let p: u64 = power_of_two(1075 - e);
        let whole: u64 = sig / p;
        let rest: u64 = sig % p;
        let up: u64 = if rest != 0 {
            whole + 1
        } else {
            whole
        };
        proof {
            let a = pow2((e - 1) as nat) as int;
            lemma_pow2_adds((e - 1) as nat, (1075 - e) as nat);
            assert(unit() == a * p);
            lemma_fundamental_div_mod(sig as int, p as int);
            assert(sig == p * whole + rest);
            assert((up - 1) * p < sig <= up * p) by (nonlinear_arith)
                requires
                    sig == p * whole + rest,
                    0 <= rest < p,
                    up == if rest != 0 {
                        whole + 1
                    } else {
                        whole as int
                    },
            ;
            assert((up - 1) * unit() < sig * a <= up * unit()) by (nonlinear_arith)
                requires
                    (up - 1) * p < sig <= up * p,
                    unit() == a * p,
                    a > 0,
            ;
            lemma_ceiling_quotient(scaled_value(q), unit(), up as int);
        }
        to_count(up)
    }
}

/// The ceiling of a positive number that the counts of the machine can
/// hold is the least count that is not below the number.
pub proof fn lemma_ceiling_count_is_least(q: u64)
    requires
        !is_nan(q),
        order_key(q) > 0,
        scaled_value(q) <= usize::MAX * unit(),
    ensures
        1 <= ceiling_count(q) <= usize::MAX,
        (ceiling_count(q) - 1) * unit() < scaled_value(q) <= ceiling_count(q) * unit(),
{
    let v = scaled_value(q);
    let u = unit();
    lemma_pow2_pos(1074);
    lemma_less_is_order_of_values(ZERO, q);
    assert(scaled_value(ZERO) == 0);
    let c = (v + u - 1) / u;
    lemma_fundamental_div_mod(v + u - 1, u);
    let r = (v + u - 1) % u;
    assert(u * c == c * u) by (nonlinear_arith);
    assert((c - 1) * u == c * u - u) by (nonlinear_arith);
    assert(0 <= r < u);
    if c > usize::MAX {
        assert(c * u >= (usize::MAX + 1) * u) by (nonlinear_arith)
            requires
                c >= usize::MAX + 1,
                u > 0,
        ;
        assert((usize::MAX + 1) * u == usize::MAX * u + u) by (nonlinear_arith);
        assert(false);
    }
    if c < 1 {
        assert(c * u <= 0) by (nonlinear_arith)
            requires
                c <= 0,
                u > 0,
        ;
        assert(false);
    }
}

} // verus!

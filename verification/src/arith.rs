//! Integer division helpers.

use vstd::prelude::*;

verus! {

/// Quotient and remainder of `x` divided by `y`.
///
/// The pair satisfies the fundamental property of integer division:
/// `x == y * quotient + remainder`, with `remainder < y`.
pub fn divmod(x: u64, y: u64) -> (r: (u64, u64))
    requires
        y != 0,
    ensures
        r.0 == x as int / y as int,
        r.1 == x as int % y as int,
        x == y * r.0 + r.1,
        r.1 < y,
{
    proof {
        vstd::arithmetic::div_mod::lemma_fundamental_div_mod(x as int, y as int);
    }
    let quotient = x / y;
    let remainder = x % y;
    (quotient, remainder)
}

/// The magnitude of `x` as a `u64`; defined for every `i64`, including
/// `i64::MIN`, whose magnitude does not fit back into an `i64`.
fn magnitude(x: i64) -> (r: u64)
    ensures
        x >= 0 ==> r == x,
        x < 0 ==> r == -(x as int),
{
    if x >= 0 {
        x as u64
    } else {
        let t = -(x + 1);
        (t as u64) + 1
    }
}

/// `-n` as an `i64`, for magnitudes up to `2^63`.
fn negated(n: u64) -> (r: i64)
    requires
        n <= i64::MAX as u64 + 1,
    ensures
        r == -(n as int),
{
    if n == 0 {
        0
    } else {
        let t = (n - 1) as i64;
        -t - 1
    }
}

/// Quotient and remainder of `x` divided by `y` under truncating integer
/// division, the native semantics for signed operands: the quotient is
/// rounded toward zero and the remainder carries the sign of the
/// dividend.
///
/// The pair satisfies `x == y * quotient + remainder`, with the
/// remainder smaller than `y` in magnitude, which pins the pair down
/// uniquely. The one combination whose quotient is unrepresentable,
/// `i64::MIN` divided by `-1`, is excluded.
pub fn divmod_i64(x: i64, y: i64) -> (r: (i64, i64))
    requires
        y != 0,
        !(x == i64::MIN && y == -1),
    ensures
        x == y * r.0 + r.1,
        x >= 0 ==> r.1 >= 0,
        x <= 0 ==> r.1 <= 0,
        y > 0 ==> -y < r.1 < y,
        y < 0 ==> y < r.1 < -y,
        x >= 0 && y > 0 ==> r.0 == x as int / y as int && r.1 == x as int % y as int,
{
    let xa = magnitude(x);
    let ya = magnitude(y);
    let (qa, ra) = divmod(xa, ya);
    proof {
        vstd::arithmetic::div_mod::lemma_div_nonincreasing(xa as int, ya as int);
        if ya >= 2 {
            vstd::arithmetic::div_mod::lemma_div_is_ordered_by_denominator(
                xa as int,
                2,
                ya as int,
            );
            vstd::arithmetic::div_mod::lemma_div_is_ordered(
                xa as int,
                0x8000000000000000,
                2,
            );
        }
    }
    let rem: i64 = if x >= 0 {
        ra as i64
    } else {
        negated(ra)
    };
    let quo: i64 = if (x >= 0) == (y > 0) {
        qa as i64
    } else {
        negated(qa)
    };
    proof {
        assert(x == y * quo + rem) by (nonlinear_arith)
            requires
                xa == ya * qa + ra,
                xa == (if x >= 0 { x as int } else { -(x as int) }),
                ya == (if y >= 0 { y as int } else { -(y as int) }),
                rem as int == (if x >= 0 { ra as int } else { -(ra as int) }),
                quo as int == (if (x >= 0) == (y > 0) { qa as int } else { -(qa as int) }),
                y != 0,
        {}
    }
    (quo, rem)
}

} // verus!

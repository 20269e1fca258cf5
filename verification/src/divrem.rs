//! Division and remainder as the storage integers compute them.
//!
//! Executable integer division truncates toward zero, while `/` and `%` in
//! specifications are Euclidean. The spec functions here state the truncating
//! forms, normalised to a positive divisor, and the lemmas give the facts
//! about them that the scaled-value arithmetic needs: the quotient stays in
//! the storage range, and division undoes an exact multiplication.

use vstd::prelude::*;

verus! {

use vstd::arithmetic::div_mod::{
    lemma_div_multiples_vanish,
    lemma_div_nonincreasing,
    lemma_div_of0,
    lemma_div_pos_is_pos,
    lemma_div_is_ordered_by_denominator,
    lemma_fundamental_div_mod,
};
use vstd::arithmetic::mul::{lemma_mul_cancels_negatives, lemma_mul_unary_negation};

/// The quotient of `x` by `d`, rounded toward zero, as the storage types
/// divide. `d` is taken to be nonzero.
pub open spec fn div_trunc(x: int, d: int) -> int {
    let p = if d < 0 {
        -d
    } else {
        d
    };
    let q = if 0 <= x {
        x / p
    } else {
        -((-x) / p)
    };
    if d < 0 {
        -q
    } else {
        q
    }
}

/// The remainder of `x` by `d` that pairs with [`div_trunc`]: it carries the
/// sign of `x` and satisfies `x == d * div_trunc(x, d) + rem_trunc(x, d)`.
pub open spec fn rem_trunc(x: int, d: int) -> int {
    let p = if d < 0 {
        -d
    } else {
        d
    };
    if 0 <= x {
        x % p
    } else {
        -((-x) % p)
    }
}

/// A truncated quotient of an `i64` value fits in `i64`, as long as the one
/// overflowing pair — the least value divided by minus one — is excluded.
pub proof fn lemma_div_trunc_in_range(x: int, d: int)
    requires
        d != 0,
        i64::MIN <= x <= i64::MAX,
        !(x == i64::MIN && d == -1),
    ensures
        i64::MIN <= div_trunc(x, d) <= i64::MAX,
{
    let p = if d < 0 {
        -d
    } else {
        d
    };
    let m = if 0 <= x {
        x
    } else {
        -x
    };
    lemma_div_pos_is_pos(m, p);
    lemma_div_nonincreasing(m, p);
    if x == i64::MIN && d != 1 {
        lemma_div_is_ordered_by_denominator(m, 2, p);
        assert(m / p <= m / 2);
    }
}

/// The truncated remainder of an `i64` value by an `i64` divisor fits in
/// `i64`: its magnitude is below the divisor's.
pub proof fn lemma_rem_trunc_in_range(x: int, d: int)
    requires
        d != 0,
        i64::MIN <= x <= i64::MAX,
        i64::MIN <= d <= i64::MAX,
    ensures
        i64::MIN < rem_trunc(x, d) < -(i64::MIN as int),
        ({
            let p = if d < 0 {
                -d
            } else {
                d
            };
            -p < rem_trunc(x, d) < p
        }),
{
    let p = if d < 0 {
        -d
    } else {
        d
    };
    let m = if 0 <= x {
        x
    } else {
        -x
    };
    assert(0 <= m % p < p);
}

/// Dividing an exact multiple gives back the other factor: truncation never
/// loses anything on a product.
pub proof fn lemma_div_trunc_exact(k: int, d: int)
    requires
        d != 0,
    ensures
        div_trunc(k * d, d) == k,
{
    let p = if d < 0 {
        -d
    } else {
        d
    };
    let x = k * d;
    lemma_mul_unary_negation(k, p);
    if d < 0 {
        assert(x == k * (-p));
        assert(x == (-k) * p);
    }
    lemma_div_multiples_vanish(k, p);
    lemma_div_multiples_vanish(-k, p);
}

/// Exact divisibility in Euclidean terms carries over to truncating
/// division: when a positive `d` divides `x`, the truncated quotient times
/// `d` restores `x`.
pub proof fn lemma_div_trunc_of_divisible(x: int, d: int)
    requires
        0 < d,
        x % d == 0,
    ensures
        div_trunc(x, d) * d == x,
{
    let k = x / d;
    vstd::arithmetic::div_mod::lemma_fundamental_div_mod(x, d);
    assert(x == k * d);
    lemma_div_trunc_exact(k, d);
}

/// The truncating pair satisfies the division identity:
/// `x == d * div_trunc(x, d) + rem_trunc(x, d)`.
pub proof fn lemma_trunc_fundamental(x: int, d: int)
    requires
        d != 0,
    ensures
        x == d * div_trunc(x, d) + rem_trunc(x, d),
{
    let p = if d < 0 {
        -d
    } else {
        d
    };
    let m = if 0 <= x {
        x
    } else {
        -x
    };
    let q = m / p;
    lemma_fundamental_div_mod(m, p);
    lemma_mul_unary_negation(p, q);
    lemma_mul_cancels_negatives(p, q);
}

/// The truncating quotient, spelt out one sign case at a time, each over a
/// positive divisor.
pub proof fn lemma_div_trunc_cases(x: int, d: int)
    requires
        d != 0,
    ensures
        x == 0 ==> div_trunc(x, d) == 0,
        x > 0 && d > 0 ==> div_trunc(x, d) == x / d,
        x < 0 && d < 0 ==> div_trunc(x, d) == (x * -1) / (d * -1),
        x < 0 && d > 0 ==> div_trunc(x, d) == ((x * -1) / d) * -1,
        x > 0 && d < 0 ==> div_trunc(x, d) == (x / (d * -1)) * -1,
{
    if x == 0 {
        lemma_div_trunc_of0(d);
    }
}

/// The truncating remainder, spelt out one sign case at a time, each over a
/// positive divisor.
pub proof fn lemma_rem_trunc_cases(x: int, d: int)
    requires
        d != 0,
    ensures
        x == 0 ==> rem_trunc(x, d) == 0,
        x > 0 && d > 0 ==> rem_trunc(x, d) == x % d,
        x < 0 && d < 0 ==> rem_trunc(x, d) == ((x * -1) % (d * -1)) * -1,
        x < 0 && d > 0 ==> rem_trunc(x, d) == ((x * -1) % d) * -1,
        x > 0 && d < 0 ==> rem_trunc(x, d) == x % (d * -1),
{
    if x == 0 {
        lemma_div_trunc_of0(d);
    }
}

/// Division of zero gives zero, whatever the divisor.
pub proof fn lemma_div_trunc_of0(d: int)
    requires
        d != 0,
    ensures
        div_trunc(0, d) == 0,
        rem_trunc(0, d) == 0,
{
    let p = if d < 0 {
        -d
    } else {
        d
    };
    lemma_div_of0(p);
}

} // verus!

//! The algebra of scaled values, proved once and for all: what conversion
//! leaves alone and what it undoes, and how addition behaves between
//! commensurate values. Each law is stated over the same spec functions
//! that the operations' contracts use.

use vstd::prelude::*;

verus! {

use vstd::arithmetic::power::{pow, lemma_pow0, lemma_pow_positive};
use vstd::std_specs::ops::{AddSpec, MulSpec, DivSpec};

use crate::{commensurate, convert_bits, Fix};
use crate::divrem::{lemma_div_trunc_exact, lemma_div_trunc_in_range, lemma_div_trunc_of_divisible};

/// Converting a value to the exponent it already has changes nothing.
pub proof fn lemma_convert_identity(v: Fix)
    ensures
        v.converted(v.exp) == v,
{
    lemma_pow0(v.base as int);
}

/// Converting to another exponent and back restores the value, as long as
/// nothing overflows on the way up and the way down divides exactly.
pub proof fn lemma_convert_round_trip(v: Fix, e2: i32)
    requires
        v.wf(),
        v.exp - e2 >= 0 ==> i64::MIN <= convert_bits(
            v.bits as int,
            v.base as int,
            v.exp - e2,
        ) <= i64::MAX,
        v.exp - e2 < 0 ==> (v.bits as int) % pow(v.base as int, (e2 - v.exp) as nat) == 0,
    ensures
        v.converted(e2).converted(v.exp) == v,
{
    let b = v.base as int;
    let x = v.bits as int;
    let d = v.exp - e2;
    if d >= 0 {
        let r = pow(b, d as nat);
        lemma_pow_positive(b, d as nat);
        let w = v.converted(e2);
        assert(w.bits == x * r);
        if d == 0 {
            lemma_pow0(b);
            assert(w.bits * pow(b, 0nat) == x);
        } else {
            lemma_div_trunc_exact(x, r);
        }
    } else {
        let r = pow(b, (-d) as nat);
        lemma_pow_positive(b, (-d) as nat);
        lemma_div_trunc_in_range(x, r);
        lemma_div_trunc_of_divisible(x, r);
        let w = v.converted(e2);
        assert(w.bits * r == x);
    }
}

/// Adding commensurate values gives the same sum in either order.
pub proof fn lemma_add_commutes(a: Fix, b: Fix)
    requires
        commensurate(a, b),
    ensures
        a.add_spec(b) == b.add_spec(a),
{
}

/// Grouping does not matter when three commensurate values are added, as
/// long as every intermediate sum is representable.
pub proof fn lemma_add_associates(a: Fix, b: Fix, c: Fix)
    requires
        commensurate(a, b),
        commensurate(b, c),
        i64::MIN <= a.bits + b.bits <= i64::MAX,
        i64::MIN <= b.bits + c.bits <= i64::MAX,
        i64::MIN <= a.bits + b.bits + c.bits <= i64::MAX,
    ensures
        a.add_spec(b).add_spec(c) == a.add_spec(b.add_spec(c)),
{
}

/// The scale algebra of the two operations that move the scale: the
/// exponents add under multiplication and subtract under division.
pub proof fn lemma_scale_algebra(a: Fix, b: Fix)
    requires
        i32::MIN <= a.exp + b.exp <= i32::MAX,
        i32::MIN <= a.exp - b.exp <= i32::MAX,
    ensures
        a.mul_spec(b).exp == a.exp + b.exp,
        a.div_spec(b).exp == a.exp - b.exp,
        a.mul_spec(b).base == a.base,
        a.div_spec(b).base == a.base,
{
}

} // verus!

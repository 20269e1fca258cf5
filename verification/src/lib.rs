//! Fixed-point numbers: an integer magnitude carried at a scale that is
//! fixed when the value is made.
//!
//! A [`Fix`] represents the quantity `bits × base^exp`. The raw magnitude
//! `bits` is the only part that takes part in arithmetic; `base` and `exp`
//! name the scale and never change behind the caller's back. Negation,
//! addition, subtraction and the raw-magnitude operations keep the scale;
//! multiplication and division of two scaled values combine the exponents
//! (they add under `*` and subtract under `/`); an explicit [`Fix::convert`]
//! moves a value to another exponent by multiplying or dividing the
//! magnitude by a power of the base.
//!
//! Operations that only make sense between values at one scale — addition,
//! subtraction, the ordering — state that as a precondition, so a mismatch
//! is rejected when the calling code is verified, never at run time.

use vstd::prelude::*;

pub mod divrem;
pub mod laws;
pub mod render;
pub mod storage;

verus! {

use vstd::arithmetic::power::{pow, lemma_pow_positive};
use vstd::math::abs;
use divrem::{div_trunc, rem_trunc, lemma_div_trunc_in_range, lemma_rem_trunc_in_range};
use storage::{FromUnsigned, Pow};

/// The magnitude after a conversion across `diff`, the old exponent minus
/// the new one: scaled up by `base^diff` when the exponent shrinks, divided
/// toward zero by `base^(-diff)` when it grows.
pub open spec fn convert_bits(bits: int, base: int, diff: int) -> int {
    if diff < 0 {
        div_trunc(bits, pow(base, (-diff) as nat))
    } else {
        bits * pow(base, diff as nat)
    }
}

/// A fixed-point number: the quantity `bits × base^exp`.
///
/// `bits` is the raw integer magnitude; `base` (at least 2) and `exp` fix
/// the scale. The scale fields are set at construction; no operation
/// rewrites them in place, and only [`Fix::convert`], multiplication and
/// division produce a value at another scale.
#[derive(Clone, Copy, PartialEq, Eq, Structural, Hash, Debug)]
pub struct Fix {
    /// The underlying integer.
    pub bits: i64,
    /// The radix of the scale, at least 2.
    pub base: u32,
    /// The power of `base` by which `bits` is scaled.
    pub exp: i32,
}

/// Two scaled values may be added, subtracted or ordered only when they
/// agree on the whole scale: same base and same exponent.
pub open spec fn commensurate(a: Fix, b: Fix) -> bool {
    a.base == b.base && a.exp == b.exp
}

impl Fix {
    /// The representation invariant: the radix is a meaningful one.
    pub open spec fn wf(self) -> bool {
        2 <= self.base
    }

    /// Creates a number from its raw magnitude and its scale.
    pub fn new(bits: i64, base: u32, exp: i32) -> (r: Fix)
        requires
            2 <= base,
        ensures
            r == (Fix { bits, base, exp }),
            r.wf(),
    {
        Fix { bits, base, exp }
    }

    /// The value this one converts to at exponent `to_exp`: the magnitude
    /// of [`Fix::convert`]'s result, at the same base.
    pub open spec fn converted(self, to_exp: i32) -> Fix {
        Fix {
            bits: convert_bits(self.bits as int, self.base as int, self.exp - to_exp) as i64,
            base: self.base,
            exp: to_exp,
        }
    }

    /// Converts to another exponent at the same base.
    ///
    /// The magnitude is multiplied by `base^(exp - to_exp)` when the
    /// exponent goes down, and divided by `base^(to_exp - exp)` — toward
    /// zero, losing any remainder — when it goes up. The conversion ratio
    /// and, when multiplying, the result must fit the storage type.
    pub fn convert(self, to_exp: i32) -> (r: Fix)
        requires
            self.wf(),
            pow(self.base as int, abs(self.exp - to_exp)) <= i64::MAX,
            self.exp - to_exp >= 0 ==> i64::MIN <= convert_bits(
                self.bits as int,
                self.base as int,
                self.exp - to_exp,
            ) <= i64::MAX,
        ensures
            r == self.converted(to_exp),
            r.wf(),
    {
        let base_val: i64 = <i64 as FromUnsigned>::from_unsigned(self.base);
        let diff: i64 = (self.exp as i64) - (to_exp as i64);
        if diff < 0 {
            let e: u32 = (-diff) as u32;
            let ratio: i64 = Pow::pow(base_val, e);
            proof {
                lemma_pow_positive(base_val as int, e as nat);
                lemma_div_trunc_in_range(self.bits as int, ratio as int);
            }
            Fix { bits: self.bits / ratio, base: self.base, exp: to_exp }
        } else {
            let e: u32 = diff as u32;
            let ratio: i64 = Pow::pow(base_val, e);
            Fix { bits: self.bits * ratio, base: self.base, exp: to_exp }
        }
    }

    /// Adds a commensurate value in place; the scale stays as it is.
    pub fn add_assign(&mut self, rhs: Fix)
        requires
            commensurate(*old(self), rhs),
            i64::MIN <= old(self).bits + rhs.bits <= i64::MAX,
        ensures
            final(self).bits == old(self).bits + rhs.bits,
            final(self).base == old(self).base,
            final(self).exp == old(self).exp,
    {
        self.bits = self.bits + rhs.bits;
    }

    /// Subtracts a commensurate value in place; the scale stays as it is.
    pub fn sub_assign(&mut self, rhs: Fix)
        requires
            commensurate(*old(self), rhs),
            i64::MIN <= old(self).bits - rhs.bits <= i64::MAX,
        ensures
            final(self).bits == old(self).bits - rhs.bits,
            final(self).base == old(self).base,
            final(self).exp == old(self).exp,
    {
        self.bits = self.bits - rhs.bits;
    }

    /// Multiplies the raw magnitude in place; the scale stays as it is.
    pub fn mul_assign(&mut self, rhs: i64)
        requires
            i64::MIN <= old(self).bits * rhs <= i64::MAX,
        ensures
            final(self).bits == old(self).bits * rhs,
            final(self).base == old(self).base,
            final(self).exp == old(self).exp,
    {
        self.bits = self.bits * rhs;
    }

    /// Divides the raw magnitude in place, truncating toward zero; the
    /// scale stays as it is.
    pub fn div_assign(&mut self, rhs: i64)
        requires
            rhs != 0,
            !(old(self).bits == i64::MIN && rhs == -1),
        ensures
            final(self).bits == div_trunc(old(self).bits as int, rhs as int),
            final(self).base == old(self).base,
            final(self).exp == old(self).exp,
    {
        proof {
            divrem::lemma_div_trunc_cases(self.bits as int, rhs as int);
            lemma_div_trunc_in_range(self.bits as int, rhs as int);
        }
        self.bits = self.bits.checked_div(rhs).unwrap();
    }

    /// Replaces the magnitude by its remainder against another scaled
    /// value's magnitude, whatever that value's exponent; the scale stays
    /// as it is.
    pub fn rem_assign(&mut self, rhs: Fix)
        requires
            old(self).base == rhs.base,
            rhs.bits != 0,
            !(old(self).bits == i64::MIN && rhs.bits == -1),
        ensures
            final(self).bits == rem_trunc(old(self).bits as int, rhs.bits as int),
            final(self).base == old(self).base,
            final(self).exp == old(self).exp,
    {
        proof {
            divrem::lemma_rem_trunc_cases(self.bits as int, rhs.bits as int);
            lemma_rem_trunc_in_range(self.bits as int, rhs.bits as int);
        }
        self.bits = self.bits.checked_rem(rhs.bits).unwrap();
    }

    /// Replaces the magnitude by its remainder against a raw value; the
    /// scale stays as it is.
    pub fn rem_assign_bits(&mut self, rhs: i64)
        requires
            rhs != 0,
            !(old(self).bits == i64::MIN && rhs == -1),
        ensures
            final(self).bits == rem_trunc(old(self).bits as int, rhs as int),
            final(self).base == old(self).base,
            final(self).exp == old(self).exp,
    {
        proof {
            divrem::lemma_rem_trunc_cases(self.bits as int, rhs as int);
            lemma_rem_trunc_in_range(self.bits as int, rhs as int);
        }
        self.bits = self.bits.checked_rem(rhs).unwrap();
    }
}

impl PartialOrd for Fix {
    /// Orders two scaled values by their magnitudes when they are
    /// commensurate; values at different scales are not comparable and
    /// give `None`.
    fn partial_cmp(&self, other: &Fix) -> (r: Option<core::cmp::Ordering>) {
        if self.base == other.base && self.exp == other.exp {
            if self.bits < other.bits {
                Some(core::cmp::Ordering::Less)
            } else if self.bits == other.bits {
                Some(core::cmp::Ordering::Equal)
            } else {
                Some(core::cmp::Ordering::Greater)
            }
        } else {
            None
        }
    }
}

impl vstd::std_specs::cmp::PartialOrdSpecImpl for Fix {
    open spec fn obeys_partial_cmp_spec() -> bool {
        true
    }

    open spec fn partial_cmp_spec(&self, other: &Fix) -> Option<core::cmp::Ordering> {
        if commensurate(*self, *other) {
            if self.bits < other.bits {
                Some(core::cmp::Ordering::Less)
            } else if self.bits == other.bits {
                Some(core::cmp::Ordering::Equal)
            } else {
                Some(core::cmp::Ordering::Greater)
            }
        } else {
            None
        }
    }
}

impl Default for Fix {
    /// The zero of the decimal unit scale: no magnitude, base ten,
    /// exponent zero.
    fn default() -> (r: Fix)
        ensures
            r == (Fix { bits: 0i64, base: 10u32, exp: 0i32 }),
            r.wf(),
    {
        Fix { bits: 0, base: 10, exp: 0 }
    }
}

impl std::ops::Neg for Fix {
    type Output = Fix;

    /// Negates the magnitude; the scale stays as it is.
    fn neg(self) -> (r: Fix) {
        Fix { bits: -self.bits, base: self.base, exp: self.exp }
    }
}

impl vstd::std_specs::ops::NegSpecImpl for Fix {
    open spec fn obeys_neg_spec() -> bool {
        true
    }

    open spec fn neg_req(self) -> bool {
        self.bits != i64::MIN
    }

    open spec fn neg_spec(self) -> Fix {
        Fix { bits: (-self.bits) as i64, base: self.base, exp: self.exp }
    }
}

impl std::ops::Add for Fix {
    type Output = Fix;

    /// Adds the magnitudes of two commensurate values; the scale stays as
    /// it is.
    fn add(self, rhs: Fix) -> (r: Fix) {
        Fix { bits: self.bits + rhs.bits, base: self.base, exp: self.exp }
    }
}

impl vstd::std_specs::ops::AddSpecImpl for Fix {
    open spec fn obeys_add_spec() -> bool {
        true
    }

    open spec fn add_req(self, rhs: Fix) -> bool {
        commensurate(self, rhs) && i64::MIN <= self.bits + rhs.bits <= i64::MAX
    }

    open spec fn add_spec(self, rhs: Fix) -> Fix {
        Fix { bits: (self.bits + rhs.bits) as i64, base: self.base, exp: self.exp }
    }
}

impl std::ops::Sub for Fix {
    type Output = Fix;

    /// Subtracts the magnitude of a commensurate value; the scale stays as
    /// it is.
    fn sub(self, rhs: Fix) -> (r: Fix) {
        Fix { bits: self.bits - rhs.bits, base: self.base, exp: self.exp }
    }
}

impl vstd::std_specs::ops::SubSpecImpl for Fix {
    open spec fn obeys_sub_spec() -> bool {
        true
    }

    open spec fn sub_req(self, rhs: Fix) -> bool {
        commensurate(self, rhs) && i64::MIN <= self.bits - rhs.bits <= i64::MAX
    }

    open spec fn sub_spec(self, rhs: Fix) -> Fix {
        Fix { bits: (self.bits - rhs.bits) as i64, base: self.base, exp: self.exp }
    }
}

impl std::ops::Mul for Fix {
    type Output = Fix;

    /// Multiplies two values at the same base; the exponents add.
    fn mul(self, rhs: Fix) -> (r: Fix) {
        Fix { bits: self.bits * rhs.bits, base: self.base, exp: self.exp + rhs.exp }
    }
}

impl vstd::std_specs::ops::MulSpecImpl for Fix {
    open spec fn obeys_mul_spec() -> bool {
        true
    }

    open spec fn mul_req(self, rhs: Fix) -> bool {
        &&& self.base == rhs.base
        &&& i64::MIN <= self.bits * rhs.bits <= i64::MAX
        &&& i32::MIN <= self.exp + rhs.exp <= i32::MAX
    }

    open spec fn mul_spec(self, rhs: Fix) -> Fix {
        Fix {
            bits: (self.bits * rhs.bits) as i64,
            base: self.base,
            exp: (self.exp + rhs.exp) as i32,
        }
    }
}

impl std::ops::Div for Fix {
    type Output = Fix;

    /// Divides two values at the same base, truncating toward zero; the
    /// exponents subtract.
    fn div(self, rhs: Fix) -> (r: Fix) {
        proof {
            divrem::lemma_div_trunc_cases(self.bits as int, rhs.bits as int);
            lemma_div_trunc_in_range(self.bits as int, rhs.bits as int);
        }
        Fix {
            bits: self.bits.checked_div(rhs.bits).unwrap(),
            base: self.base,
            exp: self.exp - rhs.exp,
        }
    }
}

impl vstd::std_specs::ops::DivSpecImpl for Fix {
    open spec fn obeys_div_spec() -> bool {
        true
    }

    open spec fn div_req(self, rhs: Fix) -> bool {
        &&& self.base == rhs.base
        &&& rhs.bits != 0
        &&& !(self.bits == i64::MIN && rhs.bits == -1)
        &&& i32::MIN <= self.exp - rhs.exp <= i32::MAX
    }

    open spec fn div_spec(self, rhs: Fix) -> Fix {
        Fix {
            bits: div_trunc(self.bits as int, rhs.bits as int) as i64,
            base: self.base,
            exp: (self.exp - rhs.exp) as i32,
        }
    }
}

impl std::ops::Rem for Fix {
    type Output = Fix;

    /// Takes the remainder of the magnitudes, which carries the sign of the
    /// left operand; the left operand's scale is kept, whatever the right
    /// operand's exponent.
    fn rem(self, rhs: Fix) -> (r: Fix) {
        proof {
            divrem::lemma_rem_trunc_cases(self.bits as int, rhs.bits as int);
            lemma_rem_trunc_in_range(self.bits as int, rhs.bits as int);
        }
        Fix { bits: self.bits.checked_rem(rhs.bits).unwrap(), base: self.base, exp: self.exp }
    }
}

impl vstd::std_specs::ops::RemSpecImpl for Fix {
    open spec fn obeys_rem_spec() -> bool {
        true
    }

    open spec fn rem_req(self, rhs: Fix) -> bool {
        &&& self.base == rhs.base
        &&& rhs.bits != 0
        &&& !(self.bits == i64::MIN && rhs.bits == -1)
    }

    open spec fn rem_spec(self, rhs: Fix) -> Fix {
        Fix {
            bits: rem_trunc(self.bits as int, rhs.bits as int) as i64,
            base: self.base,
            exp: self.exp,
        }
    }
}

impl std::ops::Mul<i64> for Fix {
    type Output = Fix;

    /// Multiplies the raw magnitude; the scale stays as it is.
    fn mul(self, rhs: i64) -> (r: Fix) {
        Fix { bits: self.bits * rhs, base: self.base, exp: self.exp }
    }
}

impl vstd::std_specs::ops::MulSpecImpl<i64> for Fix {
    open spec fn obeys_mul_spec() -> bool {
        true
    }

    open spec fn mul_req(self, rhs: i64) -> bool {
        i64::MIN <= self.bits * rhs <= i64::MAX
    }

    open spec fn mul_spec(self, rhs: i64) -> Fix {
        Fix { bits: (self.bits * rhs) as i64, base: self.base, exp: self.exp }
    }
}

impl std::ops::Div<i64> for Fix {
    type Output = Fix;

    /// Divides the raw magnitude, truncating toward zero; the scale stays
    /// as it is.
    fn div(self, rhs: i64) -> (r: Fix) {
        proof {
            divrem::lemma_div_trunc_cases(self.bits as int, rhs as int);
            lemma_div_trunc_in_range(self.bits as int, rhs as int);
        }
        Fix { bits: self.bits.checked_div(rhs).unwrap(), base: self.base, exp: self.exp }
    }
}

impl vstd::std_specs::ops::DivSpecImpl<i64> for Fix {
    open spec fn obeys_div_spec() -> bool {
        true
    }

    open spec fn div_req(self, rhs: i64) -> bool {
        rhs != 0 && !(self.bits == i64::MIN && rhs == -1)
    }

    open spec fn div_spec(self, rhs: i64) -> Fix {
        Fix { bits: div_trunc(self.bits as int, rhs as int) as i64, base: self.base, exp: self.exp }
    }
}

impl std::ops::Rem<i64> for Fix {
    type Output = Fix;

    /// Takes the remainder of the raw magnitude, which carries the sign of
    /// the left operand; the scale stays as it is.
    fn rem(self, rhs: i64) -> (r: Fix) {
        proof {
            divrem::lemma_rem_trunc_cases(self.bits as int, rhs as int);
            lemma_rem_trunc_in_range(self.bits as int, rhs as int);
        }
        Fix { bits: self.bits.checked_rem(rhs).unwrap(), base: self.base, exp: self.exp }
    }
}

impl vstd::std_specs::ops::RemSpecImpl<i64> for Fix {
    open spec fn obeys_rem_spec() -> bool {
        true
    }

    open spec fn rem_req(self, rhs: i64) -> bool {
        rhs != 0 && !(self.bits == i64::MIN && rhs == -1)
    }

    open spec fn rem_spec(self, rhs: i64) -> Fix {
        Fix { bits: rem_trunc(self.bits as int, rhs as int) as i64, base: self.base, exp: self.exp }
    }
}

} // verus!

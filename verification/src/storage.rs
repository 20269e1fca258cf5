//! The capability that every admissible storage integer offers the
//! conversion algorithm: materialise a radix as a runtime value, and raise
//! such a value to a small non-negative power.
//!
//! [`Storage`] gives each admissible integer type a mathematical view — its
//! value and its range as unbounded integers — and [`FromUnsigned`] and
//! [`Pow`] state their contracts over that view, so the two operations mean
//! the same thing at every width and signedness.

use vstd::prelude::*;

verus! {

use vstd::arithmetic::power::{pow, lemma_pow_increases, lemma0_pow};

/// The mathematical view of a storage integer: its value and the range of
/// its type, as unbounded integers.
pub trait Storage: Sized {
    /// The value as a mathematical integer.
    spec fn as_int(&self) -> int;

    /// The least value the type can hold.
    spec fn min_int() -> int;

    /// The greatest value the type can hold.
    spec fn max_int() -> int;
}

/// Materialising a radix, handed over as a plain `u32`, as a value of the
/// storage type.
pub trait FromUnsigned: Storage {
    /// Creates the value of this type equal to `u`.
    fn from_unsigned(u: u32) -> (r: Self)
        requires
            u as int <= Self::max_int(),
        ensures
            r.as_int() == u as int,
    ;
}

/// Exponentiation by repeated multiplication in the storage type.
///
/// The conversion algorithm raises only the materialised radix, so a
/// non-negative receiver is all that is asked; the power must fit in the
/// type.
pub trait Pow: Storage {
    /// Raises `self` to the power of `exp`.
    fn pow(self, exp: u32) -> (r: Self)
        requires
            0 <= self.as_int(),
            pow(self.as_int(), exp as nat) <= Self::max_int(),
        ensures
            r.as_int() == pow(self.as_int(), exp as nat),
    ;
}

impl Storage for u8 {
    open spec fn as_int(&self) -> int {
        *self as int
    }

    open spec fn min_int() -> int {
        0
    }

    open spec fn max_int() -> int {
        u8::MAX as int
    }
}

impl FromUnsigned for u8 {
    fn from_unsigned(u: u32) -> (r: u8) {
        u as u8
    }
}

impl Pow for u8 {
    fn pow(self, exp: u32) -> (r: u8) {
        let mut acc: u8 = 1;
        let mut i: u32 = 0;
        proof {
            vstd::arithmetic::power::lemma_pow0(self as int);
        }
        while i < exp
            invariant
                i <= exp,
                pow(self as int, exp as nat) <= u8::MAX,
                acc as int == pow(self as int, i as nat),
            decreases exp - i,
        {
            proof {
                lemma_pow_step(self as int, i as nat);
                lemma_pow_within(self as int, (i + 1) as nat, exp as nat, u8::MAX as int);
            }
            acc = acc * self;
            i = i + 1;
        }
        acc
    }
}

impl Storage for u16 {
    open spec fn as_int(&self) -> int {
        *self as int
    }

    open spec fn min_int() -> int {
        0
    }

    open spec fn max_int() -> int {
        u16::MAX as int
    }
}

impl FromUnsigned for u16 {
    fn from_unsigned(u: u32) -> (r: u16) {
        u as u16
    }
}

impl Pow for u16 {
    fn pow(self, exp: u32) -> (r: u16) {
        let mut acc: u16 = 1;
        let mut i: u32 = 0;
        proof {
            vstd::arithmetic::power::lemma_pow0(self as int);
        }
        while i < exp
            invariant
                i <= exp,
                pow(self as int, exp as nat) <= u16::MAX,
                acc as int == pow(self as int, i as nat),
            decreases exp - i,
        {
            proof {
                lemma_pow_step(self as int, i as nat);
                lemma_pow_within(self as int, (i + 1) as nat, exp as nat, u16::MAX as int);
            }
            acc = acc * self;
            i = i + 1;
        }
        acc
    }
}

impl Storage for u32 {
    open spec fn as_int(&self) -> int {
        *self as int
    }

    open spec fn min_int() -> int {
        0
    }

    open spec fn max_int() -> int {
        u32::MAX as int
    }
}

impl FromUnsigned for u32 {
    fn from_unsigned(u: u32) -> (r: u32) {
        u
    }
}

impl Pow for u32 {
    fn pow(self, exp: u32) -> (r: u32) {
        let mut acc: u32 = 1;
        let mut i: u32 = 0;
        proof {
            vstd::arithmetic::power::lemma_pow0(self as int);
        }
        while i < exp
            invariant
                i <= exp,
                pow(self as int, exp as nat) <= u32::MAX,
                acc as int == pow(self as int, i as nat),
            decreases exp - i,
        {
            proof {
                lemma_pow_step(self as int, i as nat);
                lemma_pow_within(self as int, (i + 1) as nat, exp as nat, u32::MAX as int);
            }
            acc = acc * self;
            i = i + 1;
        }
        acc
    }
}

impl Storage for u64 {
    open spec fn as_int(&self) -> int {
        *self as int
    }

    open spec fn min_int() -> int {
        0
    }

    open spec fn max_int() -> int {
        u64::MAX as int
    }
}

impl FromUnsigned for u64 {
    fn from_unsigned(u: u32) -> (r: u64) {
        u as u64
    }
}

impl Pow for u64 {
    fn pow(self, exp: u32) -> (r: u64) {
        let mut acc: u64 = 1;
        let mut i: u32 = 0;
        proof {
            vstd::arithmetic::power::lemma_pow0(self as int);
        }
        while i < exp
            invariant
                i <= exp,
                pow(self as int, exp as nat) <= u64::MAX,
                acc as int == pow(self as int, i as nat),
            decreases exp - i,
        {
            proof {
                lemma_pow_step(self as int, i as nat);
                lemma_pow_within(self as int, (i + 1) as nat, exp as nat, u64::MAX as int);
            }
            acc = acc * self;
            i = i + 1;
        }
        acc
    }
}

impl Storage for u128 {
    open spec fn as_int(&self) -> int {
        *self as int
    }

    open spec fn min_int() -> int {
        0
    }

    open spec fn max_int() -> int {
        u128::MAX as int
    }
}

impl FromUnsigned for u128 {
    fn from_unsigned(u: u32) -> (r: u128) {
        u as u128
    }
}

impl Pow for u128 {
    fn pow(self, exp: u32) -> (r: u128) {
        let mut acc: u128 = 1;
        let mut i: u32 = 0;
        proof {
            vstd::arithmetic::power::lemma_pow0(self as int);
        }
        while i < exp
            invariant
                i <= exp,
                pow(self as int, exp as nat) <= u128::MAX,
                acc as int == pow(self as int, i as nat),
            decreases exp - i,
        {
            proof {
                lemma_pow_step(self as int, i as nat);
                lemma_pow_within(self as int, (i + 1) as nat, exp as nat, u128::MAX as int);
            }
            acc = acc * self;
            i = i + 1;
        }
        acc
    }
}

impl Storage for usize {
    open spec fn as_int(&self) -> int {
        *self as int
    }

    open spec fn min_int() -> int {
        0
    }

    open spec fn max_int() -> int {
        usize::MAX as int
    }
}

impl FromUnsigned for usize {
    fn from_unsigned(u: u32) -> (r: usize) {
        u as usize
    }
}

impl Pow for usize {
    fn pow(self, exp: u32) -> (r: usize) {
        let mut acc: usize = 1;
        let mut i: u32 = 0;
        proof {
            vstd::arithmetic::power::lemma_pow0(self as int);
        }
        while i < exp
            invariant
                i <= exp,
                pow(self as int, exp as nat) <= usize::MAX,
                acc as int == pow(self as int, i as nat),
            decreases exp - i,
        {
            proof {
                lemma_pow_step(self as int, i as nat);
                lemma_pow_within(self as int, (i + 1) as nat, exp as nat, usize::MAX as int);
            }
            acc = acc * self;
            i = i + 1;
        }
        acc
    }
}

impl Storage for i8 {
    open spec fn as_int(&self) -> int {
        *self as int
    }

    open spec fn min_int() -> int {
        i8::MIN as int
    }

    open spec fn max_int() -> int {
        i8::MAX as int
    }
}

impl FromUnsigned for i8 {
    fn from_unsigned(u: u32) -> (r: i8) {
        u as i8
    }
}

impl Pow for i8 {
    fn pow(self, exp: u32) -> (r: i8) {
        let mut acc: i8 = 1;
        let mut i: u32 = 0;
        proof {
            vstd::arithmetic::power::lemma_pow0(self as int);
        }
        while i < exp
            invariant
                i <= exp,
                0 <= self,
                pow(self as int, exp as nat) <= i8::MAX,
                acc as int == pow(self as int, i as nat),
            decreases exp - i,
        {
            proof {
                lemma_pow_step(self as int, i as nat);
                lemma_pow_within(self as int, (i + 1) as nat, exp as nat, i8::MAX as int);
            }
            acc = acc * self;
            i = i + 1;
        }
        acc
    }
}

impl Storage for i16 {
    open spec fn as_int(&self) -> int {
        *self as int
    }

    open spec fn min_int() -> int {
        i16::MIN as int
    }

    open spec fn max_int() -> int {
        i16::MAX as int
    }
}

impl FromUnsigned for i16 {
    fn from_unsigned(u: u32) -> (r: i16) {
        u as i16
    }
}

impl Pow for i16 {
    fn pow(self, exp: u32) -> (r: i16) {
        let mut acc: i16 = 1;
        let mut i: u32 = 0;
        proof {
            vstd::arithmetic::power::lemma_pow0(self as int);
        }
        while i < exp
            invariant
                i <= exp,
                0 <= self,
                pow(self as int, exp as nat) <= i16::MAX,
                acc as int == pow(self as int, i as nat),
            decreases exp - i,
        {
            proof {
                lemma_pow_step(self as int, i as nat);
                lemma_pow_within(self as int, (i + 1) as nat, exp as nat, i16::MAX as int);
            }
            acc = acc * self;
            i = i + 1;
        }
        acc
    }
}

impl Storage for i32 {
    open spec fn as_int(&self) -> int {
        *self as int
    }

    open spec fn min_int() -> int {
        i32::MIN as int
    }

    open spec fn max_int() -> int {
        i32::MAX as int
    }
}

impl FromUnsigned for i32 {
    fn from_unsigned(u: u32) -> (r: i32) {
        u as i32
    }
}

impl Pow for i32 {
    fn pow(self, exp: u32) -> (r: i32) {
        let mut acc: i32 = 1;
        let mut i: u32 = 0;
        proof {
            vstd::arithmetic::power::lemma_pow0(self as int);
        }
        while i < exp
            invariant
                i <= exp,
                0 <= self,
                pow(self as int, exp as nat) <= i32::MAX,
                acc as int == pow(self as int, i as nat),
            decreases exp - i,
        {
            proof {
                lemma_pow_step(self as int, i as nat);
                lemma_pow_within(self as int, (i + 1) as nat, exp as nat, i32::MAX as int);
            }
            acc = acc * self;
            i = i + 1;
        }
        acc
    }
}

impl Storage for i64 {
    open spec fn as_int(&self) -> int {
        *self as int
    }

    open spec fn min_int() -> int {
        i64::MIN as int
    }

    open spec fn max_int() -> int {
        i64::MAX as int
    }
}

impl FromUnsigned for i64 {
    fn from_unsigned(u: u32) -> (r: i64) {
        u as i64
    }
}

impl Pow for i64 {
    fn pow(self, exp: u32) -> (r: i64) {
        let mut acc: i64 = 1;
        let mut i: u32 = 0;
        proof {
            vstd::arithmetic::power::lemma_pow0(self as int);
        }
        while i < exp
            invariant
                i <= exp,
                0 <= self,
                pow(self as int, exp as nat) <= i64::MAX,
                acc as int == pow(self as int, i as nat),
            decreases exp - i,
        {
            proof {
                lemma_pow_step(self as int, i as nat);
                lemma_pow_within(self as int, (i + 1) as nat, exp as nat, i64::MAX as int);
            }
            acc = acc * self;
            i = i + 1;
        }
        acc
    }
}

impl Storage for i128 {
    open spec fn as_int(&self) -> int {
        *self as int
    }

    open spec fn min_int() -> int {
        i128::MIN as int
    }

    open spec fn max_int() -> int {
        i128::MAX as int
    }
}

impl FromUnsigned for i128 {
    fn from_unsigned(u: u32) -> (r: i128) {
        u as i128
    }
}

impl Pow for i128 {
    fn pow(self, exp: u32) -> (r: i128) {
        let mut acc: i128 = 1;
        let mut i: u32 = 0;
        proof {
            vstd::arithmetic::power::lemma_pow0(self as int);
        }
        while i < exp
            invariant
                i <= exp,
                0 <= self,
                pow(self as int, exp as nat) <= i128::MAX,
                acc as int == pow(self as int, i as nat),
            decreases exp - i,
        {
            proof {
                lemma_pow_step(self as int, i as nat);
                lemma_pow_within(self as int, (i + 1) as nat, exp as nat, i128::MAX as int);
            }
            acc = acc * self;
            i = i + 1;
        }
        acc
    }
}

impl Storage for isize {
    open spec fn as_int(&self) -> int {
        *self as int
    }

    open spec fn min_int() -> int {
        isize::MIN as int
    }

    open spec fn max_int() -> int {
        isize::MAX as int
    }
}

impl FromUnsigned for isize {
    fn from_unsigned(u: u32) -> (r: isize) {
        u as isize
    }
}

impl Pow for isize {
    fn pow(self, exp: u32) -> (r: isize) {
        let mut acc: isize = 1;
        let mut i: u32 = 0;
        proof {
            vstd::arithmetic::power::lemma_pow0(self as int);
        }
        while i < exp
            invariant
                i <= exp,
                0 <= self,
                pow(self as int, exp as nat) <= isize::MAX,
                acc as int == pow(self as int, i as nat),
            decreases exp - i,
        {
            proof {
                lemma_pow_step(self as int, i as nat);
                lemma_pow_within(self as int, (i + 1) as nat, exp as nat, isize::MAX as int);
            }
            acc = acc * self;
            i = i + 1;
        }
        acc
    }
}

/// One unfolding of `pow`: the next power is the base times this one.
proof fn lemma_pow_step(b: int, e: nat)
    ensures
        pow(b, e + 1) == b * pow(b, e),
{
    reveal(pow);
}

/// Every power on the way up to one that fits the range also fits it, as
/// long as the base is not negative.
proof fn lemma_pow_within(b: int, e1: nat, e2: nat, bound: int)
    requires
        0 <= b,
        e1 <= e2,
        1 <= bound,
        pow(b, e2) <= bound,
    ensures
        0 <= pow(b, e1) <= bound,
{
    if b == 0 {
        vstd::arithmetic::power::lemma_pow0(b);
        if e1 > 0 {
            lemma0_pow(e1);
        }
        if e2 > 0 {
            lemma0_pow(e2);
        }
    } else {
        vstd::arithmetic::power::lemma_pow_positive(b, e1);
        lemma_pow_increases(b as nat, e1, e2);
    }
}

} // verus!

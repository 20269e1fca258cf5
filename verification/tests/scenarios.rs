//! Conversion scenarios, the algebraic laws on concrete values, truncation
//! at the lossy edges, the diagnostic rendering, and the storage
//! capability on its own.

use std::cmp::Ordering;

use fix::storage::{FromUnsigned, Pow};
use fix::Fix;

#[test]
fn construct_then_extract() {
    assert_eq!(42, Fix::new(42, 10, 0).bits);
    assert_eq!(-7, Fix::new(-7, 2, 5).bits);
}

#[test]
fn convert_identity() {
    let v = Fix::new(25, 10, -3);
    assert_eq!(v, v.convert(-3));
}

#[test]
fn convert_round_trip() {
    let v = Fix::new(15, 10, 3);
    assert_eq!(v, v.convert(-3).convert(3));
}

#[test]
fn convert_base_two() {
    assert_eq!(Fix::new(1024, 2, 10), Fix::new(1, 2, 20).convert(10));
}

#[test]
fn convert_truncates_toward_zero() {
    assert_eq!(Fix::new(15, 10, 3), Fix::new(15_999_999, 10, -3).convert(3));
    assert_eq!(Fix::new(-15, 10, 3), Fix::new(-15_999_999, 10, -3).convert(3));
}

#[test]
fn add_commutes() {
    let a = Fix::new(17, 10, 2);
    let b = Fix::new(-5, 10, 2);
    assert_eq!(a + b, b + a);
    assert_eq!(Fix::new(12, 10, 2), a + b);
}

#[test]
fn add_associates() {
    let a = Fix::new(1, 10, 2);
    let b = Fix::new(20, 10, 2);
    let c = Fix::new(300, 10, 2);
    assert_eq!((a + b) + c, a + (b + c));
    assert_eq!(Fix::new(321, 10, 2), (a + b) + c);
}

#[test]
fn mul_adds_exponents() {
    assert_eq!(Fix::new(6, 10, 12), Fix::new(2, 10, 5) * Fix::new(3, 10, 7));
}

#[test]
fn div_subtracts_exponents() {
    assert_eq!(Fix::new(3, 10, -2), Fix::new(6, 10, 5) / Fix::new(2, 10, 7));
}

#[test]
fn rem_keeps_left_exponent_and_sign() {
    assert_eq!(Fix::new(-1, 10, 4), Fix::new(-7, 10, 4) % Fix::new(2, 10, -1));
}

#[test]
fn div_truncates_toward_zero() {
    assert_eq!(Fix::new(-3, 10, 0), Fix::new(-7, 10, 0) / Fix::new(2, 10, 0));
    assert_eq!(Fix::new(-3, 10, 0), Fix::new(-7, 10, 0) / 2);
}

#[test]
fn debug_str_form() {
    assert_eq!("5x10^3", Fix::new(5, 10, 3).debug_str());
    assert_eq!("-5x10^-3", Fix::new(-5, 10, -3).debug_str());
    assert_eq!("0x2^0", Fix::new(0, 2, 0).debug_str());
    assert_eq!("1024x2^10", Fix::new(1024, 2, 10).debug_str());
}

#[test]
fn default_is_decimal_unit_zero() {
    assert_eq!(Fix::new(0, 10, 0), Fix::default());
}

#[test]
fn ordering_needs_commensurate_values() {
    let kilo = Fix::new(1, 10, 3);
    let hecto = Fix::new(1, 10, 2);
    assert_eq!(None, kilo.partial_cmp(&hecto));
    assert!(!(kilo < hecto));
    assert_eq!(Some(Ordering::Less), Fix::new(1, 10, 3).partial_cmp(&Fix::new(2, 10, 3)));
    assert_eq!(Some(Ordering::Equal), kilo.partial_cmp(&Fix::new(1, 10, 3)));
}

#[test]
fn equality_sees_the_scale() {
    assert_ne!(Fix::new(5, 10, 3), Fix::new(5, 2, 3));
    assert_ne!(Fix::new(5, 10, 3), Fix::new(5, 10, -3));
    assert_eq!(Fix::new(5, 10, 3), Fix::new(5, 10, 3));
}

#[test]
fn pow_by_repeated_multiplication() {
    assert_eq!(1024u32, Pow::pow(2u32, 10));
    assert_eq!(1_000_000i64, Pow::pow(10i64, 6));
    assert_eq!(128u8, Pow::pow(2u8, 7));
    assert_eq!(1i16, Pow::pow(7i16, 0));
    assert_eq!(0u64, Pow::pow(0u64, 5));
    assert_eq!(1u64, Pow::pow(0u64, 0));
}

#[test]
fn pow_at_the_wide_widths() {
    assert_eq!(1u128 << 100, Pow::pow(2u128, 100));
    assert_eq!(1_000_000_000_000_000_000_000i128, Pow::pow(10i128, 21));
}

#[test]
fn debug_str_at_the_edges() {
    assert_eq!(
        "-9223372036854775808x10^-2147483648",
        Fix::new(i64::MIN, 10, i32::MIN).debug_str()
    );
    assert_eq!("9223372036854775807x2^2147483647", Fix::new(i64::MAX, 2, i32::MAX).debug_str());
}

#[test]
fn from_unsigned_materialises_the_radix() {
    assert_eq!(10i64, <i64 as FromUnsigned>::from_unsigned(10));
    assert_eq!(2u8, <u8 as FromUnsigned>::from_unsigned(2));
    assert_eq!(255u8, <u8 as FromUnsigned>::from_unsigned(255));
    assert_eq!(16usize, <usize as FromUnsigned>::from_unsigned(16));
}

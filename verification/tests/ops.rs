//! The operator suite and conversion, exercised at the decimal scales:
//! exponent 3 (thousands), 0 (units) and -3 (thousandths), base 10.

use fix::Fix;

#[test]
fn convert_milli_to_kilo() {
    assert_eq!(Fix::new(15, 10, 3), Fix::new(15_000_000, 10, -3).convert(3));
}

#[test]
fn convert_kilo_to_milli() {
    assert_eq!(Fix::new(15_000_000, 10, -3), Fix::new(15, 10, 3).convert(-3));
}

#[test]
fn cmp() {
    assert!(Fix::new(1, 10, 3) < Fix::new(2, 10, 3));
}

#[test]
fn neg() {
    assert_eq!(Fix::new(-1, 10, 3), -Fix::new(1, 10, 3));
}

#[test]
fn add() {
    assert_eq!(Fix::new(3, 10, 3), Fix::new(1, 10, 3) + Fix::new(2, 10, 3));
}

#[test]
fn sub() {
    assert_eq!(Fix::new(1, 10, 3), Fix::new(3, 10, 3) - Fix::new(2, 10, 3));
}

#[test]
fn mul() {
    assert_eq!(Fix::new(6, 10, 0), Fix::new(2, 10, 3) * Fix::new(3, 10, -3));
}

#[test]
fn div() {
    assert_eq!(Fix::new(3, 10, 0), Fix::new(6, 10, 3) / Fix::new(2, 10, 3));
}

#[test]
fn rem() {
    assert_eq!(Fix::new(1, 10, 3), Fix::new(6, 10, 3) % Fix::new(5, 10, -3));
}

#[test]
fn mul_bits() {
    assert_eq!(Fix::new(6, 10, 3), Fix::new(2, 10, 3) * 3);
}

#[test]
fn div_bits() {
    assert_eq!(Fix::new(3, 10, 3), Fix::new(6, 10, 3) / 2);
}

#[test]
fn rem_bits() {
    assert_eq!(Fix::new(1, 10, 3), Fix::new(6, 10, 3) % 5);
}

#[test]
fn add_assign() {
    let mut a = Fix::new(1, 10, 3);
    a.add_assign(Fix::new(2, 10, 3));
    assert_eq!(Fix::new(3, 10, 3), a);
}

#[test]
fn sub_assign() {
    let mut a = Fix::new(3, 10, 3);
    a.sub_assign(Fix::new(2, 10, 3));
    assert_eq!(Fix::new(1, 10, 3), a);
}

#[test]
fn mul_assign_bits() {
    let mut a = Fix::new(2, 10, 3);
    a.mul_assign(3);
    assert_eq!(Fix::new(6, 10, 3), a);
}

#[test]
fn div_assign_bits() {
    let mut a = Fix::new(6, 10, 3);
    a.div_assign(2);
    assert_eq!(Fix::new(3, 10, 3), a);
}

#[test]
fn rem_assign() {
    let mut a = Fix::new(6, 10, 3);
    a.rem_assign(Fix::new(5, 10, -3));
    assert_eq!(Fix::new(1, 10, 3), a);
}

#[test]
fn rem_assign_bits() {
    let mut a = Fix::new(6, 10, 3);
    a.rem_assign_bits(5);
    assert_eq!(Fix::new(1, 10, 3), a);
}

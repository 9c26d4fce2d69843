use pcd_acm::text::{decimal, signed_decimal, tree_roots};

#[test]
fn decimal_renders_digits() {
    assert_eq!(decimal(0), "0");
    assert_eq!(decimal(7), "7");
    assert_eq!(decimal(10), "10");
    assert_eq!(decimal(1234567890), "1234567890");
    assert_eq!(decimal(u64::MAX), u64::MAX.to_string());
}

#[test]
fn signed_decimal_renders_sign() {
    assert_eq!(signed_decimal(0), "0");
    assert_eq!(signed_decimal(42), "42");
    assert_eq!(signed_decimal(-5), "-5");
    assert_eq!(signed_decimal(i32::MIN), "-2147483648");
}

#[test]
fn tree_roots_of_three_components() {
    let (mds, vmd) = tree_roots("A.B.C");
    assert_eq!(mds, "A.0.0");
    assert_eq!(vmd, "A.B.0");
}

#[test]
fn tree_roots_of_longer_components() {
    let (mds, vmd) = tree_roots("12.34.56.78");
    assert_eq!(mds, "12.0.0");
    assert_eq!(vmd, "12.34.0");
}

#[test]
fn tree_roots_of_two_components() {
    let (mds, vmd) = tree_roots("1.2");
    assert_eq!(mds, "1.0.0");
    assert_eq!(vmd, "1.2.0");
}

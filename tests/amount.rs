use smart_contracts::amount::BigUint;

fn n(bytes: &[u8]) -> BigUint {
    BigUint::from_bytes_be(bytes.to_vec())
}

#[test]
fn compares_equal_lengths() {
    assert!(n(&[1, 0]).ge(&n(&[0, 255])));
    assert!(!n(&[0, 255]).ge(&n(&[1, 0])));
    assert!(n(&[7, 7]).ge(&n(&[7, 7])));
}

#[test]
fn compares_different_lengths() {
    assert!(n(&[1, 0, 0]).ge(&n(&[255, 255])));
    assert!(!n(&[255]).ge(&n(&[1, 0])));
}

#[test]
fn leading_zeros_do_not_count() {
    assert!(n(&[0, 0, 5]).ge(&n(&[5])));
    assert!(n(&[5]).ge(&n(&[0, 0, 5])));
    assert!(!n(&[0, 0, 4]).ge(&n(&[5])));
}

#[test]
fn zero_is_least() {
    assert!(n(&[3]).ge(&BigUint::zero()));
    assert!(BigUint::zero().ge(&n(&[0, 0])));
    assert!(!BigUint::zero().ge(&n(&[1])));
}

#[test]
fn duplicate_keeps_bytes() {
    assert_eq!(n(&[1, 2, 3]).duplicate().bytes, vec![1, 2, 3]);
}

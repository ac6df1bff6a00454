use casper_ledger::U256;

#[test]
fn checked_add_and_sub() {
    let a = U256::from_u64(u64::MAX);
    let b = U256::from_u64(1);
    let s = a.checked_add(&b).unwrap();
    assert_eq!(s.words, [0, 1, 0, 0]);
    assert_eq!(s.checked_sub(&b), Some(a));
    assert_eq!(b.checked_sub(&a), None);
    assert_eq!(U256::max_value().checked_add(&b), None);
    assert_eq!(U256::from_u64(7).checked_sub(&U256::from_u64(5)), Some(U256::from_u64(2)));
}

#[test]
fn max_and_zero() {
    assert!(U256::max_value().is_max());
    assert!(!U256::from_u64(3).is_max());
    assert!(U256::zero().is_zero());
    assert!(U256::from_u64(3).same(&U256::from_u64(3)));
    assert!(!U256::from_u64(3).same(&U256::from_u64(4)));
    assert_eq!(U256::from_u64(9).add(&U256::from_u64(1)), U256::from_u64(10));
    assert_eq!(U256::from_u64(9).sub(&U256::from_u64(1)), U256::from_u64(8));
}

use casper_ledger::keys::{address_bytes, u256_to_decimal};
use casper_ledger::{key_to_str, AccessControl, Address, U256};

#[test]
fn address_bytes_are_tag_then_hash() {
    let a = Address::contract([7u8; 32]);
    let b = address_bytes(&a);
    assert_eq!(b.len(), 33);
    assert_eq!(b[0], 1);
    assert!(b[1..].iter().all(|x| *x == 7));
    assert_eq!(address_bytes(&Address::null()), vec![0u8; 33]);
}

#[test]
fn key_to_str_is_base64_of_bytes() {
    assert_eq!(key_to_str(&Address::null()), "A".repeat(44));
    let expected = format!("AQ{}", "A".repeat(42));
    assert_eq!(key_to_str(&Address::contract([0u8; 32])), expected);
}

#[test]
fn decimal_text_of_values() {
    assert_eq!(u256_to_decimal(&U256::zero()), "0");
    assert_eq!(u256_to_decimal(&U256::from_u64(1234)), "1234");
    assert_eq!(
        u256_to_decimal(&U256::max_value()),
        "115792089237316195423570985008687907853269984665640564039457584007913129639935"
    );
    assert_eq!(AccessControl::get_role_admin_key(U256::from_u64(42)), "42");
}

#[test]
fn role_member_key_joins_account_and_role() {
    let key = AccessControl::get_role_members_key(U256::from_u64(5), Address::null());
    assert_eq!(key, format!("{}_5", "A".repeat(44)));
}

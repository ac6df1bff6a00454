use vstd::prelude::*;
use vstd::string::StringExecFns;

use crate::address::{Address, AddressKind};
use crate::uint::{words_value, U256};

verus! {

/// The canonical byte encoding of an address: a tag byte (0 for an account,
/// 1 for a contract) followed by the 32 hash bytes.
pub open spec fn address_encoding(a: Address) -> Seq<u8> {
    let tag: u8 = match a.kind {
        AddressKind::Account => 0,
        AddressKind::Contract => 1,
    };
    seq![tag] + a.hash@
}

/// The character of a decimal digit.
pub open spec fn digit_char(d: nat) -> char {
    seq!['0', '1', '2', '3', '4', '5', '6', '7', '8', '9'][d as int]
}

/// The decimal digits of `n`, most significant first, without leading zeros.
pub open spec fn decimal_of(n: nat) -> Seq<char>
    decreases n,
{
    if n < 10 {
        seq![digit_char(n)]
    } else {
        decimal_of(n / 10).push(digit_char(n % 10))
    }
}

/// What `base64::encode` makes of a byte string (standard alphabet, padded).
pub uninterp spec fn base64_of(b: Seq<u8>) -> Seq<char>;

/// Relies on `base64::encode`, whose result depends on the bytes alone.
#[verifier::external_body]
fn base64_encode(b: &Vec<u8>) -> (r: String)
    ensures
        r@ == base64_of(b@),
{
    base64::encode(b)
}

/// Relies on the `Display` impl of `casper_types::U256` (from the `uint`
/// crate): the decimal digits of the value, without leading zeros, and "0"
/// for zero.
#[verifier::external_body]
fn decimal_string(words: [u64; 4]) -> (r: String)
    ensures
        r@ == decimal_of(words_value(words)),
{
    casper_types::U256(words).to_string()
}

/// The canonical byte encoding of an address.
pub fn address_bytes(a: &Address) -> (r: Vec<u8>)
    ensures
        r@ == address_encoding(*a),
{
    let mut r: Vec<u8> = Vec::new();
    match a.kind {
        AddressKind::Account => r.push(0u8),
        AddressKind::Contract => r.push(1u8),
    }
    let mut i: usize = 0;
    while i < 32
        invariant
            i <= 32,
            r@ == address_encoding(*a).subrange(0, i + 1),
        decreases 32 - i,
    {
        r.push(a.hash[i]);
        i = i + 1;
        assert(r@ =~= address_encoding(*a).subrange(0, i + 1));
    }
    assert(r@ =~= address_encoding(*a));
    r
}

/// The text form of an address under which its entries are stored: the
/// base64 encoding of its canonical bytes.
pub fn key_to_str(key: &Address) -> (r: String)
    ensures
        r@ == base64_of(address_encoding(*key)),
{
    let bytes = address_bytes(key);
    base64_encode(&bytes)
}

/// The decimal text of a value.
pub fn u256_to_decimal(v: &U256) -> (r: String)
    ensures
        r@ == decimal_of(v.value()),
{
    decimal_string(v.words)
}

/// Two parts joined by an underscore.
pub fn join_underscore(a: String, b: &String) -> (r: String)
    ensures
        r@ == a@ + "_"@ + b@,
{
    let mut r = a;
    r.append("_");
    r.append(b.as_str());
    r
}

} // verus!

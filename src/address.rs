use vstd::prelude::*;

verus! {

broadcast use vstd::array::group_array_axioms;

/// What an address identifies.
#[derive(Clone, Copy, Debug, PartialEq, Eq, Structural)]
pub enum AddressKind {
    /// An external account, named by its account hash.
    Account,
    /// A contract, named by its package hash.
    Contract,
}

/// An account or contract identity: a kind and a 32-byte hash.
#[derive(Clone, Copy, Debug, PartialEq, Eq)]
pub struct Address {
    pub kind: AddressKind,
    pub hash: [u8; 32],
}

impl Address {
    /// The null address: the account whose hash is all zeros. It is never a
    /// legitimate participant.
    pub open spec fn is_null_spec(self) -> bool {
        &&& self.kind == AddressKind::Account
        &&& forall|i: int| 0 <= i < 32 ==> self.hash[i] == 0
    }

    /// There is exactly one null address.
    pub proof fn lemma_null_unique(a: Address, b: Address)
        requires
            a.is_null_spec(),
            b.is_null_spec(),
        ensures
            a == b,
    {
        assert(a.hash =~= b.hash);
    }

    pub fn account(hash: [u8; 32]) -> (r: Address)
        ensures
            r.kind == AddressKind::Account,
            r.hash == hash,
    {
        Address { kind: AddressKind::Account, hash }
    }

    pub fn contract(hash: [u8; 32]) -> (r: Address)
        ensures
            r.kind == AddressKind::Contract,
            r.hash == hash,
    {
        Address { kind: AddressKind::Contract, hash }
    }

    pub fn null() -> (r: Address)
        ensures
            r.is_null_spec(),
            r == null_address(),
    {
        let r = Address { kind: AddressKind::Account, hash: [0u8; 32] };
        proof {
            lemma_null_address(r);
        }
        r
    }

    pub fn is_null(&self) -> (r: bool)
        ensures
            r == self.is_null_spec(),
    {
        if self.kind != AddressKind::Account {
            return false;
        }
        let mut i: usize = 0;
        while i < 32
            invariant
                i <= 32,
                forall|j: int| 0 <= j < i ==> self.hash[j] == 0,
            decreases 32 - i,
        {
            if self.hash[i] != 0 {
                return false;
            }
            i = i + 1;
        }
        true
    }

    /// Whether both name the same identity.
    pub fn same(&self, other: &Address) -> (r: bool)
        ensures
            r == (*self == *other),
    {
        if self.kind != other.kind {
            return false;
        }
        let mut i: usize = 0;
        while i < 32
            invariant
                i <= 32,
                forall|j: int| 0 <= j < i ==> self.hash[j] == other.hash[j],
            decreases 32 - i,
        {
            if self.hash[i] != other.hash[i] {
                return false;
            }
            i = i + 1;
        }
        assert(self.hash =~= other.hash);
        true
    }
}

} // verus!

verus! {

/// The null address.
pub open spec fn null_address() -> Address {
    choose|a: Address| a.is_null_spec()
}

/// An address is null exactly when it is the null address.
pub proof fn lemma_null_address(a: Address)
    ensures
        a.is_null_spec() <==> a == null_address(),
{
    if a.is_null_spec() {
        Address::lemma_null_unique(a, null_address());
    }
    if a == null_address() {
        assert(exists|b: Address| b.is_null_spec()) by {
            let z = Address { kind: AddressKind::Account, hash: vstd::array::spec_array_fill_for_copy_type::<u8, 32>(0u8) };
            assert(z.is_null_spec());
        }
    }
}

} // verus!

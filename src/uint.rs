use vstd::prelude::*;

verus! {

broadcast use vstd::array::group_array_axioms;

/// The base of one machine word.
pub open spec fn word_base() -> nat {
    0x1_0000_0000_0000_0000
}

/// The largest value a `U256` holds, `2^256 - 1`.
pub open spec fn max_value_spec() -> nat {
    (word_base() * word_base() * word_base() * word_base() - 1) as nat
}

/// The number that four little-endian 64-bit words stand for.
pub open spec fn words_value(w: [u64; 4]) -> nat {
    w[0] as nat + word_base() * (w[1] as nat + word_base() * (w[2] as nat + word_base()
        * w[3] as nat))
}

/// An unsigned 256-bit integer, held as four 64-bit words, least significant
/// first.
#[derive(Clone, Copy, Debug, PartialEq, Eq)]
pub struct U256 {
    pub words: [u64; 4],
}

/// Relies on `casper_types::U256::checked_add` (from the `uint` crate): the
/// sum of two little-endian word arrays, or `None` where it exceeds `2^256 - 1`.
#[verifier::external_body]
fn checked_add_words(a: [u64; 4], b: [u64; 4]) -> (r: Option<[u64; 4]>)
    ensures
        match r {
            Some(w) => words_value(w) == words_value(a) + words_value(b),
            None => words_value(a) + words_value(b) > max_value_spec(),
        },
{
    casper_types::U256(a).checked_add(casper_types::U256(b)).map(|v| v.0)
}

/// Relies on `casper_types::U256::checked_sub` (from the `uint` crate): the
/// difference of two little-endian word arrays, or `None` where the second is
/// the larger.
#[verifier::external_body]
fn checked_sub_words(a: [u64; 4], b: [u64; 4]) -> (r: Option<[u64; 4]>)
    ensures
        match r {
            Some(w) => words_value(w) + words_value(b) == words_value(a),
            None => words_value(a) < words_value(b),
        },
{
    casper_types::U256(a).checked_sub(casper_types::U256(b)).map(|v| v.0)
}

impl U256 {
    /// The number this value stands for.
    pub open spec fn value(self) -> nat {
        words_value(self.words)
    }

    /// Every value fits in 256 bits.
    pub proof fn lemma_bounded(self)
        ensures
            self.value() <= max_value_spec(),
    {
    }

    /// Two values that stand for the same number are the same value.
    pub proof fn lemma_value_injective(self, other: U256)
        requires
            self.value() == other.value(),
        ensures
            self == other,
    {
        assert(self.words[0] == other.words[0]);
        assert(self.words[1] == other.words[1]);
        assert(self.words[2] == other.words[2]);
        assert(self.words[3] == other.words[3]);
        assert(self.words =~= other.words);
    }

    pub fn zero() -> (r: U256)
        ensures
            r.value() == 0,
            r == zero_u256(),
    {
        let r = U256 { words: [0u64, 0u64, 0u64, 0u64] };
        proof {
            lemma_zero_u256(r);
        }
        r
    }

    /// The largest value, `2^256 - 1`.
    pub fn max_value() -> (r: U256)
        ensures
            r.value() == max_value_spec(),
    {
        U256 { words: [u64::MAX, u64::MAX, u64::MAX, u64::MAX] }
    }

    pub fn from_u64(v: u64) -> (r: U256)
        ensures
            r.value() == v,
    {
        U256 { words: [v, 0u64, 0u64, 0u64] }
    }

    pub fn is_max(&self) -> (r: bool)
        ensures
            r == (self.value() == max_value_spec()),
    {
        self.words[0] == u64::MAX && self.words[1] == u64::MAX && self.words[2] == u64::MAX
            && self.words[3] == u64::MAX
    }

    pub fn is_zero(&self) -> (r: bool)
        ensures
            r == (self.value() == 0),
    {
        self.words[0] == 0 && self.words[1] == 0 && self.words[2] == 0 && self.words[3] == 0
    }

    /// Whether both stand for the same number.
    pub fn same(&self, other: &U256) -> (r: bool)
        ensures
            r == (*self == *other),
    {
        let r = self.words[0] == other.words[0] && self.words[1] == other.words[1]
            && self.words[2] == other.words[2] && self.words[3] == other.words[3];
        proof {
            if r {
                assert(self.words =~= other.words);
            }
        }
        r
    }

    /// `self + other`, where the sum is known to fit.
    pub fn add(&self, other: &U256) -> (r: U256)
        requires
            self.value() + other.value() <= max_value_spec(),
        ensures
            r.value() == self.value() + other.value(),
    {
        match self.checked_add(other) {
            Some(s) => s,
            None => vstd::pervasive::unreached(),
        }
    }

    /// `self - other`, where `other` is known not to be the larger.
    pub fn sub(&self, other: &U256) -> (r: U256)
        requires
            other.value() <= self.value(),
        ensures
            r.value() == self.value() - other.value(),
    {
        match self.checked_sub(other) {
            Some(d) => d,
            None => vstd::pervasive::unreached(),
        }
    }

    /// `self + other`, or `None` where the sum exceeds `2^256 - 1`.
    pub fn checked_add(&self, other: &U256) -> (r: Option<U256>)
        ensures
            match r {
                Some(s) => s.value() == self.value() + other.value(),
                None => self.value() + other.value() > max_value_spec(),
            },
    {
        match checked_add_words(self.words, other.words) {
            Some(w) => Some(U256 { words: w }),
            None => None,
        }
    }

    /// `self - other`, or `None` where `other` is the larger.
    pub fn checked_sub(&self, other: &U256) -> (r: Option<U256>)
        ensures
            match r {
                Some(d) => d.value() == self.value() - other.value(),
                None => self.value() < other.value(),
            },
    {
        match checked_sub_words(self.words, other.words) {
            Some(w) => Some(U256 { words: w }),
            None => None,
        }
    }
}

} // verus!

verus! {

/// The value zero.
pub open spec fn zero_u256() -> U256 {
    choose|u: U256| u.value() == 0
}

/// A value is zero exactly when it is `zero_u256()`.
pub proof fn lemma_zero_u256(u: U256)
    ensures
        u.value() == 0 <==> u == zero_u256(),
{
    let z = U256 { words: vstd::array::spec_array_fill_for_copy_type::<u64, 4>(0u64) };
    assert(z.words[0] == 0 && z.words[1] == 0 && z.words[2] == 0 && z.words[3] == 0);
    assert(z.value() == 0);
    let c = zero_u256();
    assert(c.value() == 0);
    if u.value() == 0 {
        u.lemma_value_injective(c);
    }
}

} // verus!

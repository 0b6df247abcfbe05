//! The ledger's amount type: an unsigned 256-bit integer, held as the four
//! little-endian 64-bit words of `sp_core::U256`.

use sp_core::U256;
use vstd::prelude::*;

verus! {

/// 2^64, the weight of one word.
pub open spec fn word_base() -> nat {
    0x1_0000_0000_0000_0000
}

/// 2^256: every amount is strictly below it.
pub open spec fn balance_bound() -> nat {
    word_base() * word_base() * word_base() * word_base()
}

/// The number that four little-endian words stand for.
pub open spec fn words_value(w: [u64; 4]) -> nat {
    w@[0] as nat + word_base() * (w@[1] as nat + word_base() * (w@[2] as nat + word_base()
        * (w@[3] as nat)))
}

/// An amount of tokens in base units.
#[derive(Clone, Copy, Debug, PartialEq, Eq)]
pub struct Balance {
    pub words: [u64; 4],
}

impl View for Balance {
    type V = nat;

    open spec fn view(&self) -> nat {
        words_value(self.words)
    }
}

/// Every amount fits in 256 bits.
pub proof fn lemma_balance_bounded(b: Balance)
    ensures
        b@ < balance_bound(),
{
    let w0 = b.words@[0] as nat;
    let w1 = b.words@[1] as nat;
    let w2 = b.words@[2] as nat;
    let w3 = b.words@[3] as nat;
    let m = word_base();
    assert(w0 < m && w1 < m && w2 < m && w3 < m);
    assert(w2 + m * w3 <= m * m - 1) by (nonlinear_arith)
        requires
            w2 < m,
            w3 < m,
    ;
    assert(w1 + m * (w2 + m * w3) <= m * m * m - 1) by (nonlinear_arith)
        requires
            w1 < m,
            w2 + m * w3 <= m * m - 1,
    ;
    assert(w0 + m * (w1 + m * (w2 + m * w3)) <= m * m * m * m - 1) by (nonlinear_arith)
        requires
            w0 < m,
            w1 + m * (w2 + m * w3) <= m * m * m - 1,
    ;
}

impl Balance {
    /// The amount zero.
    pub fn zero() -> (r: Balance)
        ensures
            r@ == 0,
    {
        Balance { words: [0u64, 0u64, 0u64, 0u64] }
    }

    /// `self + other`, or `None` where the sum does not fit in 256 bits.
    pub fn checked_add(self, other: Balance) -> (r: Option<Balance>)
        ensures
            r matches Some(s) ==> s@ == self@ + other@,
            r is None <==> self@ + other@ >= balance_bound(),
    {
        u256_checked_add(self, other)
    }

    /// `self - other`, or `None` where `other` exceeds `self`.
    pub fn checked_sub(self, other: Balance) -> (r: Option<Balance>)
        ensures
            r matches Some(d) ==> d@ == self@ - other@,
            r is None <==> self@ < other@,
    {
        u256_checked_sub(self, other)
    }
}

impl From<u64> for Balance {
    fn from(x: u64) -> (r: Balance) {
        Balance { words: [x, 0u64, 0u64, 0u64] }
    }
}

impl vstd::std_specs::convert::FromSpecImpl<u64> for Balance {
    open spec fn obeys_from_spec() -> bool {
        true
    }

    open spec fn from_spec(x: u64) -> Balance {
        Balance { words: [x, 0u64, 0u64, 0u64] }
    }
}

/// Relies on `U256::checked_add` (uint): the words of the sum, or `None`
/// when the carry leaves the top word.
#[verifier::external_body]
fn u256_checked_add(a: Balance, b: Balance) -> (r: Option<Balance>)
    ensures
        r matches Some(s) ==> s@ == a@ + b@,
        r is None <==> a@ + b@ >= balance_bound(),
{
    U256(a.words).checked_add(U256(b.words)).map(|s| Balance { words: s.0 })
}

/// Relies on `U256::checked_sub` (uint): the words of the difference, or
/// `None` when a borrow leaves the top word.
#[verifier::external_body]
fn u256_checked_sub(a: Balance, b: Balance) -> (r: Option<Balance>)
    ensures
        r matches Some(d) ==> d@ == a@ - b@,
        r is None <==> a@ < b@,
{
    U256(a.words).checked_sub(U256(b.words)).map(|d| Balance { words: d.0 })
}

} // verus!

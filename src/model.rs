//! The mathematical model of one ledger instance: its supply, balances and
//! allowances as maps to natural numbers, where an absent entry reads as 0.

use vstd::prelude::*;

verus! {

/// An account identifier.
pub type AccountId = u64;

/// What a ledger holds, as numbers.
pub struct LedgerModel {
    pub name: Seq<char>,
    pub symbol: Seq<char>,
    pub decimals: u8,
    pub total_supply: nat,
    pub balances: Map<AccountId, nat>,
    pub allowances: Map<(AccountId, AccountId), nat>,
}

/// The amount that `m` holds for `k`, 0 where it holds none.
pub open spec fn amount_at(m: Map<AccountId, nat>, k: AccountId) -> nat {
    if m.contains_key(k) {
        m[k]
    } else {
        0
    }
}

/// The sum of the amounts of `m` over the accounts in `keys`.
pub open spec fn sum_over(m: Map<AccountId, nat>, keys: Set<AccountId>) -> nat
    decreases keys.len(),
    when keys.finite()
{
    if keys.len() == 0 {
        0
    } else {
        let k = keys.choose();
        amount_at(m, k) + sum_over(m, keys.remove(k))
    }
}

/// The sum of all amounts of `m`.
pub open spec fn sum_of(m: Map<AccountId, nat>) -> nat {
    sum_over(m, m.dom())
}

impl LedgerModel {
    pub open spec fn balance_of(self, a: AccountId) -> nat {
        amount_at(self.balances, a)
    }

    pub open spec fn allowance(self, owner: AccountId, spender: AccountId) -> nat {
        if self.allowances.contains_key((owner, spender)) {
            self.allowances[(owner, spender)]
        } else {
            0
        }
    }

    /// The supply is the sum of all balances, over finitely many accounts.
    pub open spec fn consistent(self) -> bool {
        &&& self.balances.dom().finite()
        &&& self.total_supply == sum_of(self.balances)
    }

    pub open spec fn with_balance(self, a: AccountId, v: nat) -> LedgerModel {
        LedgerModel { balances: self.balances.insert(a, v), ..self }
    }

    pub open spec fn with_allowance(self, owner: AccountId, spender: AccountId, v: nat) -> LedgerModel {
        LedgerModel { allowances: self.allowances.insert((owner, spender), v), ..self }
    }

    /// `v` moved from `from` to `to`; nothing moves where the two are one.
    pub open spec fn moved(self, from: AccountId, to: AccountId, v: nat) -> LedgerModel {
        let taken = self.with_balance(from, (self.balance_of(from) - v) as nat);
        taken.with_balance(to, taken.balance_of(to) + v)
    }

    /// `v` taken off what `spender` may still move out of `owner`'s balance.
    pub open spec fn spent(self, owner: AccountId, spender: AccountId, v: nat) -> LedgerModel {
        self.with_allowance(owner, spender, (self.allowance(owner, spender) - v) as nat)
    }

    /// `v` created on `account`.
    pub open spec fn minted(self, account: AccountId, v: nat) -> LedgerModel {
        LedgerModel {
            total_supply: self.total_supply + v,
            ..self.with_balance(account, self.balance_of(account) + v)
        }
    }

    /// `v` destroyed on `account`.
    pub open spec fn burned(self, account: AccountId, v: nat) -> LedgerModel {
        LedgerModel {
            total_supply: (self.total_supply - v) as nat,
            ..self.with_balance(account, (self.balance_of(account) - v) as nat)
        }
    }
}

/// Taking one account out of a sum leaves the rest.
pub proof fn lemma_sum_remove(m: Map<AccountId, nat>, s: Set<AccountId>, k: AccountId)
    requires
        s.finite(),
        s.contains(k),
    ensures
        sum_over(m, s) == amount_at(m, k) + sum_over(m, s.remove(k)),
    decreases s.len(),
{
    let c = s.choose();
    if c != k {
        lemma_sum_remove(m, s.remove(c), k);
        lemma_sum_remove(m, s.remove(k), c);
        assert(s.remove(c).remove(k) =~= s.remove(k).remove(c));
    }
}

/// A sum reads only the accounts it is taken over.
pub proof fn lemma_sum_frame(m1: Map<AccountId, nat>, m2: Map<AccountId, nat>, s: Set<AccountId>)
    requires
        s.finite(),
        forall|k: AccountId| s.contains(k) ==> amount_at(m1, k) == amount_at(m2, k),
    ensures
        sum_over(m1, s) == sum_over(m2, s),
    decreases s.len(),
{
    if s.len() != 0 {
        let c = s.choose();
        lemma_sum_frame(m1, m2, s.remove(c));
    }
}

/// Writing `v` for `k` changes the sum by `v` less what `k` held.
pub proof fn lemma_sum_insert(m: Map<AccountId, nat>, k: AccountId, v: nat)
    requires
        m.dom().finite(),
    ensures
        m.insert(k, v).dom().finite(),
        sum_of(m.insert(k, v)) + amount_at(m, k) == sum_of(m) + v,
        amount_at(m, k) <= sum_of(m),
{
    let m2 = m.insert(k, v);
    let d2 = m2.dom();
    assert(d2 =~= m.dom().insert(k));
    lemma_sum_remove(m2, d2, k);
    assert(d2.remove(k) =~= m.dom().remove(k));
    lemma_sum_frame(m2, m, m.dom().remove(k));
    if m.dom().contains(k) {
        lemma_sum_remove(m, m.dom(), k);
    } else {
        assert(m.dom().remove(k) =~= m.dom());
    }
}

/// Approving twice for one (owner, spender) pair keeps only the second
/// amount: approve overwrites, it does not add.
pub proof fn lemma_approve_overwrites(
    s: LedgerModel,
    owner: AccountId,
    spender: AccountId,
    v1: nat,
    v2: nat,
)
    ensures
        s.with_allowance(owner, spender, v1).with_allowance(owner, spender, v2) == s.with_allowance(
            owner,
            spender,
            v2,
        ),
        s.with_allowance(owner, spender, v1).with_allowance(owner, spender, v2).allowance(
            owner,
            spender,
        ) == v2,
{
    assert(s.allowances.insert((owner, spender), v1).insert((owner, spender), v2)
        =~= s.allowances.insert((owner, spender), v2));
}

/// Two delegated transfers by one spender out of one owner's balance
/// consume exactly the two amounts from the allowance.
pub proof fn lemma_spends_accumulate(
    s: LedgerModel,
    owner: AccountId,
    spender: AccountId,
    to1: AccountId,
    to2: AccountId,
    v1: nat,
    v2: nat,
)
    requires
        s.allowance(owner, spender) >= v1 + v2,
    ensures
        ({
            let s1 = s.spent(owner, spender, v1).moved(owner, to1, v1);
            let s2 = s1.spent(owner, spender, v2).moved(owner, to2, v2);
            s2.allowance(owner, spender) == s.allowance(owner, spender) - v1 - v2
        }),
{
}

/// Burning what was just minted on an account gives back the supply, every
/// balance and every allowance.
pub proof fn lemma_burn_undoes_mint(s: LedgerModel, account: AccountId, v: nat)
    ensures
        s.minted(account, v).burned(account, v).total_supply == s.total_supply,
        s.minted(account, v).burned(account, v).allowances == s.allowances,
        forall|a: AccountId| #[trigger]
            s.minted(account, v).burned(account, v).balance_of(a) == s.balance_of(a),
{
}

} // verus!

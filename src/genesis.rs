//! Seeding a ledger instance before any operation runs.

use vstd::prelude::*;

use crate::balance::{balance_bound, Balance};
use crate::model::AccountId;
use crate::pallet::{Config, Pallet};

verus! {

/// The sum of all seeded amounts.
pub open spec fn seed_total(s: Seq<(AccountId, Balance)>) -> nat
    decreases s.len(),
{
    if s.len() == 0 {
        0
    } else {
        seed_total(s.drop_last()) + s.last().1@
    }
}

/// The sum of the amounts seeded for `a`: repeated entries add up.
pub open spec fn seed_amount(s: Seq<(AccountId, Balance)>, a: AccountId) -> nat
    decreases s.len(),
{
    if s.len() == 0 {
        0
    } else {
        seed_amount(s.drop_last(), a) + if s.last().0 == a {
            s.last().1@
        } else {
            0
        }
    }
}

/// A prefix of the seed never adds up to more than the whole.
pub proof fn lemma_seed_total_prefix(s: Seq<(AccountId, Balance)>, i: int)
    requires
        0 <= i <= s.len(),
    ensures
        seed_total(s.take(i)) <= seed_total(s),
    decreases s.len(),
{
    if i == s.len() {
        assert(s.take(i) =~= s);
    } else {
        lemma_seed_total_prefix(s.drop_last(), i);
        assert(s.drop_last().take(i) =~= s.take(i));
    }
}

/// The (account, amount) pairs an instance starts from.
pub struct GenesisConfig {
    pub balances: Vec<(AccountId, Balance)>,
}

impl GenesisConfig {
    /// A ledger where each account holds the sum of its seeded amounts, the
    /// supply is the sum of all of them, and no allowance is set.
    pub fn build(&self, config: Config) -> (r: Pallet)
        requires
            seed_total(self.balances@) < balance_bound(),
        ensures
            r.wf(),
            r@.name == config.name@,
            r@.symbol == config.symbol@,
            r@.decimals == config.decimals,
            r@.total_supply == seed_total(self.balances@),
            forall|a: AccountId| #[trigger] r@.balance_of(a) == seed_amount(self.balances@, a),
            r@.allowances == Map::<(AccountId, AccountId), nat>::empty(),
    {
        let ghost seeds = self.balances@;
        let ghost c = (config.name@, config.symbol@, config.decimals);
        let mut p = Pallet::empty(config);
        let mut i: usize = 0;
        while i < self.balances.len()
            invariant
                seeds == self.balances@,
                seed_total(seeds) < balance_bound(),
                i <= seeds.len(),
                p.wf(),
                (p@.name, p@.symbol, p@.decimals) == c,
                p@.total_supply == seed_total(seeds.take(i as int)),
                forall|a: AccountId| #[trigger]
                    p@.balance_of(a) == seed_amount(seeds.take(i as int), a),
                p@.allowances == Map::<(AccountId, AccountId), nat>::empty(),
            decreases seeds.len() - i,
        {
            let (account, amount) = self.balances[i];
            let ghost next = seeds.take(i + 1);
            proof {
                assert(next.drop_last() =~= seeds.take(i as int));
                assert(next.last() == (account, amount));
                lemma_seed_total_prefix(seeds, i + 1);
            }
            let ghost before = p@;
            p.deposit(account, amount);
            assert forall|a: AccountId| #[trigger]
                p@.balance_of(a) == seed_amount(next, a) by {
                assert(before.balance_of(a) == seed_amount(seeds.take(i as int), a));
                assert(next.drop_last() =~= seeds.take(i as int));
            }
            i = i + 1;
        }
        assert(seeds.take(i as int) =~= seeds);
        p
    }
}

} // verus!

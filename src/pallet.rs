//! One ledger instance and its five operations. Each instance owns its
//! storage, so operations on one can never touch another.

use std::collections::BTreeMap;
use vstd::pervasive::unreached;
use vstd::prelude::*;

use crate::balance::{balance_bound, lemma_balance_bounded, Balance};
use crate::model::{lemma_sum_insert, AccountId, LedgerModel};

verus! {

broadcast use vstd::laws_cmp::group_laws_cmp;

/// Who a call comes from, as the authentication layer resolved it.
#[derive(Clone, Copy, Debug, PartialEq, Eq)]
pub enum Origin {
    Signed(AccountId),
    Root,
    Unsigned,
}

/// The two ways an operation can fail on its own terms.
#[derive(Clone, Copy, Debug, PartialEq, Eq)]
pub enum Error {
    ERC20InsufficientBalance,
    ERC20InsufficientAllowance,
}

/// Why a call was rejected: the caller was not the one the operation needs,
/// or the operation itself failed.
#[derive(Clone, Copy, Debug, PartialEq, Eq)]
pub enum DispatchError {
    BadOrigin,
    Module(Error),
}

/// What a successful transfer or approve reports.
#[derive(Clone, Copy, Debug, PartialEq, Eq)]
pub enum Event {
    Transfer { from: AccountId, to: AccountId, value: Balance },
    Approval { owner: AccountId, spender: AccountId, value: Balance },
}

/// The host's description of the token; it has no effect on amounts.
pub struct Config {
    pub name: String,
    pub symbol: String,
    pub decimals: u8,
}

/// A ledger instance: the supply, the balances and the allowances.
pub struct Pallet {
    config: Config,
    total_supply: Balance,
    balances: BTreeMap<AccountId, Balance>,
    allowances: BTreeMap<(AccountId, AccountId), Balance>,
}

impl View for Pallet {
    type V = LedgerModel;

    closed spec fn view(&self) -> LedgerModel {
        LedgerModel {
            name: self.config.name@,
            symbol: self.config.symbol@,
            decimals: self.config.decimals,
            total_supply: self.total_supply@,
            balances: self.balances@.map_values(|b: Balance| b@),
            allowances: self.allowances@.map_values(|b: Balance| b@),
        }
    }
}

impl Pallet {
    /// The supply equals the sum of all balances.
    pub open spec fn wf(&self) -> bool {
        self@.consistent()
    }

    pub fn name(&self) -> (r: &str)
        ensures
            r@ == self@.name,
    {
        self.config.name.as_str()
    }

    pub fn symbol(&self) -> (r: &str)
        ensures
            r@ == self@.symbol,
    {
        self.config.symbol.as_str()
    }

    pub fn decimals(&self) -> (r: u8)
        ensures
            r == self@.decimals,
    {
        self.config.decimals
    }

    pub fn total_supply(&self) -> (r: Balance)
        ensures
            r@ == self@.total_supply,
    {
        self.total_supply
    }

    /// The balance of `account`, 0 where it was never written.
    pub fn balance_of(&self, account: AccountId) -> (r: Balance)
        ensures
            r@ == self@.balance_of(account),
    {
        match self.balances.get(&account) {
            Some(b) => *b,
            None => Balance::zero(),
        }
    }

    /// What `spender` may move out of `owner`'s balance, 0 where never set.
    pub fn allowance(&self, owner: AccountId, spender: AccountId) -> (r: Balance)
        ensures
            r@ == self@.allowance(owner, spender),
    {
        match self.allowances.get(&(owner, spender)) {
            Some(b) => *b,
            None => Balance::zero(),
        }
    }

    fn set_balance(&mut self, account: AccountId, v: Balance)
        ensures
            final(self)@ == old(self)@.with_balance(account, v@),
    {
        self.balances.insert(account, v);
        assert(self@.balances =~= old(self)@.balances.insert(account, v@));
    }

    fn set_allowance(&mut self, owner: AccountId, spender: AccountId, v: Balance)
        ensures
            final(self)@ == old(self)@.with_allowance(owner, spender, v@),
    {
        self.allowances.insert((owner, spender), v);
        assert(self@.allowances =~= old(self)@.allowances.insert((owner, spender), v@));
    }

    /// Takes `value` off the allowance of `spender` over `owner`'s balance,
    /// or fails, changing nothing, where the allowance is smaller.
    fn spend_allowance(&mut self, owner: AccountId, spender: AccountId, value: Balance) -> (r:
        Result<(), Error>)
        ensures
            old(self)@.allowance(owner, spender) < value@ ==> r == Err::<(), Error>(
                Error::ERC20InsufficientAllowance,
            ) && final(self)@ == old(self)@,
            old(self)@.allowance(owner, spender) >= value@ ==> r is Ok && final(self)@ == old(
                self,
            )@.spent(owner, spender, value@),
    {
        let current = self.allowance(owner, spender);
        match current.checked_sub(value) {
            None => Err(Error::ERC20InsufficientAllowance),
            Some(rest) => {
                self.set_allowance(owner, spender, rest);
                Ok(())
            },
        }
    }

    /// Moves `value` from `from` to `to`, or fails, changing nothing, where
    /// `from` holds less.
    fn transfer_impl(&mut self, from: AccountId, to: AccountId, value: Balance) -> (r: Result<
        Event,
        Error,
    >)
        requires
            old(self).wf(),
        ensures
            final(self).wf(),
            old(self)@.balance_of(from) < value@ ==> r == Err::<Event, Error>(
                Error::ERC20InsufficientBalance,
            ) && final(self)@ == old(self)@,
            old(self)@.balance_of(from) >= value@ ==> r == Ok::<Event, Error>(
                (Event::Transfer { from, to, value }),
            ) && final(self)@ == old(self)@.moved(from, to, value@),
    {
        let from_balance = self.balance_of(from);
        match from_balance.checked_sub(value) {
            None => Err(Error::ERC20InsufficientBalance),
            Some(rest) => {
                let ghost s0 = self@;
                proof {
                    lemma_sum_insert(s0.balances, from, rest@);
                }
                self.set_balance(from, rest);
                let to_balance = self.balance_of(to);
                proof {
                    let s1 = self@;
                    lemma_sum_insert(s1.balances, to, (to_balance@ + value@) as nat);
                    lemma_balance_bounded(self.total_supply);
                }
                let sum = to_balance.checked_add(value);
                match sum {
                    Some(new_to) => {
                        self.set_balance(to, new_to);
                        Ok(Event::Transfer { from, to, value })
                    },
                    None => unreached(),
                }
            },
        }
    }

    /// A ledger with the given description and nothing in it.
    pub(crate) fn empty(config: Config) -> (r: Pallet)
        ensures
            r.wf(),
            r@.name == config.name@,
            r@.symbol == config.symbol@,
            r@.decimals == config.decimals,
            r@.total_supply == 0,
            r@.balances == Map::<AccountId, nat>::empty(),
            r@.allowances == Map::<(AccountId, AccountId), nat>::empty(),
    {
        let r = Pallet {
            config,
            total_supply: Balance::zero(),
            balances: BTreeMap::new(),
            allowances: BTreeMap::new(),
        };
        assert(r@.balances =~= Map::<AccountId, nat>::empty());
        assert(r@.allowances =~= Map::<(AccountId, AccountId), nat>::empty());
        r
    }

    /// Adds `value` to `account` and to the supply.
    pub(crate) fn deposit(&mut self, account: AccountId, value: Balance)
        requires
            old(self).wf(),
            old(self)@.total_supply + value@ < balance_bound(),
        ensures
            final(self).wf(),
            final(self)@ == old(self)@.minted(account, value@),
    {
        let ghost s0 = self@;
        let current = self.balance_of(account);
        proof {
            lemma_sum_insert(s0.balances, account, (current@ + value@) as nat);
        }
        let total = self.total_supply.checked_add(value);
        let balance = current.checked_add(value);
        match (total, balance) {
            (Some(t), Some(b)) => {
                self.set_balance(account, b);
                self.total_supply = t;
                assert(self@ == s0.minted(account, value@));
            },
            _ => unreached(),
        }
    }

    /// Moves `value` from the signed caller to `to`.
    pub fn transfer(&mut self, origin: Origin, to: AccountId, value: Balance) -> (r: Result<
        Event,
        DispatchError,
    >)
        requires
            old(self).wf(),
        ensures
            final(self).wf(),
            match origin {
                Origin::Signed(from) => if old(self)@.balance_of(from) < value@ {
                    &&& r == Err::<Event, DispatchError>(
                        DispatchError::Module(Error::ERC20InsufficientBalance),
                    )
                    &&& final(self)@ == old(self)@
                } else {
                    &&& r == Ok::<Event, DispatchError>((Event::Transfer { from, to, value }))
                    &&& final(self)@ == old(self)@.moved(from, to, value@)
                },
                _ => r == Err::<Event, DispatchError>(DispatchError::BadOrigin) && final(self)@
                    == old(self)@,
            },
    {
        match origin {
            Origin::Signed(from) => match self.transfer_impl(from, to, value) {
                Ok(event) => Ok(event),
                Err(e) => Err(DispatchError::Module(e)),
            },
            _ => Err(DispatchError::BadOrigin),
        }
    }

    /// Moves `value` from `from` to `to` on behalf of the signed caller,
    /// spending that much of the allowance `from` gave the caller.
    pub fn transfer_from(
        &mut self,
        origin: Origin,
        from: AccountId,
        to: AccountId,
        value: Balance,
    ) -> (r: Result<Event, DispatchError>)
        requires
            old(self).wf(),
        ensures
            final(self).wf(),
            match origin {
                Origin::Signed(spender) => if old(self)@.allowance(from, spender) < value@ {
                    &&& r == Err::<Event, DispatchError>(
                        DispatchError::Module(Error::ERC20InsufficientAllowance),
                    )
                    &&& final(self)@ == old(self)@
                } else if old(self)@.balance_of(from) < value@ {
                    &&& r == Err::<Event, DispatchError>(
                        DispatchError::Module(Error::ERC20InsufficientBalance),
                    )
                    &&& final(self)@ == old(self)@
                } else {
                    &&& r == Ok::<Event, DispatchError>((Event::Transfer { from, to, value }))
                    &&& final(self)@ == old(self)@.spent(from, spender, value@).moved(
                        from,
                        to,
                        value@,
                    )
                },
                _ => r == Err::<Event, DispatchError>(DispatchError::BadOrigin) && final(self)@
                    == old(self)@,
            },
    {
        match origin {
            Origin::Signed(spender) => {
                // Both conditions are tested before any write, so a failed
                // call leaves the ledger as it was.
                if self.allowance(from, spender).checked_sub(value).is_none() {
                    return Err(DispatchError::Module(Error::ERC20InsufficientAllowance));
                }
                if self.balance_of(from).checked_sub(value).is_none() {
                    return Err(DispatchError::Module(Error::ERC20InsufficientBalance));
                }
                match self.spend_allowance(from, spender, value) {
                    Err(e) => Err(DispatchError::Module(e)),
                    Ok(()) => match self.transfer_impl(from, to, value) {
                        Ok(event) => Ok(event),
                        Err(e) => Err(DispatchError::Module(e)),
                    },
                }
            },
            _ => Err(DispatchError::BadOrigin),
        }
    }

    /// Sets what `spender` may move out of the signed caller's balance to
    /// `value`, whatever it was before.
    pub fn approve(&mut self, origin: Origin, spender: AccountId, value: Balance) -> (r: Result<
        Event,
        DispatchError,
    >)
        requires
            old(self).wf(),
        ensures
            final(self).wf(),
            match origin {
                Origin::Signed(owner) => {
                    &&& r == Ok::<Event, DispatchError>(
                        (Event::Approval { owner, spender, value }),
                    )
                    &&& final(self)@ == old(self)@.with_allowance(owner, spender, value@)
                },
                _ => r == Err::<Event, DispatchError>(DispatchError::BadOrigin) && final(self)@
                    == old(self)@,
            },
    {
        match origin {
            Origin::Signed(owner) => {
                self.set_allowance(owner, spender, value);
                Ok(Event::Approval { owner, spender, value })
            },
            _ => Err(DispatchError::BadOrigin),
        }
    }

    /// Creates `value` on `account`; only the privileged caller may.
    pub fn mint(&mut self, origin: Origin, account: AccountId, value: Balance) -> (r: Result<
        (),
        DispatchError,
    >)
        requires
            old(self).wf(),
            origin is Root ==> old(self)@.total_supply + value@ < balance_bound(),
        ensures
            final(self).wf(),
            origin is Root ==> r is Ok && final(self)@ == old(self)@.minted(account, value@),
            !(origin is Root) ==> r == Err::<(), DispatchError>(DispatchError::BadOrigin)
                && final(self)@ == old(self)@,
    {
        match origin {
            Origin::Root => {
                self.deposit(account, value);
                Ok(())
            },
            _ => Err(DispatchError::BadOrigin),
        }
    }

    /// Destroys `value` on the signed caller's balance, or fails, changing
    /// nothing, where that balance is smaller.
    pub fn burn(&mut self, origin: Origin, value: Balance) -> (r: Result<(), DispatchError>)
        requires
            old(self).wf(),
        ensures
            final(self).wf(),
            match origin {
                Origin::Signed(account) => if old(self)@.balance_of(account) < value@ {
                    &&& r == Err::<(), DispatchError>(
                        DispatchError::Module(Error::ERC20InsufficientBalance),
                    )
                    &&& final(self)@ == old(self)@
                } else {
                    &&& r is Ok
                    &&& final(self)@ == old(self)@.burned(account, value@)
                },
                _ => r == Err::<(), DispatchError>(DispatchError::BadOrigin) && final(self)@
                    == old(self)@,
            },
    {
        match origin {
            Origin::Signed(account) => {
                let ghost s0 = self@;
                let current = self.balance_of(account);
                match current.checked_sub(value) {
                    None => Err(DispatchError::Module(Error::ERC20InsufficientBalance)),
                    Some(rest) => {
                        proof {
                            lemma_sum_insert(s0.balances, account, rest@);
                        }
                        let total = self.total_supply.checked_sub(value);
                        match total {
                            Some(t) => {
                                self.set_balance(account, rest);
                                self.total_supply = t;
                                assert(self@ == s0.burned(account, value@));
                                Ok(())
                            },
                            None => unreached(),
                        }
                    },
                }
            },
            _ => Err(DispatchError::BadOrigin),
        }
    }
}

/// Every amount a ledger holds, its supply, each balance and each allowance,
/// is a natural number below 2^256.
pub proof fn lemma_amounts_in_range(p: Pallet)
    ensures
        p@.total_supply < balance_bound(),
        forall|a: AccountId| #[trigger] p@.balance_of(a) < balance_bound(),
        forall|owner: AccountId, spender: AccountId| #[trigger]
            p@.allowance(owner, spender) < balance_bound(),
{
    lemma_balance_bounded(p.total_supply);
    assert forall|a: AccountId| #[trigger] p@.balance_of(a) < balance_bound() by {
        if p.balances@.contains_key(a) {
            lemma_balance_bounded(p.balances@[a]);
        }
    }
    assert forall|owner: AccountId, spender: AccountId| #[trigger]
        p@.allowance(owner, spender) < balance_bound() by {
        if p.allowances@.contains_key((owner, spender)) {
            lemma_balance_bounded(p.allowances@[(owner, spender)]);
        }
    }
}

} // verus!

//! A fungible-token ledger: per-account balances, a total supply and
//! per-(owner, spender) allowances, with transfer, delegated transfer,
//! approve, mint and burn, each proved to keep the supply equal to the sum
//! of all balances.

pub mod balance;
pub mod genesis;
pub mod model;
pub mod pallet;

pub use balance::Balance;
pub use genesis::GenesisConfig;
pub use model::AccountId;
pub use pallet::{Config, DispatchError, Error, Event, Origin, Pallet};

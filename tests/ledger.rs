use erc20_ledger::{Balance, Config, DispatchError, Error, Event, GenesisConfig, Origin, Pallet};

fn seeded(amount: u64, name: &str, symbol: &str) -> Pallet {
    let genesis = GenesisConfig {
        balances: (1..5u64).map(|id| (id, Balance::from(amount))).collect(),
    };
    genesis.build(Config { name: name.to_string(), symbol: symbol.to_string(), decimals: 18 })
}

fn erc20() -> Pallet {
    seeded(1000, "token name", "TS")
}

fn erc20_another_instance() -> Pallet {
    seeded(500, "another token", "RS")
}

fn b(x: u64) -> Balance {
    Balance::from(x)
}

#[test]
fn transfer_success() {
    let mut erc20 = erc20();
    assert_eq!(erc20.balance_of(1), b(1000));
    assert_eq!(erc20.balance_of(2), b(1000));
    let r = erc20.transfer(Origin::Signed(1), 2, b(100));
    assert_eq!(r, Ok(Event::Transfer { from: 1, to: 2, value: b(100) }));
    assert_eq!(erc20.balance_of(1), b(900));
    assert_eq!(erc20.balance_of(2), b(1100));
}

#[test]
fn transfer_failed_insufficient_balance() {
    let mut erc20 = erc20();
    assert_eq!(erc20.balance_of(1), b(1000));
    assert_eq!(erc20.balance_of(2), b(1000));
    assert_eq!(
        erc20.transfer(Origin::Signed(1), 2, b(2000)),
        Err(DispatchError::Module(Error::ERC20InsufficientBalance))
    );
    assert_eq!(erc20.balance_of(1), b(1000));
    assert_eq!(erc20.balance_of(2), b(1000));
}

#[test]
fn transfer_failed_unsigned_transaction() {
    let mut erc20 = erc20();
    assert_eq!(erc20.transfer(Origin::Unsigned, 2, b(100)), Err(DispatchError::BadOrigin));
    assert_eq!(erc20.balance_of(2), b(1000));
    assert_eq!(erc20.total_supply(), b(4000));
}

#[test]
fn approve_success() {
    let mut erc20 = erc20();
    assert_eq!(erc20.allowance(1, 2), Balance::zero());
    let r = erc20.approve(Origin::Signed(1), 2, b(100));
    assert_eq!(r, Ok(Event::Approval { owner: 1, spender: 2, value: b(100) }));
    assert_eq!(erc20.allowance(1, 2), b(100));
}

#[test]
fn spend_allowance_success() {
    let mut erc20 = erc20();
    assert!(erc20.approve(Origin::Signed(1), 2, b(100)).is_ok());
    assert_eq!(
        erc20.transfer_from(Origin::Signed(2), 1, 3, b(20)),
        Ok(Event::Transfer { from: 1, to: 3, value: b(20) })
    );
    assert_eq!(
        erc20.transfer_from(Origin::Signed(2), 1, 4, b(50)),
        Ok(Event::Transfer { from: 1, to: 4, value: b(50) })
    );
    assert_eq!(erc20.balance_of(1), b(930));
    assert_eq!(erc20.balance_of(2), b(1000));
    assert_eq!(erc20.balance_of(3), b(1020));
    assert_eq!(erc20.balance_of(4), b(1050));
}

#[test]
fn spend_allowance_failure_insufficient_allowance() {
    let mut erc20 = erc20();
    assert!(erc20.approve(Origin::Signed(1), 2, b(100)).is_ok());
    assert!(erc20.transfer_from(Origin::Signed(2), 1, 3, b(100)).is_ok());
    assert_eq!(
        erc20.transfer_from(Origin::Signed(2), 1, 4, b(10)),
        Err(DispatchError::Module(Error::ERC20InsufficientAllowance))
    );
    assert_eq!(erc20.balance_of(1), b(900));
    assert_eq!(erc20.balance_of(4), b(1000));
}

#[test]
fn spend_allowance_failure_insufficient_funds() {
    let mut erc20 = erc20();
    assert!(erc20.approve(Origin::Signed(1), 2, b(1500)).is_ok());
    assert_eq!(
        erc20.transfer_from(Origin::Signed(2), 1, 3, b(1200)),
        Err(DispatchError::Module(Error::ERC20InsufficientBalance))
    );
    assert_eq!(erc20.allowance(1, 2), b(1500));
    assert_eq!(erc20.balance_of(1), b(1000));
}

#[test]
fn mint_new_tokens() {
    let mut erc20 = erc20();
    assert_eq!(erc20.total_supply(), b(4000));
    assert_eq!(erc20.mint(Origin::Root, 2, b(500)), Ok(()));
    assert_eq!(erc20.total_supply(), b(4500));
    assert_eq!(erc20.balance_of(2), b(1500));
}

#[test]
fn burn_tokens() {
    let mut erc20 = erc20();
    assert_eq!(erc20.total_supply(), b(4000));
    assert_eq!(erc20.burn(Origin::Signed(2), b(500)), Ok(()));
    assert_eq!(erc20.total_supply(), b(3500));
    assert_eq!(erc20.balance_of(2), b(500));
}

#[test]
fn different_instances_are_independent() {
    let mut erc20 = erc20();
    let mut another = erc20_another_instance();
    assert_eq!(erc20.balance_of(1), b(1000));
    assert_eq!(erc20.balance_of(2), b(1000));
    assert_eq!(another.balance_of(1), b(500));
    assert_eq!(another.balance_of(2), b(500));

    assert_eq!(
        erc20.transfer(Origin::Signed(1), 2, b(100)),
        Ok(Event::Transfer { from: 1, to: 2, value: b(100) })
    );
    assert_eq!(erc20.balance_of(1), b(900));
    assert_eq!(erc20.balance_of(2), b(1100));
    assert_eq!(another.balance_of(1), b(500));
    assert_eq!(another.balance_of(2), b(500));

    assert_eq!(
        another.transfer(Origin::Signed(1), 2, b(50)),
        Ok(Event::Transfer { from: 1, to: 2, value: b(50) })
    );
    assert_eq!(erc20.balance_of(1), b(900));
    assert_eq!(erc20.balance_of(2), b(1100));
    assert_eq!(another.balance_of(1), b(450));
    assert_eq!(another.balance_of(2), b(550));
}

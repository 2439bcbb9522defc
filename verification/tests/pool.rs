//! The vault beside a gateway that keeps real accounts: the ledger never
//! claims more than the pool holds.

use asset_vault::error::{TransferError, VaultError};
use asset_vault::identity::Identity;
use asset_vault::service::{add_funds, withdraw_funds, FundVault, Transfer, WithdrawFunds};
use asset_vault::vault::Vault;
use std::collections::HashMap;

fn id(tag: u8) -> Identity {
    Identity::new([tag; 32])
}

const POOL: u8 = 200;
const POOL_AUTHORITY: u8 = 201;

/// Asset accounts by address, each with its owner and what it holds.
struct Bank {
    accounts: HashMap<Identity, (Identity, u64)>,
    down: bool,
}

impl Bank {
    fn new() -> Bank {
        let mut accounts = HashMap::new();
        accounts.insert(id(POOL), (id(POOL_AUTHORITY), 0));
        Bank { accounts, down: false }
    }

    fn open(&mut self, address: Identity, owner: Identity, holds: u64) {
        self.accounts.insert(address, (owner, holds));
    }

    fn holds(&self, address: Identity) -> u64 {
        self.accounts[&address].1
    }

    fn transfer(&mut self, order: Transfer) -> Result<(), TransferError> {
        if self.down {
            return Err(TransferError::Unavailable);
        }
        let (owner, available) = self.accounts[&order.from];
        if owner != order.authority {
            return Err(TransferError::Unauthorized);
        }
        if available < order.amount {
            return Err(TransferError::InsufficientBalance);
        }
        self.accounts.get_mut(&order.from).unwrap().1 -= order.amount;
        self.accounts.get_mut(&order.to).unwrap().1 += order.amount;
        Ok(())
    }
}

fn account_of(who: Identity) -> Identity {
    let mut bytes = who.to_bytes();
    bytes[31] = 0xAC;
    Identity::new(bytes)
}

fn deposit(vault: &mut Vault, bank: &mut Bank, who: Identity, amount: u64) -> Result<(), VaultError> {
    let ctx =
        FundVault { vault_account: id(POOL), depositor_account: account_of(who), depositor: who };
    add_funds(vault, &ctx, amount, |order| bank.transfer(order))
}

fn withdraw(
    vault: &mut Vault,
    bank: &mut Bank,
    who: Identity,
    amount: u64,
) -> Result<(), VaultError> {
    let ctx = WithdrawFunds {
        vault_account: id(POOL),
        vault_authority: id(POOL_AUTHORITY),
        withdrawer_account: account_of(who),
        withdrawer: who,
    };
    withdraw_funds(vault, &ctx, amount, |order| bank.transfer(order))
}

fn claimed(vault: &Vault) -> u128 {
    vault.entries().iter().map(|entry| entry.1 as u128).sum()
}

#[test]
fn claimed_sum_equals_pool_holdings_after_every_operation() {
    let a = id(1);
    let b = id(2);
    let c = id(3);
    let mut bank = Bank::new();
    bank.open(account_of(a), a, 1_000);
    bank.open(account_of(b), b, 50);
    bank.open(account_of(c), c, 0);
    let mut vault = Vault::new(id(9));

    let steps: Vec<(bool, Identity, u64, Result<(), VaultError>)> = vec![
        (true, a, 100, Ok(())),
        (true, b, 60, Err(VaultError::InsufficientFunds)),
        (true, b, 50, Ok(())),
        (false, c, 1, Err(VaultError::NoSuchDepositor)),
        (false, a, 101, Err(VaultError::InsufficientFunds)),
        (false, a, 30, Ok(())),
        (true, c, 0, Err(VaultError::InvalidAmount)),
        (false, b, 50, Ok(())),
        (false, b, 1, Err(VaultError::InsufficientFunds)),
        (true, a, 900, Ok(())),
        (false, a, 970, Ok(())),
    ];
    let mut deposited: u128 = 0;
    for (is_deposit, who, amount, expected) in steps {
        let result = if is_deposit {
            deposit(&mut vault, &mut bank, who, amount)
        } else {
            withdraw(&mut vault, &mut bank, who, amount)
        };
        assert_eq!(result, expected);
        if is_deposit && result.is_ok() {
            deposited += amount as u128;
        }
        assert_eq!(claimed(&vault), bank.holds(id(POOL)) as u128);
        assert!(claimed(&vault) <= deposited);
    }
    assert_eq!(vault.balance_of(&a), 0);
    assert_eq!(vault.balance_of(&b), 0);
    assert_eq!(bank.holds(account_of(a)), 1_000);
    assert_eq!(bank.holds(account_of(b)), 50);
    assert_eq!(bank.holds(id(POOL)), 0);
}

#[test]
fn donation_leaves_the_pool_above_the_tracked_sum() {
    let a = id(1);
    let mut bank = Bank::new();
    bank.open(account_of(a), a, 10);
    bank.open(id(POOL), id(POOL_AUTHORITY), 5);
    let mut vault = Vault::new(id(9));

    assert_eq!(deposit(&mut vault, &mut bank, a, 10), Ok(()));
    assert_eq!(claimed(&vault), 10);
    assert_eq!(bank.holds(id(POOL)), 15);

    assert_eq!(withdraw(&mut vault, &mut bank, a, 11), Err(VaultError::InsufficientFunds));
    assert_eq!(withdraw(&mut vault, &mut bank, a, 10), Ok(()));
    assert_eq!(claimed(&vault), 0);
    assert_eq!(bank.holds(id(POOL)), 5);
}

#[test]
fn unavailable_gateway_moves_nothing_and_may_be_retried() {
    let a = id(1);
    let mut bank = Bank::new();
    bank.open(account_of(a), a, 40);
    let mut vault = Vault::new(id(9));

    bank.down = true;
    let refused = deposit(&mut vault, &mut bank, a, 40);
    assert_eq!(refused, Err(VaultError::Unavailable));
    assert!(refused.unwrap_err().is_retryable());
    assert_eq!(vault.balance_of(&a), 0);
    assert_eq!(bank.holds(id(POOL)), 0);

    bank.down = false;
    assert_eq!(deposit(&mut vault, &mut bank, a, 40), Ok(()));

    bank.down = true;
    assert_eq!(withdraw(&mut vault, &mut bank, a, 15), Err(VaultError::Unavailable));
    assert_eq!(vault.balance_of(&a), 40);
    assert_eq!(bank.holds(id(POOL)), 40);

    bank.down = false;
    assert_eq!(withdraw(&mut vault, &mut bank, a, 15), Ok(()));
    assert_eq!(vault.balance_of(&a), 25);
    assert_eq!(bank.holds(id(POOL)), 25);
    assert_eq!(bank.holds(account_of(a)), 15);
}

#[test]
fn gateway_refuses_a_stranger_as_authority() {
    let a = id(1);
    let thief = id(66);
    let mut bank = Bank::new();
    bank.open(account_of(a), a, 40);
    let mut vault = Vault::new(id(9));

    let ctx = FundVault {
        vault_account: id(POOL),
        depositor_account: account_of(a),
        depositor: thief,
    };
    assert_eq!(
        add_funds(&mut vault, &ctx, 40, |order| bank.transfer(order)),
        Err(VaultError::Unauthorized)
    );
    assert_eq!(vault.balance_of(&thief), 0);
    assert_eq!(bank.holds(account_of(a)), 40);
    assert!(!VaultError::Unauthorized.is_retryable());
}

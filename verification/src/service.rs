//! The vault service: setup, deposit and withdrawal, each ordered around
//! the one asset transfer that it may ask of the transfer gateway.

use vstd::prelude::*;
use crate::error::{TransferError, VaultError};
use crate::identity::Identity;
use crate::vault::{Vault, VaultView};

verus! {

/// One request to the transfer gateway: move `amount` units out of `from`
/// into `to`, on the word of `authority`.
#[derive(Clone, Copy, Debug, PartialEq, Eq)]
pub struct Transfer {
    pub from: Identity,
    pub to: Identity,
    pub authority: Identity,
    pub amount: u64,
}

/// Who sets a vault up.
#[derive(Clone, Copy, Debug)]
pub struct SetupVault {
    /// The authenticated caller, who becomes the administrator.
    pub user: Identity,
}

/// Who deposits, from where, and into which pool.
#[derive(Clone, Copy, Debug)]
pub struct FundVault {
    /// The asset account that holds the pool.
    pub vault_account: Identity,
    /// The depositor's own asset account.
    pub depositor_account: Identity,
    /// The authenticated caller, who authorizes the transfer out of their
    /// own account.
    pub depositor: Identity,
}

/// Who withdraws, to where, and out of which pool.
#[derive(Clone, Copy, Debug)]
pub struct WithdrawFunds {
    /// The asset account that holds the pool.
    pub vault_account: Identity,
    /// The identity on whose word assets leave the pool.
    pub vault_authority: Identity,
    /// The withdrawer's own asset account.
    pub withdrawer_account: Identity,
    /// The authenticated caller, whose own tracked balance is drawn down.
    pub withdrawer: Identity,
}

impl FundVault {
    /// The transfer that a deposit of `amount` asks for: out of the
    /// depositor's account into the pool, authorized by the depositor.
    pub open spec fn spec_transfer(&self, amount: u64) -> Transfer {
        Transfer {
            from: self.depositor_account,
            to: self.vault_account,
            authority: self.depositor,
            amount,
        }
    }

    /// The transfer that a deposit of `amount` asks for: out of the
    /// depositor's account into the pool, authorized by the depositor.
    #[verifier::when_used_as_spec(spec_transfer)]
    pub fn transfer(&self, amount: u64) -> (order: Transfer)
        ensures
            order == self.spec_transfer(amount),
    {
        Transfer {
            from: self.depositor_account,
            to: self.vault_account,
            authority: self.depositor,
            amount,
        }
    }
}

impl WithdrawFunds {
    /// The transfer that a withdrawal of `amount` asks for: out of the pool
    /// into the withdrawer's account, authorized by the vault's authority.
    pub open spec fn spec_transfer(&self, amount: u64) -> Transfer {
        Transfer {
            from: self.vault_account,
            to: self.withdrawer_account,
            authority: self.vault_authority,
            amount,
        }
    }

    /// The transfer that a withdrawal of `amount` asks for: out of the pool
    /// into the withdrawer's account, authorized by the vault's authority.
    #[verifier::when_used_as_spec(spec_transfer)]
    pub fn transfer(&self, amount: u64) -> (order: Transfer)
        ensures
            order == self.spec_transfer(amount),
    {
        Transfer {
            from: self.vault_account,
            to: self.withdrawer_account,
            authority: self.vault_authority,
            amount,
        }
    }
}

/// Creates the vault of a deployment, administered by the caller and
/// without any balance. A deployment that already has a vault keeps it, and
/// the call fails with `AlreadyInitialized`.
pub fn setup_vault(deployment: &mut Option<Vault>, ctx: &SetupVault) -> (result: Result<
    (),
    VaultError,
>)
    ensures
        match *old(deployment) {
            None => {
                &&& result == Ok::<(), VaultError>(())
                &&& *final(deployment) matches Some(vault)
                &&& vault@ == VaultView::created_by(ctx.user@)
            },
            Some(_) => {
                &&& result == Err::<(), VaultError>(VaultError::AlreadyInitialized)
                &&& *final(deployment) == *old(deployment)
            },
        },
{
    if deployment.is_some() {
        return Err(VaultError::AlreadyInitialized);
    }
    *deployment = Some(Vault::new(ctx.user));
    Ok(())
}

/// Deposits `deposit_amount` for the caller: validate, transfer, commit.
///
/// The deposit is validated first, so that nothing which could stop the
/// credit is left for later; a refused deposit never reaches `gateway`. Then
/// `gateway` is asked once for the transfer out of the depositor's account
/// into the pool. Only a transfer that went through is credited; a failed
/// one is reported and the ledger stays as it was.
pub fn add_funds<F>(vault: &mut Vault, ctx: &FundVault, deposit_amount: u64, gateway: F) -> (result:
    Result<(), VaultError>) where F: FnOnce(Transfer) -> Result<(), TransferError>
    requires
        old(vault)@.credit_refusal(ctx.depositor@, deposit_amount) is None ==> call_requires(
            gateway,
            (ctx.transfer(deposit_amount),),
        ),
    ensures
        match old(vault)@.credit_refusal(ctx.depositor@, deposit_amount) {
            Some(e) => result == Err::<(), VaultError>(e) && final(vault)@ == old(vault)@,
            None => exists|outcome: Result<(), TransferError>|
                {
                    &&& #[trigger] call_ensures(gateway, (ctx.transfer(deposit_amount),), outcome)
                    &&& (final(vault)@, result) == old(vault)@.deposit(
                        ctx.depositor@,
                        deposit_amount,
                        outcome,
                    )
                },
        },
{
    vault.check_deposit(&ctx.depositor, deposit_amount)?;
    let outcome = gateway(ctx.transfer(deposit_amount));
    vault.settle_deposit(&ctx.depositor, deposit_amount, outcome)
}

/// Withdraws `withdraw_amount` for the caller out of the caller's own
/// tracked balance: debit, transfer, and undo the debit if the transfer
/// fails.
///
/// The balance is debited before anything leaves the pool; a refused
/// withdrawal never reaches `gateway`. Then `gateway` is asked once for the
/// transfer out of the pool into the withdrawer's account. If that fails,
/// the amount is credited back before the failure is reported, so that
/// every balance is what it was before the call.
pub fn withdraw_funds<F>(
    vault: &mut Vault,
    ctx: &WithdrawFunds,
    withdraw_amount: u64,
    gateway: F,
) -> (result: Result<(), VaultError>) where F: FnOnce(Transfer) -> Result<(), TransferError>
    requires
        old(vault)@.withdrawal_refusal(ctx.withdrawer@, withdraw_amount) is None ==> call_requires(
            gateway,
            (ctx.transfer(withdraw_amount),),
        ),
    ensures
        match old(vault)@.withdrawal_refusal(ctx.withdrawer@, withdraw_amount) {
            Some(e) => result == Err::<(), VaultError>(e) && final(vault)@ == old(vault)@,
            None => exists|outcome: Result<(), TransferError>|
                {
                    &&& #[trigger] call_ensures(gateway, (ctx.transfer(withdraw_amount),), outcome)
                    &&& (final(vault)@, result) == old(vault)@.withdraw(
                        ctx.withdrawer@,
                        withdraw_amount,
                        outcome,
                    )
                },
        },
{
    proof {
        if vault@.withdrawal_refusal(ctx.withdrawer@, withdraw_amount) is None {
            vault.lemma_view_valid();
            vault@.lemma_compensation_restores(ctx.withdrawer@, withdraw_amount);
        }
    }
    vault.begin_withdrawal(&ctx.withdrawer, withdraw_amount)?;
    let outcome = gateway(ctx.transfer(withdraw_amount));
    vault.settle_withdrawal(&ctx.withdrawer, withdraw_amount, outcome)
}

} // verus!

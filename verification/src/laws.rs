//! What holds of deposits and withdrawals in every state of a vault.
//!
//! Each law is stated over [`VaultView::deposit`] and
//! [`VaultView::withdraw`], the model by which the operations of the service
//! say what they do.

use vstd::prelude::*;
use crate::balances::Party;
use crate::error::{TransferError, VaultError};
use crate::vault::VaultView;

verus! {

/// A withdrawal never succeeds when the withdrawer's tracked balance is
/// below the amount; one that succeeds takes exactly the amount; and one
/// that fails, for whatever reason, leaves the vault as it was.
pub proof fn lemma_withdrawal_is_covered_or_void(
    vault: VaultView,
    withdrawer: Party,
    amount: u64,
    outcome: Result<(), TransferError>,
)
    ensures
        ({
            let (after, told) = vault.withdraw(withdrawer, amount, outcome);
            &&& vault.balance_of(withdrawer) < amount ==> told is Err
            &&& told is Err ==> after == vault
            &&& told is Ok ==> after.balance_of(withdrawer) == vault.balance_of(withdrawer)
                - amount
        }),
{
}

/// A deposit that succeeds adds exactly the amount, and one that fails, for
/// whatever reason, leaves the vault as it was.
pub proof fn lemma_deposit_is_credited_or_void(
    vault: VaultView,
    depositor: Party,
    amount: u64,
    outcome: Result<(), TransferError>,
)
    ensures
        ({
            let (after, told) = vault.deposit(depositor, amount, outcome);
            &&& told is Err ==> after == vault
            &&& told is Ok ==> after.balance_of(depositor) == vault.balance_of(depositor)
                + amount
        }),
{
}

/// A deposit of zero and a withdrawal of zero both fail with
/// `InvalidAmount` and change nothing, whoever asks and whatever the
/// gateway would have answered.
pub proof fn lemma_zero_amount_is_invalid(
    vault: VaultView,
    caller: Party,
    outcome: Result<(), TransferError>,
)
    ensures
        vault.deposit(caller, 0, outcome) == (
            vault,
            Err::<(), VaultError>(VaultError::InvalidAmount),
        ),
        vault.withdraw(caller, 0, outcome) == (
            vault,
            Err::<(), VaultError>(VaultError::InvalidAmount),
        ),
{
}

/// An operation touches no balance but the caller's own, and never the
/// administrator: nobody draws on what another has deposited.
pub proof fn lemma_only_the_caller_is_touched(
    vault: VaultView,
    caller: Party,
    amount: u64,
    outcome: Result<(), TransferError>,
    other: Party,
)
    requires
        other != caller,
    ensures
        vault.deposit(caller, amount, outcome).0.balance_of(other) == vault.balance_of(other),
        vault.withdraw(caller, amount, outcome).0.balance_of(other) == vault.balance_of(other),
        vault.deposit(caller, amount, outcome).0.administrator == vault.administrator,
        vault.withdraw(caller, amount, outcome).0.administrator == vault.administrator,
{
}

/// Once a deposit was validated, the credit that follows a transfer which
/// went through is never refused.
pub proof fn lemma_validated_deposit_commits(vault: VaultView, depositor: Party, amount: u64)
    requires
        vault.credit_refusal(depositor, amount) is None,
    ensures
        vault.deposit(depositor, amount, Ok(())) == (
            vault.credit(depositor, amount),
            Ok::<(), VaultError>(()),
        ),
{
}

/// Round trip: a deposit that goes through, followed by a withdrawal of the
/// same amount that goes through, leaves the balance of everybody, `who`
/// for one, as it was before the two. For a depositor who had nothing, the
/// balance is zero again.
pub proof fn lemma_deposit_then_withdraw_round_trip(
    vault: VaultView,
    depositor: Party,
    amount: u64,
    who: Party,
)
    requires
        vault.credit_refusal(depositor, amount) is None,
    ensures
        ({
            let (funded, deposit_told) = vault.deposit(depositor, amount, Ok(()));
            let (after, withdrawal_told) = funded.withdraw(depositor, amount, Ok(()));
            &&& deposit_told is Ok
            &&& withdrawal_told is Ok
            &&& after.balance_of(who) == vault.balance_of(who)
            &&& vault.balance_of(depositor) == 0 ==> after.balance_of(depositor) == 0
        }),
{
}

/// A withdrawal refused with `InsufficientFunds` succeeds when it is sent
/// again after a deposit that lifts the balance to the amount or above, and
/// then takes exactly the amount.
pub proof fn lemma_retry_after_deposit_succeeds(
    vault: VaultView,
    caller: Party,
    amount: u64,
    top_up: u64,
)
    requires
        vault.withdrawal_refusal(caller, amount) == Some(VaultError::InsufficientFunds),
        vault.credit_refusal(caller, top_up) is None,
        vault.balance_of(caller) + top_up >= amount,
    ensures
        ({
            let (funded, deposit_told) = vault.deposit(caller, top_up, Ok(()));
            let (after, retry_told) = funded.withdraw(caller, amount, Ok(()));
            &&& deposit_told is Ok
            &&& retry_told is Ok
            &&& after.balance_of(caller) == vault.balance_of(caller) + top_up - amount
        }),
{
}

/// Isolation: two deposits by different depositors give the same vault in
/// either order, each depositor is told the same in either order, and each
/// ends with the balance that their own deposit alone would have given.
pub proof fn lemma_deposits_commute(
    vault: VaultView,
    first: Party,
    first_amount: u64,
    first_outcome: Result<(), TransferError>,
    second: Party,
    second_amount: u64,
    second_outcome: Result<(), TransferError>,
)
    requires
        first != second,
    ensures
        ({
            let (first_alone, first_told) = vault.deposit(first, first_amount, first_outcome);
            let (second_alone, second_told) = vault.deposit(
                second,
                second_amount,
                second_outcome,
            );
            let one_way = first_alone.deposit(second, second_amount, second_outcome);
            let other_way = second_alone.deposit(first, first_amount, first_outcome);
            &&& one_way.0 == other_way.0
            &&& one_way.1 == second_told
            &&& other_way.1 == first_told
            &&& one_way.0.balance_of(first) == first_alone.balance_of(first)
            &&& one_way.0.balance_of(second) == second_alone.balance_of(second)
        }),
{
    let one_way = vault.deposit(first, first_amount, first_outcome).0.deposit(
        second,
        second_amount,
        second_outcome,
    ).0;
    let other_way = vault.deposit(second, second_amount, second_outcome).0.deposit(
        first,
        first_amount,
        first_outcome,
    ).0;
    assert(one_way.balances =~= other_way.balances);
}

} // verus!

//! The vault: one administrator, the ledger of its depositors, and the two
//! phases of each operation that stand before and after the asset transfer.

use vstd::prelude::*;
use crate::balances::{balance_in, credited, debited, Party};
use crate::error::{TransferError, VaultError};
use crate::identity::Identity;
use crate::ledger::{balances_of, one_entry_each, Ledger};

verus! {

/// What a vault is to its contracts: who administers it, and the balance
/// tracked for each depositor.
pub struct VaultView {
    pub administrator: Party,
    pub balances: Map<Party, nat>,
}

impl VaultView {
    /// The vault as `administrator` creates it: nobody has a balance.
    pub open spec fn created_by(administrator: Party) -> VaultView {
        VaultView { administrator, balances: Map::empty() }
    }

    /// The tracked balance of `who`: zero for one who never deposited.
    pub open spec fn balance_of(self, who: Party) -> nat {
        balance_in(self.balances, who)
    }

    /// What holds of the view of every vault: finitely many depositors, and
    /// balances that fit in `u64`.
    pub open spec fn valid(self) -> bool {
        &&& self.balances.dom().finite()
        &&& forall|who: Party| #[trigger] self.balance_of(who) <= u64::MAX
    }

    /// Why a credit of `amount` to `who` is refused, if it is: a zero amount,
    /// or a balance that would leave `u64`. A deposit is refused before any
    /// transfer exactly when its credit would be.
    pub open spec fn credit_refusal(self, who: Party, amount: u64) -> Option<VaultError> {
        if amount == 0 {
            Some(VaultError::InvalidAmount)
        } else if self.balance_of(who) + amount > u64::MAX {
            Some(VaultError::ArithmeticOverflow)
        } else {
            None
        }
    }

    /// Why a withdrawal of `amount` by `who` is refused before any transfer,
    /// if it is: a zero amount, no entry for `who`, or a balance below
    /// `amount`.
    pub open spec fn withdrawal_refusal(self, who: Party, amount: u64) -> Option<VaultError> {
        if amount == 0 {
            Some(VaultError::InvalidAmount)
        } else if !self.balances.dom().contains(who) {
            Some(VaultError::NoSuchDepositor)
        } else if self.balances[who] < amount {
            Some(VaultError::InsufficientFunds)
        } else {
            None
        }
    }

    /// The vault after `amount` was added to the balance of `who`.
    pub open spec fn credit(self, who: Party, amount: u64) -> VaultView {
        VaultView {
            administrator: self.administrator,
            balances: credited(self.balances, who, amount as nat),
        }
    }

    /// The vault after `amount` was taken from the balance of `who`.
    pub open spec fn debit(self, who: Party, amount: u64) -> VaultView {
        VaultView {
            administrator: self.administrator,
            balances: debited(self.balances, who, amount as nat),
        }
    }

    /// Operations keep a view valid, whatever the gateway answers.
    pub proof fn lemma_operations_keep_valid(
        self,
        who: Party,
        amount: u64,
        outcome: Result<(), TransferError>,
    )
        requires
            self.valid(),
        ensures
            self.deposit(who, amount, outcome).0.valid(),
            self.withdraw(who, amount, outcome).0.valid(),
    {
        let deposited = self.deposit(who, amount, outcome).0;
        assert forall|other: Party| #[trigger] deposited.balance_of(other) <= u64::MAX by {
            assert(self.balance_of(other) <= u64::MAX);
        }
        let withdrawn = self.withdraw(who, amount, outcome).0;
        assert forall|other: Party| #[trigger] withdrawn.balance_of(other) <= u64::MAX by {
            assert(self.balance_of(other) <= u64::MAX);
            assert(self.balance_of(who) <= u64::MAX);
        }
    }

    /// Compensation: when the transfer of an accepted withdrawal fails, the
    /// credit that undoes the debit is never refused and restores the vault
    /// exactly, so the failed withdrawal strands nothing.
    pub proof fn lemma_compensation_restores(self, withdrawer: Party, amount: u64)
        requires
            self.valid(),
            self.withdrawal_refusal(withdrawer, amount) is None,
        ensures
            self.debit(withdrawer, amount).credit_refusal(withdrawer, amount) is None,
            self.debit(withdrawer, amount).credit(withdrawer, amount) == self,
    {
        assert(self.balance_of(withdrawer) <= u64::MAX);
        assert(self.debit(withdrawer, amount).credit(withdrawer, amount).balances
            =~= self.balances);
    }

    /// A whole deposit: the vault afterwards and what the depositor is told,
    /// given how the transfer into the pool ends if it is attempted.
    ///
    /// A refused deposit attempts no transfer and changes nothing; a failed
    /// transfer changes nothing; a transfer that went through is credited.
    pub open spec fn deposit(self, who: Party, amount: u64, outcome: Result<(), TransferError>) -> (
        VaultView,
        Result<(), VaultError>,
    ) {
        match self.credit_refusal(who, amount) {
            Some(e) => (self, Err(e)),
            None => match outcome {
                Ok(()) => (self.credit(who, amount), Ok(())),
                Err(t) => (self, Err(VaultError::spec_from_transfer(t))),
            },
        }
    }

    /// A whole withdrawal: the vault afterwards and what the withdrawer is
    /// told, given how the transfer out of the pool ends if it is attempted.
    ///
    /// A refused withdrawal attempts no transfer and changes nothing; a
    /// failed transfer leaves every balance as it was before the request; a
    /// transfer that went through has been debited.
    pub open spec fn withdraw(self, who: Party, amount: u64, outcome: Result<(), TransferError>) -> (
        VaultView,
        Result<(), VaultError>,
    ) {
        match self.withdrawal_refusal(who, amount) {
            Some(e) => (self, Err(e)),
            None => match outcome {
                Ok(()) => (self.debit(who, amount), Ok(())),
                Err(t) => (self, Err(VaultError::spec_from_transfer(t))),
            },
        }
    }
}

/// The custodial vault of one deployment.
#[derive(Debug)]
pub struct Vault {
    administrator: Identity,
    balances: Ledger,
}

impl View for Vault {
    type V = VaultView;

    closed spec fn view(&self) -> VaultView {
        VaultView { administrator: self.administrator@, balances: self.balances@ }
    }
}

impl Vault {
    /// The vault as `administrator` creates it: nobody has a balance.
    pub fn new(administrator: Identity) -> (vault: Vault)
        ensures
            vault@ == VaultView::created_by(administrator@),
    {
        Vault { administrator, balances: Ledger::new() }
    }

    /// The vault that a stored record stands for, where the record lists no
    /// depositor twice; `None` where it does.
    pub fn from_record(administrator: Identity, entries: Vec<(Identity, u64)>) -> (vault: Option<
        Vault,
    >)
        ensures
            match vault {
                Some(vault) => {
                    &&& one_entry_each(entries@)
                    &&& vault@ == VaultView {
                        administrator: administrator@,
                        balances: balances_of(entries@),
                    }
                },
                None => !one_entry_each(entries@),
            },
    {
        match Ledger::from_entries(entries) {
            Some(balances) => Some(Vault { administrator, balances }),
            None => None,
        }
    }

    /// The entries to store for this vault, one per depositor, in no
    /// particular order.
    pub fn entries(&self) -> (entries: Vec<(Identity, u64)>)
        ensures
            one_entry_each(entries@),
            balances_of(entries@) == self@.balances,
    {
        self.balances.entries()
    }

    /// The identity that created the vault.
    pub fn administrator(&self) -> (administrator: Identity)
        ensures
            administrator@ == self@.administrator,
    {
        self.administrator
    }

    /// The tracked balance of `depositor`: zero for one who never deposited.
    pub fn balance_of(&self, depositor: &Identity) -> (balance: u64)
        ensures
            balance == self@.balance_of(depositor@),
    {
        self.balances.balance_of(depositor)
    }

    /// The view of every vault is valid.
    pub proof fn lemma_view_valid(self)
        ensures
            self@.valid(),
    {
        self.balances.lemma_view_bounded();
    }

    /// Validates a deposit before the transfer into the pool is issued, so
    /// that crediting it afterwards cannot fail.
    pub fn check_deposit(&self, depositor: &Identity, amount: u64) -> (result: Result<
        (),
        VaultError,
    >)
        ensures
            result == match self@.credit_refusal(depositor@, amount) {
                None => Ok::<(), VaultError>(()),
                Some(e) => Err::<(), VaultError>(e),
            },
    {
        if amount == 0 {
            return Err(VaultError::InvalidAmount);
        }
        if amount > u64::MAX - self.balances.balance_of(depositor) {
            return Err(VaultError::ArithmeticOverflow);
        }
        Ok(())
    }

    /// Ends a deposit once the outcome of the transfer into the pool is
    /// known: a transfer that went through is credited, a failed one is
    /// reported and changes nothing.
    ///
    /// Should the credit itself be refused, which cannot happen after
    /// `check_deposit` accepted the deposit on this state, the refusal is
    /// reported and nothing changes.
    pub fn settle_deposit(
        &mut self,
        depositor: &Identity,
        amount: u64,
        outcome: Result<(), TransferError>,
    ) -> (result: Result<(), VaultError>)
        ensures
            match outcome {
                Ok(()) => match old(self)@.credit_refusal(depositor@, amount) {
                    None => {
                        &&& result == Ok::<(), VaultError>(())
                        &&& final(self)@ == old(self)@.credit(depositor@, amount)
                    },
                    Some(e) => result == Err::<(), VaultError>(e) && final(self)@ == old(self)@,
                },
                Err(t) => {
                    &&& result == Err::<(), VaultError>(VaultError::spec_from_transfer(t))
                    &&& final(self)@ == old(self)@
                },
            },
    {
        match outcome {
            Ok(()) => self.balances.credit(depositor, amount),
            Err(t) => Err(VaultError::from_transfer(t)),
        }
    }

    /// Opens a withdrawal: debits the withdrawer's own tracked balance before
    /// any asset may leave the pool. A refusal changes nothing, and no
    /// transfer may follow it.
    pub fn begin_withdrawal(&mut self, withdrawer: &Identity, amount: u64) -> (result: Result<
        (),
        VaultError,
    >)
        ensures
            match old(self)@.withdrawal_refusal(withdrawer@, amount) {
                None => {
                    &&& result == Ok::<(), VaultError>(())
                    &&& final(self)@ == old(self)@.debit(withdrawer@, amount)
                },
                Some(e) => result == Err::<(), VaultError>(e) && final(self)@ == old(self)@,
            },
    {
        if amount == 0 {
            return Err(VaultError::InvalidAmount);
        }
        self.balances.debit(withdrawer, amount)
    }

    /// Ends a withdrawal once the outcome of the transfer out of the pool is
    /// known: after a failed transfer the debit is undone by crediting the
    /// amount back, and the failure is reported; after one that went through
    /// nothing is left to do.
    ///
    /// Should the credit itself be refused, which cannot happen after
    /// `begin_withdrawal` debited this amount on this state, the refusal is
    /// reported and nothing changes.
    pub fn settle_withdrawal(
        &mut self,
        withdrawer: &Identity,
        amount: u64,
        outcome: Result<(), TransferError>,
    ) -> (result: Result<(), VaultError>)
        ensures
            match outcome {
                Ok(()) => result == Ok::<(), VaultError>(()) && final(self)@ == old(self)@,
                Err(t) => match old(self)@.credit_refusal(withdrawer@, amount) {
                    None => {
                        &&& result == Err::<(), VaultError>(VaultError::spec_from_transfer(t))
                        &&& final(self)@ == old(self)@.credit(withdrawer@, amount)
                    },
                    Some(e) => result == Err::<(), VaultError>(e) && final(self)@ == old(self)@,
                },
            },
    {
        match outcome {
            Ok(()) => Ok(()),
            Err(t) => match self.balances.credit(withdrawer, amount) {
                Ok(()) => Err(VaultError::from_transfer(t)),
                Err(e) => Err(e),
            },
        }
    }
}

} // verus!

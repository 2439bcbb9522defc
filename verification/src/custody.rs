//! The vault together with the pool that backs it, followed over any
//! sequence of operations: the ledger never claims more than was deposited,
//! nor more than the pool holds.

use vstd::prelude::*;
use crate::balances::{
    lemma_balance_within_total, lemma_total_credited, lemma_total_debited, total, Party,
};
use crate::error::TransferError;
use crate::vault::VaultView;

verus! {

/// One thing that happens to a vault and its pool.
pub enum Operation {
    /// `depositor` asks to deposit `amount`; if the transfer into the pool is
    /// attempted, it ends in `outcome`.
    Deposit { depositor: Party, amount: u64, outcome: Result<(), TransferError> },
    /// `withdrawer` asks to withdraw `amount`; if the transfer out of the
    /// pool is attempted, it ends in `outcome`.
    Withdraw { withdrawer: Party, amount: u64, outcome: Result<(), TransferError> },
    /// Somebody moves `units` into the pool without telling the vault.
    Donate { units: nat },
}

/// A vault and the pool that backs it, with running sums of what moved.
pub struct Custody {
    /// The vault's own state.
    pub vault: VaultView,
    /// The units that the pool's asset account actually holds.
    pub holdings: int,
    /// The sum of all deposits that succeeded.
    pub deposited: nat,
    /// The sum of all withdrawals that succeeded.
    pub withdrawn: nat,
    /// The sum of all donations.
    pub donated: nat,
}

impl Custody {
    /// A vault that `administrator` has just set up over an empty pool.
    pub open spec fn opening(administrator: Party) -> Custody {
        Custody {
            vault: VaultView::created_by(administrator),
            holdings: 0,
            deposited: 0,
            withdrawn: 0,
            donated: 0,
        }
    }

    /// The state after one operation. A transfer moves its whole amount or,
    /// if it fails or is never attempted, nothing.
    pub open spec fn step(self, op: Operation) -> Custody {
        match op {
            Operation::Deposit { depositor, amount, outcome } => {
                let (vault, result) = self.vault.deposit(depositor, amount, outcome);
                if result is Ok {
                    Custody {
                        vault,
                        holdings: self.holdings + amount,
                        deposited: self.deposited + amount as nat,
                        ..self
                    }
                } else {
                    Custody { vault, ..self }
                }
            },
            Operation::Withdraw { withdrawer, amount, outcome } => {
                let (vault, result) = self.vault.withdraw(withdrawer, amount, outcome);
                if result is Ok {
                    Custody {
                        vault,
                        holdings: self.holdings - amount,
                        withdrawn: self.withdrawn + amount as nat,
                        ..self
                    }
                } else {
                    Custody { vault, ..self }
                }
            },
            Operation::Donate { units } => Custody {
                holdings: self.holdings + units,
                donated: self.donated + units,
                ..self
            },
        }
    }

    /// The state after the operations of `ops`, one after the other.
    pub open spec fn run(self, ops: Seq<Operation>) -> Custody
        decreases ops.len(),
    {
        if ops.len() == 0 {
            self
        } else {
            self.run(ops.drop_last()).step(ops.last())
        }
    }

    /// The books balance: the tracked balances sum to what was deposited
    /// less what was withdrawn, and the pool holds that sum and the
    /// donations.
    pub open spec fn balanced(self) -> bool {
        &&& self.vault.valid()
        &&& total(self.vault.balances) == self.deposited - self.withdrawn
        &&& self.holdings == total(self.vault.balances) + self.donated
    }

    /// One operation keeps the books balanced, and never changes the
    /// administrator.
    pub proof fn lemma_step_keeps_balanced(self, op: Operation)
        requires
            self.balanced(),
        ensures
            self.step(op).balanced(),
            self.step(op).vault.administrator == self.vault.administrator,
    {
        match op {
            Operation::Deposit { depositor, amount, outcome } => {
                self.vault.lemma_operations_keep_valid(depositor, amount, outcome);
                lemma_total_credited(self.vault.balances, depositor, amount as nat);
            },
            Operation::Withdraw { withdrawer, amount, outcome } => {
                self.vault.lemma_operations_keep_valid(withdrawer, amount, outcome);
                if self.vault.withdraw(withdrawer, amount, outcome).1 is Ok {
                    lemma_total_debited(self.vault.balances, withdrawer, amount as nat);
                }
            },
            Operation::Donate { units } => {},
        }
    }

    /// Whatever deposits, withdrawals and donations follow the setup of a
    /// vault, and however their transfers end: the sum of the tracked
    /// balances never exceeds the total ever deposited, and never exceeds
    /// what the pool holds; the two are equal as long as nobody donated.
    pub proof fn lemma_ledger_is_backed(administrator: Party, ops: Seq<Operation>)
        ensures
            ({
                let now = Self::opening(administrator).run(ops);
                &&& now.balanced()
                &&& now.vault.administrator == administrator
                &&& total(now.vault.balances) <= now.deposited
                &&& total(now.vault.balances) <= now.holdings
                &&& now.donated == 0 ==> total(now.vault.balances) == now.holdings
            }),
        decreases ops.len(),
    {
        if ops.len() > 0 {
            Self::lemma_ledger_is_backed(administrator, ops.drop_last());
            Self::opening(administrator).run(ops.drop_last()).lemma_step_keeps_balanced(
                ops.last(),
            );
        }
    }

    /// While the books balance, the pool covers every single tracked
    /// balance: a withdrawal that the ledger accepts never asks the pool for
    /// more than it holds.
    pub proof fn lemma_pool_covers_each_balance(self, who: Party)
        requires
            self.balanced(),
        ensures
            self.vault.balance_of(who) <= self.holdings,
    {
        lemma_balance_within_total(self.vault.balances, who);
    }
}

} // verus!

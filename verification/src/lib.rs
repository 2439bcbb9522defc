//! A custodial vault: one shared pool of a fungible asset, and a ledger that
//! tracks what each depositor has put into it.
//!
//! Assets move only through a transfer gateway that the caller supplies and
//! that may fail. The vault orders its own bookkeeping around that one call
//! so that the ledger never claims more than the pool holds: a deposit is
//! validated, transferred, then credited; a withdrawal is debited,
//! transferred, and credited back if the transfer fails.
//!
//! - [`identity`]: who a depositor, an administrator or an asset account is.
//! - [`error`]: what a gateway and a vault operation can report.
//! - [`balances`]: the model of the ledger, a finite map, and its sum.
//! - [`ledger`]: the ledger itself.
//! - [`vault`]: the vault and the two phases of each operation.
//! - [`service`]: setup, deposit and withdrawal as whole operations.
//! - [`laws`]: what holds of deposits and withdrawals in every state.
//! - [`custody`]: the vault and its pool over any sequence of operations.

pub mod balances;
pub mod custody;
pub mod error;
pub mod identity;
pub mod laws;
pub mod ledger;
pub mod service;
pub mod vault;

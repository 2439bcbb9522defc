//! The mathematical model of the ledger: a finite map from depositor to
//! balance, and what crediting and debiting do to it and to its sum.

use vstd::prelude::*;

verus! {

/// A depositor as the model sees one: the bytes of the identity.
pub type Party = Seq<u8>;

/// The balance that `balances` tracks for `who`: zero where `who` has no entry.
pub open spec fn balance_in(balances: Map<Party, nat>, who: Party) -> nat {
    if balances.dom().contains(who) {
        balances[who]
    } else {
        0
    }
}

/// `balances` after `amount` was added to the balance of `who`.
pub open spec fn credited(balances: Map<Party, nat>, who: Party, amount: nat) -> Map<Party, nat> {
    balances.insert(who, balance_in(balances, who) + amount)
}

/// `balances` after `amount` was taken from the balance of `who`.
pub open spec fn debited(balances: Map<Party, nat>, who: Party, amount: nat) -> Map<Party, nat>
    recommends
        balance_in(balances, who) >= amount,
{
    balances.insert(who, (balance_in(balances, who) - amount) as nat)
}

/// The sum of all tracked balances.
pub open spec fn total(balances: Map<Party, nat>) -> nat
    decreases balances.dom().len(),
    when balances.dom().finite()
{
    if balances.dom().len() == 0 {
        0
    } else {
        let who = balances.dom().choose();
        balances[who] + total(balances.remove(who))
    }
}

/// The sum splits into the balance of any one depositor and the sum of the
/// others.
pub proof fn lemma_total_split(balances: Map<Party, nat>, who: Party)
    requires
        balances.dom().finite(),
        balances.dom().contains(who),
    ensures
        total(balances) == balances[who] + total(balances.remove(who)),
    decreases balances.dom().len(),
{
    let first = balances.dom().choose();
    if first != who {
        lemma_total_split(balances.remove(first), who);
        lemma_total_split(balances.remove(who), first);
        assert(balances.remove(first).remove(who) =~= balances.remove(who).remove(first));
    }
}

/// Setting one balance changes the sum by the difference to what that
/// depositor had.
pub proof fn lemma_total_insert(balances: Map<Party, nat>, who: Party, balance: nat)
    requires
        balances.dom().finite(),
    ensures
        balances.insert(who, balance).dom().finite(),
        total(balances.insert(who, balance)) == total(balances) - balance_in(balances, who)
            + balance,
{
    let after = balances.insert(who, balance);
    lemma_total_split(after, who);
    assert(after.remove(who) =~= balances.remove(who));
    if balances.dom().contains(who) {
        lemma_total_split(balances, who);
    } else {
        assert(balances.remove(who) =~= balances);
    }
}

/// A credit raises the sum by its amount.
pub proof fn lemma_total_credited(balances: Map<Party, nat>, who: Party, amount: nat)
    requires
        balances.dom().finite(),
    ensures
        credited(balances, who, amount).dom().finite(),
        total(credited(balances, who, amount)) == total(balances) + amount,
{
    lemma_total_insert(balances, who, balance_in(balances, who) + amount);
}

/// A debit that the balance covers lowers the sum by its amount.
pub proof fn lemma_total_debited(balances: Map<Party, nat>, who: Party, amount: nat)
    requires
        balances.dom().finite(),
        balance_in(balances, who) >= amount,
    ensures
        debited(balances, who, amount).dom().finite(),
        total(debited(balances, who, amount)) == total(balances) - amount,
{
    lemma_total_insert(balances, who, (balance_in(balances, who) - amount) as nat);
}

/// No single balance exceeds the sum.
pub proof fn lemma_balance_within_total(balances: Map<Party, nat>, who: Party)
    requires
        balances.dom().finite(),
    ensures
        balance_in(balances, who) <= total(balances),
{
    if balances.dom().contains(who) {
        lemma_total_split(balances, who);
    }
}

} // verus!

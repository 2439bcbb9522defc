//! The ledger: the tracked balance of every depositor.

use vstd::prelude::*;
use crate::balances::{balance_in, credited, debited, Party};
use crate::error::VaultError;
use crate::identity::Identity;

verus! {

/// Whether entry `i` of `entries` belongs to `who`.
pub open spec fn entry_of(entries: Seq<(Identity, u64)>, i: int, who: Party) -> bool {
    0 <= i < entries.len() && entries[i].0@ == who
}

/// No depositor has two entries.
pub open spec fn one_entry_each(entries: Seq<(Identity, u64)>) -> bool {
    forall|i: int, j: int| 0 <= i < j < entries.len() ==> entries[i].0@ != entries[j].0@
}

/// The balance map that a list of entries stands for: its keys are the
/// depositors listed, and each one's value is the balance listed with them.
pub open spec fn balances_of(entries: Seq<(Identity, u64)>) -> Map<Party, nat> {
    Map::new(
        |who: Party| exists|i: int| entry_of(entries, i, who),
        |who: Party| entries[choose|i: int| entry_of(entries, i, who)].1 as nat,
    )
}

/// Where no depositor has two entries, the map holds for each entry's
/// depositor that entry's balance.
pub proof fn lemma_balances_of_entry(entries: Seq<(Identity, u64)>, i: int)
    requires
        one_entry_each(entries),
        0 <= i < entries.len(),
    ensures
        balances_of(entries).dom().contains(entries[i].0@),
        balances_of(entries)[entries[i].0@] == entries[i].1,
{
    let who = entries[i].0@;
    assert(entry_of(entries, i, who));
    let j = choose|j: int| entry_of(entries, j, who);
    assert(entry_of(entries, j, who));
    assert(j == i);
}

/// A list of entries stands for a finite map whose balances fit in `u64`.
pub proof fn lemma_balances_of_bounded(entries: Seq<(Identity, u64)>)
    ensures
        balances_of(entries).dom().finite(),
        forall|who: Party| #[trigger] balance_in(balances_of(entries), who) <= u64::MAX,
    decreases entries.len(),
{
    if entries.len() == 0 {
        assert(balances_of(entries).dom() =~= Set::<Party>::empty());
    } else {
        let front = entries.drop_last();
        lemma_balances_of_bounded(front);
        assert(balances_of(entries).dom() =~= balances_of(front).dom().insert(
            entries.last().0@,
        )) by {
            assert forall|who: Party|
                balances_of(entries).dom().contains(who) <==> balances_of(front).dom().insert(
                    entries.last().0@,
                ).contains(who) by {
                if balances_of(entries).dom().contains(who) {
                    let i = choose|i: int| entry_of(entries, i, who);
                    if i < front.len() {
                        assert(entry_of(front, i, who));
                    }
                }
                if balances_of(front).dom().contains(who) {
                    let i = choose|i: int| entry_of(front, i, who);
                    assert(entry_of(entries, i, who));
                }
                if who == entries.last().0@ {
                    assert(entry_of(entries, entries.len() - 1, who));
                }
            }
        }
    }
}

/// Changing the balance of one entry changes the map at that entry's
/// depositor and nowhere else, and no depositor gets a second entry.
proof fn lemma_balances_of_update(entries: Seq<(Identity, u64)>, i: int, balance: u64)
    requires
        one_entry_each(entries),
        0 <= i < entries.len(),
    ensures
        one_entry_each(entries.update(i, (entries[i].0, balance))),
        balances_of(entries.update(i, (entries[i].0, balance))) == balances_of(entries).insert(
            entries[i].0@,
            balance as nat,
        ),
{
    let after = entries.update(i, (entries[i].0, balance));
    assert(one_entry_each(after)) by {
        assert forall|a: int, b: int| 0 <= a < b < after.len() implies after[a].0@
            != after[b].0@ by {
            assert(after[a].0@ == entries[a].0@);
            assert(after[b].0@ == entries[b].0@);
        }
    }
    let want = balances_of(entries).insert(entries[i].0@, balance as nat);
    assert forall|who: Party| balances_of(after).dom().contains(who) <==> want.dom().contains(
        who,
    ) by {
        if balances_of(after).dom().contains(who) {
            let j = choose|j: int| entry_of(after, j, who);
            assert(entry_of(entries, j, who));
        }
        if want.dom().contains(who) {
            if who == entries[i].0@ {
                assert(entry_of(after, i, who));
            } else {
                let j = choose|j: int| entry_of(entries, j, who);
                assert(entry_of(after, j, who));
            }
        }
    }
    assert forall|who: Party| balances_of(after).dom().contains(who) implies balances_of(
        after,
    )[who] == want[who] by {
        let j = choose|j: int| entry_of(after, j, who);
        lemma_balances_of_entry(after, j);
        if j != i {
            lemma_balances_of_entry(entries, j);
        }
    }
    assert(balances_of(after) =~= want);
}

/// Appending an entry for a depositor who had none adds that depositor to
/// the map and changes nothing else.
proof fn lemma_balances_of_push(entries: Seq<(Identity, u64)>, entry: (Identity, u64))
    requires
        one_entry_each(entries),
        forall|i: int| !entry_of(entries, i, entry.0@),
    ensures
        one_entry_each(entries.push(entry)),
        !balances_of(entries).dom().contains(entry.0@),
        balances_of(entries.push(entry)) == balances_of(entries).insert(
            entry.0@,
            entry.1 as nat,
        ),
{
    let after = entries.push(entry);
    let last = entries.len() as int;
    assert(one_entry_each(after)) by {
        assert forall|a: int, b: int| 0 <= a < b < after.len() implies after[a].0@
            != after[b].0@ by {
            if b == last {
                assert(!entry_of(entries, a, entry.0@));
            }
        }
    }
    let want = balances_of(entries).insert(entry.0@, entry.1 as nat);
    assert forall|who: Party| balances_of(after).dom().contains(who) <==> want.dom().contains(
        who,
    ) by {
        if balances_of(after).dom().contains(who) {
            let j = choose|j: int| entry_of(after, j, who);
            if j != last {
                assert(entry_of(entries, j, who));
            }
        }
        if want.dom().contains(who) {
            if who == entry.0@ {
                assert(entry_of(after, last, who));
            } else {
                let j = choose|j: int| entry_of(entries, j, who);
                assert(entry_of(after, j, who));
            }
        }
    }
    assert forall|who: Party| balances_of(after).dom().contains(who) implies balances_of(
        after,
    )[who] == want[who] by {
        let j = choose|j: int| entry_of(after, j, who);
        lemma_balances_of_entry(after, j);
        if j != last {
            lemma_balances_of_entry(entries, j);
        }
    }
    assert(balances_of(after) =~= want);
}

/// The index of the entry of `who` in `entries`, if there is one.
fn position(entries: &Vec<(Identity, u64)>, who: &Identity) -> (found: Option<usize>)
    ensures
        match found {
            Some(i) => entry_of(entries@, i as int, who@),
            None => forall|i: int| !entry_of(entries@, i, who@),
        },
{
    let mut i: usize = 0;
    while i < entries.len()
        invariant
            i <= entries.len(),
            forall|j: int| 0 <= j < i ==> !entry_of(entries@, j, who@),
        decreases entries.len() - i,
    {
        if entries[i].0 == *who {
            return Some(i);
        }
        i += 1;
    }
    None
}

/// The tracked balances: a map from depositor to balance. A depositor
/// appears in it once they have been credited, and stays, with a balance of
/// zero when everything was taken out again.
#[derive(Debug)]
pub struct Ledger {
    entries: Vec<(Identity, u64)>,
}

impl View for Ledger {
    type V = Map<Party, nat>;

    closed spec fn view(&self) -> Map<Party, nat> {
        balances_of(self.entries@)
    }
}

impl Ledger {
    #[verifier::type_invariant]
    spec fn well_formed(self) -> bool {
        one_entry_each(self.entries@)
    }

    /// A ledger without any depositor.
    pub fn new() -> (ledger: Ledger)
        ensures
            ledger@ == Map::<Party, nat>::empty(),
    {
        let ledger = Ledger { entries: Vec::new() };
        assert(ledger@ =~= Map::<Party, nat>::empty());
        ledger
    }

    /// The ledger that a list of entries stands for, where no depositor is
    /// listed twice; `None` where one is.
    pub fn from_entries(entries: Vec<(Identity, u64)>) -> (ledger: Option<Ledger>)
        ensures
            match ledger {
                Some(ledger) => one_entry_each(entries@) && ledger@ == balances_of(entries@),
                None => !one_entry_each(entries@),
            },
    {
        let mut i: usize = 0;
        while i < entries.len()
            invariant
                i <= entries.len(),
                one_entry_each(entries@.take(i as int)),
            decreases entries.len() - i,
        {
            let mut j: usize = 0;
            while j < i
                invariant
                    j <= i < entries.len(),
                    forall|k: int| 0 <= k < j ==> entries@[k].0@ != entries@[i as int].0@,
                decreases i - j,
            {
                if entries[j].0 == entries[i].0 {
                    return None;
                }
                j += 1;
            }
            assert(one_entry_each(entries@.take(i + 1))) by {
                let now = entries@.take(i + 1);
                let before = entries@.take(i as int);
                assert forall|a: int, b: int| 0 <= a < b < now.len() implies now[a].0@
                    != now[b].0@ by {
                    if b < i {
                        assert(before[a].0@ != before[b].0@);
                    }
                }
            }
            i += 1;
        }
        assert(entries@.take(i as int) =~= entries@);
        Some(Ledger { entries })
    }

    /// The entries of the ledger, one per depositor, in no particular order.
    pub fn entries(&self) -> (entries: Vec<(Identity, u64)>)
        ensures
            one_entry_each(entries@),
            balances_of(entries@) == self@,
    {
        proof {
            use_type_invariant(self);
        }
        let mut entries: Vec<(Identity, u64)> = Vec::new();
        let mut i: usize = 0;
        while i < self.entries.len()
            invariant
                i <= self.entries.len(),
                entries@ == self.entries@.take(i as int),
            decreases self.entries.len() - i,
        {
            entries.push(self.entries[i]);
            assert(entries@ =~= self.entries@.take(i + 1));
            i += 1;
        }
        assert(entries@ =~= self.entries@);
        entries
    }

    /// The view of a ledger is a finite map, and every balance in it fits
    /// in `u64`.
    pub proof fn lemma_view_bounded(self)
        ensures
            self@.dom().finite(),
            forall|who: Party| #[trigger] balance_in(self@, who) <= u64::MAX,
    {
        lemma_balances_of_bounded(self.entries@);
    }

    /// Replaces the balance of entry `i`.
    fn set_balance(&mut self, i: usize, balance: u64)
        requires
            i < old(self).entries@.len(),
        ensures
            final(self)@ == old(self)@.insert(old(self).entries@[i as int].0@, balance as nat),
    {
        proof {
            use_type_invariant(&*self);
        }
        let mut entries: Vec<(Identity, u64)> = Vec::new();
        std::mem::swap(&mut self.entries, &mut entries);
        let depositor = entries[i].0;
        proof {
            lemma_balances_of_update(entries@, i as int, balance);
        }
        entries.set(i, (depositor, balance));
        self.entries = entries;
    }

    /// Appends the entry of a depositor who has none.
    fn open_entry(&mut self, depositor: Identity, balance: u64)
        requires
            forall|i: int| !entry_of(old(self).entries@, i, depositor@),
        ensures
            !old(self)@.dom().contains(depositor@),
            final(self)@ == old(self)@.insert(depositor@, balance as nat),
    {
        proof {
            use_type_invariant(&*self);
        }
        let mut entries: Vec<(Identity, u64)> = Vec::new();
        std::mem::swap(&mut self.entries, &mut entries);
        proof {
            lemma_balances_of_push(entries@, (depositor, balance));
        }
        entries.push((depositor, balance));
        self.entries = entries;
    }

    /// The tracked balance of `depositor`: zero for one never credited.
    pub fn balance_of(&self, depositor: &Identity) -> (balance: u64)
        ensures
            balance == balance_in(self@, depositor@),
    {
        proof {
            use_type_invariant(self);
        }
        match position(&self.entries, depositor) {
            Some(i) => {
                proof {
                    lemma_balances_of_entry(self.entries@, i as int);
                }
                self.entries[i].1
            },
            None => 0,
        }
    }

    /// Whether `depositor` has an entry, that is, was ever credited.
    pub fn contains(&self, depositor: &Identity) -> (known: bool)
        ensures
            known == self@.dom().contains(depositor@),
    {
        position(&self.entries, depositor).is_some()
    }

    /// Adds `amount` to the balance of `depositor`, whose entry is created if
    /// there is none.
    ///
    /// A zero amount is refused with `InvalidAmount`, and a sum beyond `u64`
    /// with `ArithmeticOverflow`; a refusal leaves the ledger as it was.
    pub fn credit(&mut self, depositor: &Identity, amount: u64) -> (result: Result<(), VaultError>)
        ensures
            if amount == 0 {
                &&& result == Err::<(), VaultError>(VaultError::InvalidAmount)
                &&& final(self)@ == old(self)@
            } else if balance_in(old(self)@, depositor@) + amount > u64::MAX {
                &&& result == Err::<(), VaultError>(VaultError::ArithmeticOverflow)
                &&& final(self)@ == old(self)@
            } else {
                &&& result == Ok::<(), VaultError>(())
                &&& final(self)@ == credited(old(self)@, depositor@, amount as nat)
            },
    {
        proof {
            use_type_invariant(&*self);
        }
        if amount == 0 {
            return Err(VaultError::InvalidAmount);
        }
        match position(&self.entries, depositor) {
            Some(i) => {
                let balance = self.entries[i].1;
                proof {
                    lemma_balances_of_entry(self.entries@, i as int);
                }
                if amount > u64::MAX - balance {
                    return Err(VaultError::ArithmeticOverflow);
                }
                self.set_balance(i, balance + amount);
                Ok(())
            },
            None => {
                self.open_entry(*depositor, amount);
                Ok(())
            },
        }
    }

    /// Takes `amount` from the balance of `depositor`.
    ///
    /// One without an entry is refused with `NoSuchDepositor`, and a balance
    /// below `amount` with `InsufficientFunds`; a refusal leaves the ledger
    /// as it was.
    pub fn debit(&mut self, depositor: &Identity, amount: u64) -> (result: Result<(), VaultError>)
        ensures
            if !old(self)@.dom().contains(depositor@) {
                &&& result == Err::<(), VaultError>(VaultError::NoSuchDepositor)
                &&& final(self)@ == old(self)@
            } else if old(self)@[depositor@] < amount {
                &&& result == Err::<(), VaultError>(VaultError::InsufficientFunds)
                &&& final(self)@ == old(self)@
            } else {
                &&& result == Ok::<(), VaultError>(())
                &&& final(self)@ == debited(old(self)@, depositor@, amount as nat)
            },
    {
        proof {
            use_type_invariant(&*self);
        }
        match position(&self.entries, depositor) {
            Some(i) => {
                let balance = self.entries[i].1;
                proof {
                    lemma_balances_of_entry(self.entries@, i as int);
                }
                if balance < amount {
                    return Err(VaultError::InsufficientFunds);
                }
                self.set_balance(i, balance - amount);
                Ok(())
            },
            None => Err(VaultError::NoSuchDepositor),
        }
    }
}

} // verus!

//! A host held in memory: accounts with balances, and a switch that says
//! whether a failed donation is undone.

use crate::account::AccountKey;
use vstd::prelude::*;

verus! {

/// The balance of `key` that can be spent: what the account holds, or nothing
/// where there is no such account.
pub open spec fn spec_spendable(balances: Map<AccountKey, u64>, key: AccountKey) -> nat {
    if balances.dom().contains(key) {
        balances[key] as nat
    } else {
        0
    }
}

/// The balances after moving `lamports` from `from` to `to`, or `None` where
/// the transfer is declined: an account is missing, `from` holds too little,
/// or `to` would hold more than a balance can express. Moving funds from an
/// account to itself changes nothing.
pub open spec fn spec_transfer(
    balances: Map<AccountKey, u64>,
    from: AccountKey,
    to: AccountKey,
    lamports: u64,
) -> Option<Map<AccountKey, u64>> {
    if !balances.dom().contains(from) || !balances.dom().contains(to) {
        None
    } else if balances[from] < lamports {
        None
    } else if from == to {
        Some(balances)
    } else if balances[to] + lamports > u64::MAX {
        None
    } else {
        Some(
            balances.insert(from, (balances[from] - lamports) as u64).insert(
                to,
                (balances[to] + lamports) as u64,
            ),
        )
    }
}

#[derive(Clone, Copy, Debug)]
struct Entry {
    key: AccountKey,
    balance: u64,
}

/// Accounts and what each holds. A sound ledger lists no account twice.
#[derive(Debug)]
pub struct Ledger {
    entries: Vec<Entry>,
    atomic: bool,
}

spec fn distinct_keys(entries: Seq<Entry>) -> bool {
    forall|i: int, j: int|
        0 <= i < j < entries.len() ==> (#[trigger] entries[i]).key != (#[trigger] entries[j]).key
}

spec fn holds(entries: Seq<Entry>, key: AccountKey) -> bool {
    exists|i: int| 0 <= i < entries.len() && (#[trigger] entries[i]).key == key
}

spec fn index_of(entries: Seq<Entry>, key: AccountKey) -> int {
    choose|i: int| 0 <= i < entries.len() && (#[trigger] entries[i]).key == key
}

spec fn balances_of(entries: Seq<Entry>) -> Map<AccountKey, u64> {
    Map::new(
        |key: AccountKey| holds(entries, key),
        |key: AccountKey| entries[index_of(entries, key)].balance,
    )
}

proof fn lemma_entry_balance(entries: Seq<Entry>, i: int)
    requires
        distinct_keys(entries),
        0 <= i < entries.len(),
    ensures
        holds(entries, entries[i].key),
        index_of(entries, entries[i].key) == i,
        balances_of(entries).dom().contains(entries[i].key),
        balances_of(entries)[entries[i].key] == entries[i].balance,
{
    let j = index_of(entries, entries[i].key);
    assert(0 <= j < entries.len() && entries[j].key == entries[i].key);
}

proof fn lemma_set_balance(entries: Seq<Entry>, i: int, balance: u64)
    requires
        distinct_keys(entries),
        0 <= i < entries.len(),
    ensures
        distinct_keys(entries.update(i, Entry { key: entries[i].key, balance })),
        balances_of(entries.update(i, Entry { key: entries[i].key, balance })) == balances_of(
            entries,
        ).insert(entries[i].key, balance),
{
    let changed = entries.update(i, Entry { key: entries[i].key, balance });
    assert forall|key: AccountKey| holds(changed, key) == holds(entries, key) by {
        if holds(entries, key) {
            let j = index_of(entries, key);
            assert(changed[j].key == key);
        }
        if holds(changed, key) {
            let j = index_of(changed, key);
            assert(entries[j].key == key);
        }
    }
    assert forall|key: AccountKey| holds(entries, key) implies #[trigger] balances_of(changed)[key]
        == balances_of(entries).insert(entries[i].key, balance)[key] by {
        let j = index_of(entries, key);
        lemma_entry_balance(entries, j);
        lemma_entry_balance(changed, j);
    }
    assert(balances_of(changed) =~= balances_of(entries).insert(entries[i].key, balance));
}

proof fn lemma_push_entry(entries: Seq<Entry>, entry: Entry)
    requires
        distinct_keys(entries),
        !holds(entries, entry.key),
    ensures
        distinct_keys(entries.push(entry)),
        balances_of(entries.push(entry)) == balances_of(entries).insert(entry.key, entry.balance),
{
    let grown = entries.push(entry);
    assert forall|i: int, j: int| 0 <= i < j < grown.len() implies (#[trigger] grown[i]).key != (
    #[trigger] grown[j]).key by {
        if j == entries.len() {
            assert(entries[i].key != entry.key);
        } else {
            assert(entries[i].key != entries[j].key);
        }
    }
    assert forall|key: AccountKey| holds(grown, key) == (holds(entries, key) || key == entry.key) by {
        if holds(entries, key) {
            let j = index_of(entries, key);
            assert(grown[j].key == key);
        }
        if key == entry.key {
            assert(grown[entries.len() as int].key == key);
        }
        if holds(grown, key) {
            let j = index_of(grown, key);
            if j < entries.len() {
                assert(entries[j].key == key);
            }
        }
    }
    assert forall|key: AccountKey| holds(grown, key) implies #[trigger] balances_of(grown)[key]
        == balances_of(entries).insert(entry.key, entry.balance)[key] by {
        let j = index_of(grown, key);
        lemma_entry_balance(grown, j);
        if j < entries.len() {
            lemma_entry_balance(entries, j);
        }
    }
    assert(balances_of(grown) =~= balances_of(entries).insert(entry.key, entry.balance));
}

impl Ledger {
    /// Whether the ledger is sound: no account is listed twice.
    pub closed spec fn wf(self) -> bool {
        distinct_keys(self.entries@)
    }

    /// What each account holds.
    pub closed spec fn balances(self) -> Map<AccountKey, u64> {
        balances_of(self.entries@)
    }

    /// Whether a donation that fails leaves the balances as it found them.
    pub closed spec fn spec_is_atomic(self) -> bool {
        self.atomic
    }

    /// A ledger without accounts. With `atomic` set, a donation that fails
    /// is undone as a whole; without it, what took effect stays.
    pub fn new(atomic: bool) -> (ledger: Ledger)
        ensures
            ledger.wf(),
            ledger.balances() == Map::<AccountKey, u64>::empty(),
            ledger.spec_is_atomic() == atomic,
    {
        let ledger = Ledger { entries: Vec::new(), atomic };
        assert(ledger.balances() =~= Map::<AccountKey, u64>::empty());
        ledger
    }

    /// Whether a donation that fails leaves the balances as it found them.
    pub fn is_atomic(&self) -> (atomic: bool)
        ensures
            atomic == self.spec_is_atomic(),
    {
        self.atomic
    }

    fn position(&self, key: &AccountKey) -> (found: Option<usize>)
        ensures
            match found {
                Some(i) => i < self.entries@.len() && self.entries@[i as int].key == *key,
                None => !holds(self.entries@, *key),
            },
    {
        let mut i: usize = 0;
        while i < self.entries.len()
            invariant
                i <= self.entries@.len(),
                forall|j: int| 0 <= j < i ==> (#[trigger] self.entries@[j]).key != *key,
            decreases self.entries@.len() - i,
        {
            if self.entries[i].key.same(key) {
                return Some(i);
            }
            i = i + 1;
        }
        None
    }

    /// Opens the account `key` with `lamports` in it. Where the account
    /// exists already, nothing changes and the answer is `false`.
    pub fn open_account(&mut self, key: AccountKey, lamports: u64) -> (opened: bool)
        requires
            old(self).wf(),
        ensures
            final(self).wf(),
            opened == !old(self).balances().dom().contains(key),
            opened ==> final(self).balances() == old(self).balances().insert(key, lamports),
            !opened ==> final(self).balances() == old(self).balances(),
            final(self).spec_is_atomic() == old(self).spec_is_atomic(),
    {
        match self.position(&key) {
            Some(i) => {
                proof {
                    lemma_entry_balance(self.entries@, i as int);
                }
                false
            },
            None => {
                proof {
                    lemma_push_entry(self.entries@, Entry { key, balance: lamports });
                }
                self.entries.push(Entry { key, balance: lamports });
                true
            },
        }
    }

    /// What the account `key` holds, or `None` where there is no such
    /// account.
    pub fn balance_of(&self, key: &AccountKey) -> (balance: Option<u64>)
        requires
            self.wf(),
        ensures
            balance == if self.balances().dom().contains(*key) {
                Some(self.balances()[*key])
            } else {
                None
            },
    {
        match self.position(key) {
            Some(i) => {
                proof {
                    lemma_entry_balance(self.entries@, i as int);
                }
                Some(self.entries[i].balance)
            },
            None => None,
        }
    }

    /// What can be spent out of the account `key`.
    pub fn spendable(&self, key: &AccountKey) -> (lamports: u64)
        requires
            self.wf(),
        ensures
            lamports == spec_spendable(self.balances(), *key),
    {
        match self.balance_of(key) {
            Some(balance) => balance,
            None => 0,
        }
    }

    /// Moves `lamports` from `from` to `to`, or declines and changes nothing.
    pub fn transfer(&mut self, from: &AccountKey, to: &AccountKey, lamports: u64) -> (accepted:
        bool)
        requires
            old(self).wf(),
        ensures
            final(self).wf(),
            accepted == spec_transfer(old(self).balances(), *from, *to, lamports).is_some(),
            final(self).balances() == match spec_transfer(
                old(self).balances(),
                *from,
                *to,
                lamports,
            ) {
                Some(moved) => moved,
                None => old(self).balances(),
            },
            final(self).spec_is_atomic() == old(self).spec_is_atomic(),
    {
        let source = match self.position(from) {
            Some(i) => i,
            None => {
                return false;
            },
        };
        let target = match self.position(to) {
            Some(i) => i,
            None => {
                return false;
            },
        };
        proof {
            lemma_entry_balance(self.entries@, source as int);
            lemma_entry_balance(self.entries@, target as int);
        }
        let held = self.entries[source].balance;
        let credit = self.entries[target].balance;
        if held < lamports {
            return false;
        }
        if source == target {
            return true;
        }
        if credit > u64::MAX - lamports {
            return false;
        }
        proof {
            lemma_set_balance(self.entries@, source as int, (held - lamports) as u64);
            lemma_set_balance(
                self.entries@.update(
                    source as int,
                    Entry { key: *from, balance: (held - lamports) as u64 },
                ),
                target as int,
                (credit + lamports) as u64,
            );
        }
        self.entries.set(source, Entry { key: *from, balance: held - lamports });
        self.entries.set(target, Entry { key: *to, balance: credit + lamports });
        true
    }

    /// A copy of the ledger as it stands.
    pub fn snapshot(&self) -> (copy: Ledger)
        requires
            self.wf(),
        ensures
            copy.wf(),
            copy.balances() == self.balances(),
            copy.spec_is_atomic() == self.spec_is_atomic(),
    {
        let mut entries: Vec<Entry> = Vec::new();
        let mut i: usize = 0;
        while i < self.entries.len()
            invariant
                i <= self.entries@.len(),
                entries@ == self.entries@.subrange(0, i as int),
            decreases self.entries@.len() - i,
        {
            entries.push(self.entries[i]);
            assert(entries@ =~= self.entries@.subrange(0, i + 1));
            i = i + 1;
        }
        assert(entries@ =~= self.entries@);
        Ledger { entries, atomic: self.atomic }
    }
}

} // verus!

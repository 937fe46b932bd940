//! Accounts and the store that keeps them by address.

use crate::address::Address;
use crate::state::Escrow;
use vstd::prelude::*;

verus! {

/// What an asset account holds: a balance and the identity that may move it.
#[derive(Clone, Copy, Debug, PartialEq, Eq)]
pub struct TokenAccount {
    /// The identity that authorizes transfers out of the account and its
    /// closing.
    pub authority: Address,
    /// The balance of the asset.
    pub amount: u64,
}

/// The kinds of account.
#[derive(Clone, Copy, Debug, PartialEq, Eq)]
pub enum AccountData {
    /// An account that only holds native balance.
    System,
    /// An asset account.
    Token(TokenAccount),
    /// The record of an open trade.
    Escrow(Escrow),
}

/// An account of the ledger.
#[derive(Clone, Copy, Debug, PartialEq, Eq)]
pub struct Account {
    /// The native balance of the account. For an asset account or a record it
    /// is the stake reserved for its storage, returned when it is closed.
    pub lamports: u64,
    /// What the account holds.
    pub data: AccountData,
}

/// An account together with its address.
#[derive(Clone, Copy, Debug)]
struct Entry {
    address: Address,
    account: Account,
}

/// Position `i` of `entries` holds the account at address `a`.
spec fn slot(entries: Seq<Entry>, i: int, a: Address) -> bool {
    0 <= i < entries.len() && entries[i].address == a
}

/// No address occurs twice.
spec fn distinct(entries: Seq<Entry>) -> bool {
    forall|i: int, j: int|
        0 <= i < j < entries.len() ==> #[trigger] entries[i].address != #[trigger] entries[j].address
}

/// The accounts of `entries`, by address.
spec fn accounts_of(entries: Seq<Entry>) -> Map<Address, Account> {
    Map::new(
        |a: Address| exists|i: int| slot(entries, i, a),
        |a: Address| entries[choose|i: int| slot(entries, i, a)].account,
    )
}

proof fn lemma_slot(entries: Seq<Entry>, i: int, a: Address)
    requires
        distinct(entries),
        slot(entries, i, a),
    ensures
        accounts_of(entries).contains_key(a),
        accounts_of(entries)[a] == entries[i].account,
{
    let j = choose|j: int| slot(entries, j, a);
    assert(slot(entries, j, a));
    if i < j {
        assert(entries[i].address != entries[j].address);
    } else if j < i {
        assert(entries[j].address != entries[i].address);
    }
}

proof fn lemma_push(entries: Seq<Entry>, e: Entry)
    requires
        distinct(entries),
        !accounts_of(entries).contains_key(e.address),
    ensures
        distinct(entries.push(e)),
        accounts_of(entries.push(e)) == accounts_of(entries).insert(e.address, e.account),
{
    let after = entries.push(e);
    let n = entries.len() as int;
    assert forall|i: int, j: int| 0 <= i < j < after.len() implies after[i].address
        != after[j].address by {
        if j == n {
            if after[i].address == e.address {
                assert(slot(entries, i, e.address));
            }
        } else {
            assert(entries[i].address != entries[j].address);
        }
    }
    assert(slot(after, n, e.address));
    assert forall|a: Address| #[trigger]
        accounts_of(after).contains_key(a) == accounts_of(entries).insert(
            e.address,
            e.account,
        ).contains_key(a) by {
        if accounts_of(after).contains_key(a) {
            let i = choose|i: int| slot(after, i, a);
            if i < n {
                assert(slot(entries, i, a));
            }
        }
        if accounts_of(entries).contains_key(a) {
            let i = choose|i: int| slot(entries, i, a);
            assert(slot(after, i, a));
        }
    }
    assert forall|a: Address| #[trigger] accounts_of(after).contains_key(a) implies accounts_of(
        after,
    )[a] == accounts_of(entries).insert(e.address, e.account)[a] by {
        if a == e.address {
            lemma_slot(after, n, a);
        } else {
            let i = choose|i: int| slot(after, i, a);
            assert(slot(entries, i, a));
            lemma_slot(entries, i, a);
            lemma_slot(after, i, a);
        }
    }
    assert(accounts_of(after) =~= accounts_of(entries).insert(e.address, e.account));
}

proof fn lemma_update(entries: Seq<Entry>, i: int, account: Account)
    requires
        distinct(entries),
        0 <= i < entries.len(),
    ensures
        distinct(entries.update(i, Entry { address: entries[i].address, account })),
        accounts_of(entries.update(i, Entry { address: entries[i].address, account }))
            == accounts_of(entries).insert(entries[i].address, account),
{
    let key = entries[i].address;
    let after = entries.update(i, Entry { address: key, account });
    assert forall|k: int| 0 <= k < after.len() implies #[trigger] after[k].address
        == entries[k].address by {}
    assert forall|p: int, q: int| 0 <= p < q < after.len() implies after[p].address
        != after[q].address by {
        assert(entries[p].address != entries[q].address);
    }
    assert(slot(after, i, key));
    assert forall|a: Address| #[trigger]
        accounts_of(after).contains_key(a) == accounts_of(entries).insert(key, account).contains_key(
            a,
        ) by {
        if accounts_of(after).contains_key(a) {
            let k = choose|k: int| slot(after, k, a);
            assert(slot(entries, k, a));
        }
        if accounts_of(entries).contains_key(a) {
            let k = choose|k: int| slot(entries, k, a);
            assert(slot(after, k, a));
        }
    }
    assert forall|a: Address| #[trigger] accounts_of(after).contains_key(a) implies accounts_of(
        after,
    )[a] == accounts_of(entries).insert(key, account)[a] by {
        if a == key {
            lemma_slot(after, i, a);
        } else {
            let k = choose|k: int| slot(after, k, a);
            assert(slot(entries, k, a));
            lemma_slot(entries, k, a);
            lemma_slot(after, k, a);
        }
    }
    assert(accounts_of(after) =~= accounts_of(entries).insert(key, account));
}

proof fn lemma_remove(entries: Seq<Entry>, i: int)
    requires
        distinct(entries),
        0 <= i < entries.len(),
    ensures
        distinct(entries.remove(i)),
        accounts_of(entries.remove(i)) == accounts_of(entries).remove(entries[i].address),
{
    let key = entries[i].address;
    let after = entries.remove(i);
    assert forall|k: int| 0 <= k < after.len() implies #[trigger] after[k] == entries[if k < i {
        k
    } else {
        k + 1
    }] by {}
    assert forall|p: int, q: int| 0 <= p < q < after.len() implies after[p].address
        != after[q].address by {
        let p0 = if p < i { p } else { p + 1 };
        let q0 = if q < i { q } else { q + 1 };
        assert(after[p] == entries[p0]);
        assert(after[q] == entries[q0]);
        assert(entries[p0].address != entries[q0].address);
    }
    assert forall|a: Address| #[trigger]
        accounts_of(after).contains_key(a) == accounts_of(entries).remove(key).contains_key(
            a,
        ) by {
        if accounts_of(after).contains_key(a) {
            let k = choose|k: int| slot(after, k, a);
            let k0 = if k < i { k } else { k + 1 };
            assert(after[k] == entries[k0]);
            assert(slot(entries, k0, a));
            if a == key {
                if k0 < i {
                    assert(entries[k0].address != entries[i].address);
                } else {
                    assert(entries[i].address != entries[k0].address);
                }
            }
        }
        if accounts_of(entries).contains_key(a) && a != key {
            let k = choose|k: int| slot(entries, k, a);
            let k1 = if k < i { k } else { k - 1 };
            assert(after[k1] == entries[k]);
            assert(slot(after, k1, a));
        }
    }
    assert forall|a: Address| #[trigger] accounts_of(after).contains_key(a) implies accounts_of(
        after,
    )[a] == accounts_of(entries).remove(key)[a] by {
        let k = choose|k: int| slot(after, k, a);
        let k0 = if k < i { k } else { k + 1 };
        assert(after[k] == entries[k0]);
        assert(slot(entries, k0, a));
        lemma_slot(entries, k0, a);
        lemma_slot(after, k, a);
    }
    assert(accounts_of(after) =~= accounts_of(entries).remove(key));
}

/// A store of accounts in which every address holds at most one account.
pub struct AccountStore {
    entries: Vec<Entry>,
}

impl View for AccountStore {
    type V = Map<Address, Account>;

    closed spec fn view(&self) -> Map<Address, Account> {
        accounts_of(self.entries@)
    }
}

impl AccountStore {
    /// The store is well formed: no address occurs twice in it.
    pub closed spec fn wf(&self) -> bool {
        distinct(self.entries@)
    }

    /// The empty store.
    pub fn new() -> (s: AccountStore)
        ensures
            s.wf(),
            s@ == Map::<Address, Account>::empty(),
    {
        let s = AccountStore { entries: Vec::new() };
        assert(s@ =~= Map::<Address, Account>::empty());
        s
    }

    fn position(&self, address: &Address) -> (r: Option<usize>)
        requires
            self.wf(),
        ensures
            match r {
                Some(i) => slot(self.entries@, i as int, *address) && self@.contains_key(*address)
                    && self@[*address] == self.entries@[i as int].account,
                None => !self@.contains_key(*address),
            },
    {
        let mut i: usize = 0;
        while i < self.entries.len()
            invariant
                i <= self.entries@.len(),
                self.wf(),
                forall|k: int| 0 <= k < i ==> !slot(self.entries@, k, *address),
            decreases self.entries@.len() - i,
        {
            if self.entries[i].address == *address {
                proof {
                    lemma_slot(self.entries@, i as int, *address);
                }
                return Some(i);
            }
            i += 1;
        }
        None
    }

    /// The account at `address`, if there is one.
    pub fn get(&self, address: &Address) -> (r: Option<Account>)
        requires
            self.wf(),
        ensures
            r == (if self@.contains_key(*address) {
                Some(self@[*address])
            } else {
                None
            }),
    {
        match self.position(address) {
            Some(i) => Some(self.entries[i].account),
            None => None,
        }
    }

    /// Whether an account exists at `address`.
    pub fn contains(&self, address: &Address) -> (r: bool)
        requires
            self.wf(),
        ensures
            r == self@.contains_key(*address),
    {
        self.position(address).is_some()
    }

    /// Puts `account` at `address`, in place of the account that was there
    /// if there was one.
    pub fn insert(&mut self, address: Address, account: Account)
        requires
            old(self).wf(),
        ensures
            final(self).wf(),
            final(self)@ == old(self)@.insert(address, account),
    {
        match self.position(&address) {
            Some(i) => {
                proof {
                    lemma_update(self.entries@, i as int, account);
                }
                self.entries[i] = Entry { address, account };
            },
            None => {
                proof {
                    lemma_push(self.entries@, Entry { address, account });
                }
                self.entries.push(Entry { address, account });
            },
        }
    }

    /// Removes the account at `address`, if there is one.
    pub fn remove(&mut self, address: &Address)
        requires
            old(self).wf(),
        ensures
            final(self).wf(),
            final(self)@ == old(self)@.remove(*address),
    {
        match self.position(address) {
            Some(i) => {
                proof {
                    lemma_remove(self.entries@, i as int);
                }
                self.entries.remove(i);
            },
            None => {
                assert(self@.remove(*address) =~= self@);
            },
        }
    }

    /// A copy of the store.
    pub fn snapshot(&self) -> (s: AccountStore)
        requires
            self.wf(),
        ensures
            s.wf(),
            s@ == self@,
    {
        let mut entries: Vec<Entry> = Vec::new();
        let mut i: usize = 0;
        while i < self.entries.len()
            invariant
                i <= self.entries@.len(),
                entries@ == self.entries@.subrange(0, i as int),
            decreases self.entries@.len() - i,
        {
            entries.push(self.entries[i]);
            assert(entries@ =~= self.entries@.subrange(0, i + 1));
            i += 1;
        }
        assert(entries@ =~= self.entries@);
        AccountStore { entries }
    }
}

} // verus!

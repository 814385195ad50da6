//! Accounts as they are read from the chain, and as an instruction lists them.
use crate::pubkey::Pubkey;
use vstd::prelude::*;

verus! {

/// The data of an account.
#[derive(Debug)]
pub struct Account {
    pub data: Vec<u8>,
}

/// An account together with its address.
#[derive(Debug)]
pub struct KeyedAccount {
    pub key: Pubkey,
    pub account: Account,
}

/// One account of an instruction.
#[derive(Clone, Copy, Debug)]
pub struct AccountMeta {
    pub pubkey: Pubkey,
    pub is_signer: bool,
    pub is_writable: bool,
}

/// A writable account.
pub open spec fn writable(pubkey: Pubkey, is_signer: bool) -> AccountMeta {
    AccountMeta { pubkey, is_signer, is_writable: true }
}

/// A read-only account.
pub open spec fn readonly(pubkey: Pubkey, is_signer: bool) -> AccountMeta {
    AccountMeta { pubkey, is_signer, is_writable: false }
}

impl AccountMeta {
    /// A writable account.
    pub fn new(pubkey: Pubkey, is_signer: bool) -> (meta: Self)
        ensures
            meta == writable(pubkey, is_signer),
    {
        AccountMeta { pubkey, is_signer, is_writable: true }
    }

    /// A read-only account.
    pub fn new_readonly(pubkey: Pubkey, is_signer: bool) -> (meta: Self)
        ensures
            meta == readonly(pubkey, is_signer),
    {
        AccountMeta { pubkey, is_signer, is_writable: false }
    }
}

/// The accounts that were fetched, by address. No address occurs twice.
pub struct AccountMap {
    entries: Vec<(Pubkey, Account)>,
}

/// No two entries have the same key.
spec fn distinct_keys(entries: Seq<(Pubkey, Account)>) -> bool {
    forall|i: int, j: int|
        0 <= i < entries.len() && 0 <= j < entries.len() && i != j ==> (#[trigger] entries[i]).0 != (
        #[trigger] entries[j]).0
}

/// Where `key` stands among the entries.
spec fn stands_at(entries: Seq<(Pubkey, Account)>, key: Pubkey, i: int) -> bool {
    0 <= i < entries.len() && entries[i].0 == key
}

/// The entries as a map.
spec fn entries_map(entries: Seq<(Pubkey, Account)>) -> Map<Pubkey, Account> {
    Map::new(
        |key: Pubkey| exists|i: int| stands_at(entries, key, i),
        |key: Pubkey| entries[choose|i: int| stands_at(entries, key, i)].1,
    )
}

impl View for AccountMap {
    type V = Map<Pubkey, Account>;

    closed spec fn view(&self) -> Map<Pubkey, Account> {
        entries_map(self.entries@)
    }
}

impl AccountMap {
    #[verifier::type_invariant]
    spec fn no_duplicates(self) -> bool {
        distinct_keys(self.entries@)
    }

    /// A map without accounts.
    pub fn new() -> (map: Self)
        ensures
            map@ == Map::<Pubkey, Account>::empty(),
    {
        let map = AccountMap { entries: Vec::new() };
        assert(map@ =~= Map::<Pubkey, Account>::empty());
        map
    }

    /// Puts `account` at `key`, in place of what was there.
    pub fn insert(&mut self, key: Pubkey, account: Account)
        ensures
            final(self)@ == old(self)@.insert(key, account),
    {
        proof {
            use_type_invariant(&*self);
        }
        let ghost before = self.entries@;
        let mut entries: Vec<(Pubkey, Account)> = Vec::new();
        std::mem::swap(&mut entries, &mut self.entries);
        let mut i: usize = 0;
        while i < entries.len()
            invariant
                entries@ == before,
                distinct_keys(before),
                i <= entries.len(),
                forall|j: int| 0 <= j < i ==> (#[trigger] before[j]).0 != key,
            ensures
                entries@ == before,
                i <= entries.len(),
                forall|j: int| 0 <= j < i ==> (#[trigger] before[j]).0 != key,
                i < entries.len() ==> before[i as int].0 == key,
            decreases entries.len() - i,
        {
            if entries[i].0 == key {
                break ;
            }
            i = i + 1;
        }
        if i < entries.len() {
            entries.set(i, (key, account));
        } else {
            entries.push((key, account));
        }
        proof {
            let after = entries@;
            assert(stands_at(after, key, i as int));
            assert forall|k: Pubkey| entries_map(after).contains_key(k) <==> entries_map(
                before,
            ).insert(key, account).contains_key(k) by {
                if k != key {
                    if exists|j: int| stands_at(before, k, j) {
                        let j = choose|j: int| stands_at(before, k, j);
                        assert(stands_at(after, k, j));
                    }
                    if exists|j: int| stands_at(after, k, j) {
                        let j = choose|j: int| stands_at(after, k, j);
                        assert(stands_at(before, k, j));
                    }
                }
            }
            assert forall|k: Pubkey| entries_map(after).contains_key(k) implies #[trigger] entries_map(
                after,
            )[k] == entries_map(before).insert(key, account)[k] by {
                let j = choose|j: int| stands_at(after, k, j);
                assert(stands_at(after, k, j));
                if k != key {
                    assert(stands_at(before, k, j));
                    let j2 = choose|j: int| stands_at(before, k, j);
                    assert(before[j].0 == before[j2].0);
                } else {
                    assert(after[j].0 == after[i as int].0);
                }
            }
            assert(entries_map(after) =~= entries_map(before).insert(key, account));
        }
        self.entries = entries;
    }

    /// The account at `key`.
    pub fn get(&self, key: &Pubkey) -> (account: Option<&Account>)
        ensures
            account is Some <==> self@.contains_key(*key),
            account matches Some(found) ==> *found == self@[*key],
    {
        proof {
            use_type_invariant(self);
        }
        let mut i: usize = 0;
        while i < self.entries.len()
            invariant
                distinct_keys(self.entries@),
                i <= self.entries.len(),
                forall|j: int| 0 <= j < i ==> (#[trigger] self.entries@[j]).0 != *key,
            decreases self.entries.len() - i,
        {
            if self.entries[i].0 == *key {
                proof {
                    assert(stands_at(self.entries@, *key, i as int));
                    let j = choose|j: int| stands_at(self.entries@, *key, j);
                    assert(self.entries@[j].0 == self.entries@[i as int].0);
                }
                return Some(&self.entries[i].1);
            }
            i = i + 1;
        }
        None
    }
}

} // verus!

//! The persistent account registry.
//!
//! A mapping from identity digest to account record with insert-if-absent
//! semantics: a digest, once inserted, is never overwritten, and a second
//! insertion under the same digest is rejected. The registry is modelled as
//! a finite map from digest bytes to [`AccountModel`] values; the
//! representation keeps its keys pairwise distinct as its invariant.

use vstd::prelude::*;

use crate::account::Account;
use crate::account::AccountModel;
use crate::errors::WalletError;
use crate::hashing::bytes_eq;
use crate::hashing::clone_bytes;

verus! {

/// The map described by a sequence of digest/record entries: later entries
/// would shadow earlier ones, but the registry invariant keeps all keys
/// distinct, so the order never matters.
pub open spec fn entries_map(s: Seq<(Vec<u8>, Account)>) -> Map<Seq<u8>, AccountModel>
    decreases s.len(),
{
    if s.len() == 0 {
        Map::empty()
    } else {
        entries_map(s.drop_last()).insert(s.last().0@, s.last().1@)
    }
}

/// No two entries share a digest.
pub open spec fn unique_keys(s: Seq<(Vec<u8>, Account)>) -> bool {
    forall|i: int, j: int| 0 <= i < j < s.len() ==> s[i].0@ != s[j].0@
}

proof fn lemma_entries_map_dom(s: Seq<(Vec<u8>, Account)>)
    ensures
        forall|k: Seq<u8>|
            entries_map(s).contains_key(k) <==> (exists|i: int| 0 <= i < s.len() && s[i].0@ == k),
    decreases s.len(),
{
    if s.len() > 0 {
        lemma_entries_map_dom(s.drop_last());
        assert forall|k: Seq<u8>|
            entries_map(s).contains_key(k) <==> (exists|i: int|
                0 <= i < s.len() && s[i].0@ == k) by {
            if entries_map(s).contains_key(k) {
                if k == s.last().0@ {
                    assert(s[s.len() - 1].0@ == k);
                } else {
                    assert(entries_map(s.drop_last()).contains_key(k));
                    let i = choose|i: int| 0 <= i < s.drop_last().len() && s.drop_last()[i].0@ == k;
                    assert(s.drop_last()[i] == s[i]);
                    assert(s[i].0@ == k);
                }
            }
            if exists|i: int| 0 <= i < s.len() && s[i].0@ == k {
                let i = choose|i: int| 0 <= i < s.len() && s[i].0@ == k;
                if i < s.len() - 1 {
                    assert(s.drop_last()[i] == s[i]);
                    assert(s.drop_last()[i].0@ == k);
                    assert(entries_map(s.drop_last()).contains_key(k));
                    assert(entries_map(s).contains_key(k));
                }
            }
        }
    }
}

proof fn lemma_entries_map_get(s: Seq<(Vec<u8>, Account)>, i: int)
    requires
        unique_keys(s),
        0 <= i < s.len(),
    ensures
        entries_map(s).contains_key(s[i].0@),
        entries_map(s)[s[i].0@] == s[i].1@,
    decreases s.len(),
{
    if i < s.len() - 1 {
        assert(unique_keys(s.drop_last())) by {
            assert forall|p: int, q: int|
                0 <= p < q < s.drop_last().len() implies s.drop_last()[p].0@
                != s.drop_last()[q].0@ by {
                assert(s[p].0@ != s[q].0@);
            }
        }
        lemma_entries_map_get(s.drop_last(), i);
        assert(s.drop_last()[i] == s[i]);
        assert(s[i].0@ != s.last().0@);
    }
}

/// The registry: a keyed collection of account records.
pub struct AccountRegistry {
    entries: Vec<(Vec<u8>, Account)>,
}

impl View for AccountRegistry {
    type V = Map<Seq<u8>, AccountModel>;

    closed spec fn view(&self) -> Map<Seq<u8>, AccountModel> {
        entries_map(self.entries@)
    }
}

impl AccountRegistry {
    /// The representation invariant: digests are pairwise distinct, so the
    /// entry sequence denotes its map unambiguously.
    pub closed spec fn wf(&self) -> bool {
        unique_keys(self.entries@)
    }

    /// An empty registry.
    pub fn new() -> (r: AccountRegistry)
        ensures
            r.wf(),
            r@ == Map::<Seq<u8>, AccountModel>::empty(),
    {
        AccountRegistry { entries: Vec::new() }
    }

    /// Pure lookup: the record registered under `digest`, if any.
    pub fn get(&self, digest: &Vec<u8>) -> (r: Option<&Account>)
        requires
            self.wf(),
        ensures
            match r {
                Some(a) => self@.contains_key(digest@) && a@ == self@[digest@],
                None => !self@.contains_key(digest@),
            },
    {
        let n = self.entries.len();
        let mut i: usize = 0;
        while i < n
            invariant
                self.wf(),
                n == self.entries@.len(),
                i <= n,
                forall|j: int| 0 <= j < i ==> self.entries@[j].0@ != digest@,
            decreases n - i,
        {
            if bytes_eq(&self.entries[i].0, digest) {
                proof {
                    lemma_entries_map_get(self.entries@, i as int);
                }
                return Some(&self.entries[i].1);
            }
            i += 1;
        }
        proof {
            lemma_entries_map_dom(self.entries@);
        }
        None
    }

    /// Lookup that a caller-supplied identity must satisfy: fails with
    /// `NotFound` when the digest is absent.
    pub fn require_account(&self, digest: &Vec<u8>) -> (r: Result<&Account, WalletError>)
        requires
            self.wf(),
        ensures
            match r {
                Ok(a) => self@.contains_key(digest@) && a@ == self@[digest@],
                Err(e) => !self@.contains_key(digest@) && e == WalletError::NotFound,
            },
    {
        match self.get(digest) {
            Some(a) => Ok(a),
            None => Err(WalletError::NotFound),
        }
    }

    /// Store `account` under `digest` unless the digest is already taken.
    /// On failure the registry is left exactly as it was.
    pub fn insert_if_absent(&mut self, digest: Vec<u8>, account: Account) -> (r: Result<
        (),
        WalletError,
    >)
        requires
            old(self).wf(),
        ensures
            final(self).wf(),
            old(self)@.contains_key(digest@) ==> r == Err::<(), WalletError>(WalletError::Duplicate)
                && *final(self) == *old(self),
            !old(self)@.contains_key(digest@) ==> r == Ok::<(), WalletError>(()) && final(self)@
                == old(self)@.insert(digest@, account@),
    {
        if self.get(&digest).is_some() {
            Err(WalletError::Duplicate)
        } else {
            proof {
                lemma_entries_map_dom(self.entries@);
                assert(self.entries@.push((digest, account)).drop_last() =~= self.entries@);
            }
            self.entries.push((digest, account));
            Ok(())
        }
    }

    /// The stored entries, in insertion order: the persisted layout of the
    /// registry. Every pair is registered, and the digests are pairwise
    /// distinct.
    pub fn entries(&self) -> (r: &Vec<(Vec<u8>, Account)>)
        requires
            self.wf(),
        ensures
            unique_keys(r@),
            entries_map(r@) == self@,
            r@.len() == self@.dom().len(),
            forall|i: int| #![auto]
                0 <= i < r@.len() ==> self@.contains_key(r@[i].0@) && self@[r@[i].0@] == r@[i].1@,
    {
        proof {
            lemma_entries_map_len(self.entries@);
            assert forall|i: int| #![auto]
                0 <= i < self.entries@.len() implies self@.contains_key(self.entries@[i].0@)
                && self@[self.entries@[i].0@] == self.entries@[i].1@ by {
                lemma_entries_map_get(self.entries@, i);
            }
        }
        &self.entries
    }

    /// Rebuild a registry from a persisted entry sequence, re-checking the
    /// uniqueness invariant: a sequence with a repeated digest is rejected
    /// with `Duplicate`.
    pub fn from_entries(entries: &Vec<(Vec<u8>, Account)>) -> (r: Result<
        AccountRegistry,
        WalletError,
    >)
        ensures
            unique_keys(entries@) ==> (r matches Ok(reg) && reg.wf() && reg@ == entries_map(
                entries@,
            )),
            !unique_keys(entries@) ==> r == Err::<AccountRegistry, WalletError>(
                WalletError::Duplicate,
            ),
    {
        let mut reg = AccountRegistry::new();
        let n = entries.len();
        let mut i: usize = 0;
        while i < n
            invariant
                reg.wf(),
                n == entries@.len(),
                i <= n,
                unique_keys(entries@.subrange(0, i as int)),
                reg@ == entries_map(entries@.subrange(0, i as int)),
            decreases n - i,
        {
            let ghost prefix = entries@.subrange(0, i as int);
            proof {
                lemma_entries_map_dom(prefix);
            }
            let digest = clone_bytes(&entries[i].0);
            let record = entries[i].1.duplicate();
            match reg.insert_if_absent(digest, record) {
                Err(e) => {
                    proof {
                        assert(entries_map(prefix).contains_key(entries@[i as int].0@));
                        let j = choose|j: int|
                            0 <= j < prefix.len() && prefix[j].0@ == entries@[i as int].0@;
                        assert(prefix[j] == entries@[j]);
                        assert(entries@[j].0@ == entries@[i as int].0@);
                        assert(0 <= j < i < entries@.len());
                        assert(!unique_keys(entries@));
                    }
                    return Err(e);
                },
                Ok(_) => {
                    proof {
                        let next = entries@.subrange(0, i + 1);
                        assert(next.drop_last() =~= prefix);
                        assert(next.last() == entries@[i as int]);
                        assert(unique_keys(next)) by {
                            assert forall|p: int, q: int|
                                0 <= p < q < next.len() implies next[p].0@ != next[q].0@ by {
                                assert(next[p] == prefix[p]);
                                if q < i {
                                    assert(next[q] == prefix[q]);
                                } else {
                                    if next[p].0@ == next[q].0@ {
                                        assert(entries_map(prefix).contains_key(
                                            entries@[i as int].0@,
                                        ));
                                    }
                                }
                            }
                        }
                        assert(reg@ == entries_map(next));
                    }
                    i += 1;
                },
            }
        }
        proof {
            assert(entries@.subrange(0, n as int) =~= entries@);
        }
        Ok(reg)
    }

    /// How many records are registered.
    pub fn len(&self) -> (r: usize)
        requires
            self.wf(),
        ensures
            r == self@.dom().len(),
    {
        proof {
            lemma_entries_map_len(self.entries@);
        }
        self.entries.len()
    }
}

proof fn lemma_entries_map_len(s: Seq<(Vec<u8>, Account)>)
    requires
        unique_keys(s),
    ensures
        entries_map(s).dom().finite(),
        entries_map(s).dom().len() == s.len(),
    decreases s.len(),
{
    if s.len() > 0 {
        assert(unique_keys(s.drop_last())) by {
            assert forall|p: int, q: int|
                0 <= p < q < s.drop_last().len() implies s.drop_last()[p].0@
                != s.drop_last()[q].0@ by {
                assert(s[p].0@ != s[q].0@);
            }
        }
        lemma_entries_map_len(s.drop_last());
        lemma_entries_map_dom(s.drop_last());
        assert(!entries_map(s.drop_last()).contains_key(s.last().0@)) by {
            if exists|i: int| 0 <= i < s.drop_last().len() && s.drop_last()[i].0@ == s.last().0@ {
                let i = choose|i: int|
                    0 <= i < s.drop_last().len() && s.drop_last()[i].0@ == s.last().0@;
                assert(s[i].0@ != s[s.len() - 1].0@);
            }
        }
    }
}

} // verus!

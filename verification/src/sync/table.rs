//! Ordered tables: maps whose entries are kept sorted by key, so that walking
//! a table yields its keys in the same order as an ordered map would.
//!
//! Sync scopes are ordered by conversation, then the main timeline before the
//! threads of that conversation, threads by id.
//!
//! The cursors are held here rather than in a `std` map because the sync
//! requests and recovery listings must come out in scope order, which a
//! sorted vector lets the contracts state and prove. vstd states the lookups
//! and the walking order of a `BTreeMap` only for key types whose comparison
//! it has a specification of, and it has none for the ordering that `derive`
//! writes for a struct such as `ScopeKey`; `HashMap` has no order at all.

use vstd::prelude::*;

verus! {

/// A sync scope: the main timeline of a conversation (`thread_id` is `None`)
/// or one thread in it. Identifiers are the 128-bit values of UUIDs.
#[derive(Clone, Copy, Debug, PartialEq, Eq, Structural)]
pub struct ScopeKey {
    pub conversation_id: u128,
    pub thread_id: Option<u128>,
}

/// The main-timeline scope of a conversation.
pub open spec fn main_key(conversation_id: u128) -> ScopeKey {
    ScopeKey { conversation_id, thread_id: None }
}

/// The scope of one thread of a conversation.
pub open spec fn thread_key(conversation_id: u128, thread_id: u128) -> ScopeKey {
    ScopeKey { conversation_id, thread_id: Some(thread_id) }
}

/// Order of the optional thread part of a scope: no thread first, then threads by id.
pub open spec fn thread_lt(a: Option<u128>, b: Option<u128>) -> bool {
    match (a, b) {
        (None, Some(_)) => true,
        (Some(x), Some(y)) => x < y,
        _ => false,
    }
}

/// Strict order of scopes: by conversation id, then by thread part.
pub open spec fn key_lt(a: ScopeKey, b: ScopeKey) -> bool {
    a.conversation_id < b.conversation_id || (a.conversation_id == b.conversation_id
        && thread_lt(a.thread_id, b.thread_id))
}

/// Entries in strictly increasing scope order (so no scope occurs twice).
pub open spec fn sorted<K: TableKey, V>(s: Seq<(K, V)>) -> bool {
    forall|i: int, j: int| 0 <= i < j < s.len() ==> (#[trigger] s[i].0).precedes(#[trigger] s[j].0)
}

pub open spec fn seq_has<K, V>(s: Seq<(K, V)>, k: K) -> bool {
    exists|i: int| 0 <= i < s.len() && #[trigger] s[i].0 == k
}

pub open spec fn seq_index<K, V>(s: Seq<(K, V)>, k: K) -> int {
    choose|i: int| 0 <= i < s.len() && #[trigger] s[i].0 == k
}

/// The map that a sequence of entries stands for.
pub open spec fn seq_to_map<K, V>(s: Seq<(K, V)>) -> Map<K, V> {
    Map::new(|k: K| seq_has(s, k), |k: K| s[seq_index(s, k)].1)
}

/// Keys with a strict total order.
pub trait TableKey: Copy + Sized {
    spec fn precedes(self, other: Self) -> bool;

    proof fn lemma_order(a: Self, b: Self, c: Self)
        ensures
            !a.precedes(a),
            a.precedes(b) ==> !b.precedes(a),
            a.precedes(b) && b.precedes(c) ==> a.precedes(c),
            !a.precedes(b) && a != b ==> b.precedes(a),
    ;

    fn less(&self, other: &Self) -> (r: bool)
        ensures
            r == self.precedes(*other),
    ;

    fn same(&self, other: &Self) -> (r: bool)
        ensures
            r == (*self == *other),
    ;
}

impl TableKey for ScopeKey {
    open spec fn precedes(self, other: Self) -> bool {
        key_lt(self, other)
    }

    proof fn lemma_order(a: Self, b: Self, c: Self) {
    }

    fn less(&self, other: &Self) -> (r: bool) {
        key_less(self, other)
    }

    fn same(&self, other: &Self) -> (r: bool) {
        key_equal(self, other)
    }
}

impl TableKey for u128 {
    open spec fn precedes(self, other: Self) -> bool {
        self < other
    }

    proof fn lemma_order(a: Self, b: Self, c: Self) {
    }

    fn less(&self, other: &Self) -> (r: bool) {
        *self < *other
    }

    fn same(&self, other: &Self) -> (r: bool) {
        *self == *other
    }
}

pub proof fn lemma_key_order<K: TableKey>(a: K, b: K, c: K)
    ensures
        !a.precedes(a),
        a.precedes(b) ==> !b.precedes(a),
        a.precedes(b) && b.precedes(c) ==> a.precedes(c),
        !a.precedes(b) && a != b ==> b.precedes(a),
{
    K::lemma_order(a, b, c);
}

/// In a sorted sequence the entry of a scope is the only one with that scope.
pub proof fn lemma_index<K: TableKey, V>(s: Seq<(K, V)>, i: int)
    requires
        sorted(s),
        0 <= i < s.len(),
    ensures
        seq_has(s, s[i].0),
        seq_index(s, s[i].0) == i,
        seq_to_map(s).contains_key(s[i].0),
        seq_to_map(s)[s[i].0] == s[i].1,
{
    let k = s[i].0;
    assert(seq_has(s, k));
    let j = seq_index(s, k);
    K::lemma_order(k, k, k);
    if j < i {
        assert(s[j].0.precedes(s[i].0));
    } else if j > i {
        assert(s[i].0.precedes(s[j].0));
    }
}

/// Exec comparison matching [`key_lt`].
pub fn key_less(a: &ScopeKey, b: &ScopeKey) -> (r: bool)
    ensures
        r == key_lt(*a, *b),
{
    if a.conversation_id < b.conversation_id {
        true
    } else if a.conversation_id == b.conversation_id {
        match (a.thread_id, b.thread_id) {
            (None, Some(_)) => true,
            (Some(x), Some(y)) => x < y,
            _ => false,
        }
    } else {
        false
    }
}

/// Exec equality of scopes.
pub fn key_equal(a: &ScopeKey, b: &ScopeKey) -> (r: bool)
    ensures
        r == (*a == *b),
{
    a.conversation_id == b.conversation_id && match (a.thread_id, b.thread_id) {
        (None, None) => true,
        (Some(x), Some(y)) => x == y,
        _ => false,
    }
}

/// An ordered map.
pub struct Table<K, V> {
    entries: Vec<(K, V)>,
}

/// The ordered map from sync scopes to sequence numbers.
pub type ScopeTable = Table<ScopeKey, i64>;

impl<K: TableKey, V> View for Table<K, V> {
    type V = Map<K, V>;

    open spec fn view(&self) -> Map<K, V> {
        seq_to_map(self.entries())
    }
}

impl<K: TableKey, V> Table<K, V> {
    /// The entries are sorted by scope.
    pub closed spec fn wf(&self) -> bool {
        sorted(self.entries@)
    }

    /// The entries in increasing scope order.
    pub closed spec fn entries(&self) -> Seq<(K, V)> {
        self.entries@
    }

    pub fn new() -> (t: Self)
        ensures
            t.wf(),
            t.entries() == Seq::<(K, V)>::empty(),
            t@ == Map::<K, V>::empty(),
    {
        let t = Table { entries: Vec::new() };
        assert(t@ =~= Map::<K, V>::empty());
        t
    }

    pub fn len(&self) -> (n: usize)
        ensures
            n == self.entries().len(),
    {
        self.entries.len()
    }

    /// The entry at a position in scope order.
    pub fn entry(&self, i: usize) -> (e: &(K, V))
        requires
            i < self.entries().len(),
        ensures
            *e == self.entries()[i as int],
    {
        &self.entries[i]
    }

    /// A well-formed table holds its entries sorted.
    pub proof fn lemma_sorted(&self)
        requires
            self.wf(),
        ensures
            sorted(self.entries()),
    {
    }

    /// A table has as many entries as keys.
    pub proof fn lemma_len(&self)
        requires
            self.wf(),
        ensures
            self.entries().len() == self@.dom().len(),
            self@.dom().finite(),
    {
        let s = self.entries@;
        let keys = s.map_values(|e: (K, V)| e.0);
        assert forall|i: int, j: int| 0 <= i < keys.len() && 0 <= j < keys.len() && i != j implies keys[i] != keys[j] by {
            lemma_key_order(s[i].0, s[i].0, s[i].0);
            if i < j {
                assert(s[i].0.precedes(s[j].0));
            } else {
                assert(s[j].0.precedes(s[i].0));
            }
        }
        assert(keys.no_duplicates());
        keys.unique_seq_to_set();
        assert forall|k: K| #![auto] keys.to_set().contains(k) <==> self@.dom().contains(k) by {
            if keys.to_set().contains(k) {
                let i = choose|i: int| 0 <= i < keys.len() && keys[i] == k;
                assert(s[i].0 == k);
            }
            if self@.dom().contains(k) {
                let i = seq_index(s, k);
                assert(keys[i] == k);
            }
        }
        assert(keys.to_set() =~= self@.dom());
    }

    /// Position of the first entry not below `k`, and whether it is `k`.
    fn find(&self, k: &K) -> (r: (bool, usize))
        requires
            self.wf(),
        ensures
            r.1 <= self.entries().len(),
            forall|i: int| 0 <= i < r.1 ==> (#[trigger] self.entries()[i].0).precedes(*k),
            r.1 < self.entries().len() ==> !self.entries()[r.1 as int].0.precedes(*k),
            r.0 == (r.1 < self.entries().len() && self.entries()[r.1 as int].0 == *k),
    {
        let mut pos: usize = 0;
        while pos < self.entries.len()
            invariant
                pos <= self.entries@.len(),
                forall|i: int| 0 <= i < pos ==> (#[trigger] self.entries@[i].0).precedes(*k),
            decreases self.entries@.len() - pos,
        {
            if !self.entries[pos].0.less(k) {
                let found = self.entries[pos].0.same(k);
                return (found, pos);
            }
            pos = pos + 1;
        }
        (false, pos)
    }

    /// Looks up the value of a scope.
    pub fn get(&self, k: &K) -> (r: Option<&V>)
        requires
            self.wf(),
        ensures
            r == (if self@.contains_key(*k) { Some(&self@[*k]) } else { None::<&V> }),
    {
        let (found, pos) = self.find(k);
        if found {
            proof {
                lemma_index(self.entries@, pos as int);
            }
            Some(&self.entries[pos].1)
        } else {
            proof {
                self.lemma_absent(*k, pos as int);
            }
            None
        }
    }

    proof fn lemma_absent(&self, k: K, pos: int)
        requires
            sorted(self.entries@),
            0 <= pos <= self.entries@.len(),
            forall|i: int| 0 <= i < pos ==> (#[trigger] self.entries@[i].0).precedes(k),
            pos < self.entries@.len() ==> !self.entries@[pos].0.precedes(k),
            !(pos < self.entries@.len() && self.entries@[pos].0 == k),
        ensures
            !seq_has(self.entries@, k),
            !self@.contains_key(k),
            forall|j: int| pos <= j < self.entries@.len() ==> k.precedes(#[trigger] self.entries@[j].0),
    {
        let s = self.entries@;
        assert forall|j: int| pos <= j < s.len() implies k.precedes(#[trigger] s[j].0) by {
            lemma_key_order(s[pos].0, k, k);
            if j > pos {
                assert(s[pos].0.precedes(s[j].0));
                lemma_key_order(k, s[pos].0, s[j].0);
            }
        }
        if seq_has(s, k) {
            let j = seq_index(s, k);
            lemma_key_order(k, k, k);
            if j < pos {
                assert(s[j].0.precedes(k));
            } else {
                assert(k.precedes(s[j].0));
            }
        }
    }

    /// Sets the value of a scope, adding the scope if it is absent.
    pub fn insert(&mut self, k: K, value: V)
        requires
            old(self).wf(),
        ensures
            final(self).wf(),
            final(self)@ == old(self)@.insert(k, value),
    {
        let ghost v = value;
        let ghost s = self.entries@;
        let (found, pos) = self.find(&k);
        if found {
            self.entries.set(pos, (k, value));
            let ghost t = self.entries@;
            proof {
                assert(t == s.update(pos as int, (k, v)));
                assert forall|i: int, j: int| 0 <= i < j < t.len() implies (#[trigger] t[i].0).precedes(#[trigger] t[j].0) by {
                    assert(s[i].0.precedes(s[j].0));
                }
                assert forall|k2: K| #![auto] seq_to_map(t).contains_key(k2) <==> seq_to_map(s).insert(k, v).contains_key(k2) by {
                    if seq_has(t, k2) {
                        let j = seq_index(t, k2);
                        if j != pos {
                            assert(s[j].0 == k2);
                        }
                    }
                    if seq_has(s, k2) {
                        let j = seq_index(s, k2);
                        assert(t[j].0 == k2);
                    }
                }
                assert forall|k2: K| #![auto] seq_to_map(t).contains_key(k2) implies seq_to_map(t)[k2] == seq_to_map(s).insert(k, v)[k2] by {
                    let j = seq_index(t, k2);
                    lemma_index(t, j);
                    if j != pos {
                        assert(s[j] == t[j]);
                        lemma_index(s, j);
                    }
                }
                assert(seq_to_map(t) =~= seq_to_map(s).insert(k, v));
            }
        } else {
            proof {
                self.lemma_absent(k, pos as int);
            }
            self.entries.insert(pos, (k, value));
            let ghost t = self.entries@;
            proof {
                assert(t == s.insert(pos as int, (k, v)));
                assert forall|i: int, j: int| 0 <= i < j < t.len() implies (#[trigger] t[i].0).precedes(#[trigger] t[j].0) by {
                    if j < pos {
                        assert(s[i].0.precedes(s[j].0));
                    } else if j == pos {
                        assert(s[i].0.precedes(k));
                    } else if i < pos {
                        assert(t[j] == s[j - 1]);
                        assert(s[i].0.precedes(k));
                        assert(k.precedes(s[j - 1].0));
                        lemma_key_order(s[i].0, k, s[j - 1].0);
                    } else if i == pos {
                        assert(k.precedes(s[j - 1].0));
                    } else {
                        assert(s[i - 1].0.precedes(s[j - 1].0));
                    }
                }
                assert forall|k2: K| #![auto] seq_to_map(t).contains_key(k2) <==> seq_to_map(s).insert(k, v).contains_key(k2) by {
                    if seq_has(t, k2) {
                        let j = seq_index(t, k2);
                        if j < pos {
                            assert(s[j].0 == k2);
                        } else if j > pos {
                            assert(s[j - 1].0 == k2);
                        }
                    }
                    if seq_has(s, k2) {
                        let j = seq_index(s, k2);
                        if j < pos {
                            assert(t[j].0 == k2);
                        } else {
                            assert(t[j + 1].0 == k2);
                        }
                    }
                    if k2 == k {
                        assert(t[pos as int].0 == k2);
                    }
                }
                assert forall|k2: K| #![auto] seq_to_map(t).contains_key(k2) implies seq_to_map(t)[k2] == seq_to_map(s).insert(k, v)[k2] by {
                    let j = seq_index(t, k2);
                    lemma_index(t, j);
                    if j < pos {
                        assert(s[j] == t[j]);
                        lemma_index(s, j);
                    } else if j > pos {
                        assert(s[j - 1] == t[j]);
                        lemma_index(s, j - 1);
                    }
                }
                assert(seq_to_map(t) =~= seq_to_map(s).insert(k, v));
            }
        }
    }

    /// Removes a scope; nothing changes if it is absent.
    pub fn remove(&mut self, k: &K)
        requires
            old(self).wf(),
        ensures
            final(self).wf(),
            final(self)@ == old(self)@.remove(*k),
    {
        let ghost s = self.entries@;
        let (found, pos) = self.find(k);
        if found {
            self.entries.remove(pos);
            let ghost t = self.entries@;
            proof {
                assert(t == s.remove(pos as int));
                assert forall|i: int, j: int| 0 <= i < j < t.len() implies (#[trigger] t[i].0).precedes(#[trigger] t[j].0) by {
                    if j < pos {
                        assert(s[i].0.precedes(s[j].0));
                    } else if i < pos {
                        assert(s[i].0.precedes(s[j + 1].0));
                    } else {
                        assert(s[i + 1].0.precedes(s[j + 1].0));
                    }
                }
                assert forall|k2: K| #![auto] seq_to_map(t).contains_key(k2) <==> seq_to_map(s).remove(*k).contains_key(k2) by {
                    if seq_has(t, k2) {
                        let j = seq_index(t, k2);
                        if j < pos {
                            assert(s[j].0 == k2);
                            assert(s[j].0.precedes(s[pos as int].0));
                        } else {
                            assert(s[j + 1].0 == k2);
                            assert(s[pos as int].0.precedes(s[j + 1].0));
                        }
                    }
                    if seq_has(s, k2) && k2 != *k {
                        let j = seq_index(s, k2);
                        if j < pos {
                            assert(t[j].0 == k2);
                        } else {
                            assert(j != pos);
                            assert(t[j - 1].0 == k2);
                        }
                    }
                }
                assert forall|k2: K| #![auto] seq_to_map(t).contains_key(k2) implies seq_to_map(t)[k2] == seq_to_map(s).remove(*k)[k2] by {
                    let j = seq_index(t, k2);
                    lemma_index(t, j);
                    if j < pos {
                        assert(s[j] == t[j]);
                        lemma_index(s, j);
                    } else {
                        assert(s[j + 1] == t[j]);
                        lemma_index(s, j + 1);
                    }
                }
                assert(seq_to_map(t) =~= seq_to_map(s).remove(*k));
            }
        } else {
            proof {
                self.lemma_absent(*k, pos as int);
                assert(self@ =~= seq_to_map(s).remove(*k));
            }
        }
    }

    /// Removes a key and hands back its value, if it was present.
    pub fn take(&mut self, k: &K) -> (r: Option<V>)
        requires
            old(self).wf(),
        ensures
            final(self).wf(),
            final(self)@ == old(self)@.remove(*k),
            r == (if old(self)@.contains_key(*k) { Some(old(self)@[*k]) } else { None::<V> }),
    {
        let ghost s = self.entries@;
        let (found, pos) = self.find(k);
        if found {
            proof {
                lemma_index(s, pos as int);
            }
            let (_, value) = self.entries.remove(pos);
            let ghost t = self.entries@;
            proof {
                assert(t == s.remove(pos as int));
                assert forall|i: int, j: int| 0 <= i < j < t.len() implies (#[trigger] t[i].0).precedes(#[trigger] t[j].0) by {
                    if j < pos {
                        assert(s[i].0.precedes(s[j].0));
                    } else if i < pos {
                        assert(s[i].0.precedes(s[j + 1].0));
                    } else {
                        assert(s[i + 1].0.precedes(s[j + 1].0));
                    }
                }
                assert forall|k2: K| #![auto] seq_to_map(t).contains_key(k2) <==> seq_to_map(s).remove(*k).contains_key(k2) by {
                    if seq_has(t, k2) {
                        let j = seq_index(t, k2);
                        if j < pos {
                            assert(s[j].0 == k2);
                            assert(s[j].0.precedes(s[pos as int].0));
                        } else {
                            assert(s[j + 1].0 == k2);
                            assert(s[pos as int].0.precedes(s[j + 1].0));
                        }
                        lemma_key_order(k2, k2, k2);
                    }
                    if seq_has(s, k2) && k2 != *k {
                        let j = seq_index(s, k2);
                        if j < pos {
                            assert(t[j].0 == k2);
                        } else {
                            assert(j != pos);
                            assert(t[j - 1].0 == k2);
                        }
                    }
                }
                assert forall|k2: K| #![auto] seq_to_map(t).contains_key(k2) implies seq_to_map(t)[k2] == seq_to_map(s).remove(*k)[k2] by {
                    let j = seq_index(t, k2);
                    lemma_index(t, j);
                    if j < pos {
                        assert(s[j] == t[j]);
                        lemma_index(s, j);
                    } else {
                        assert(s[j + 1] == t[j]);
                        lemma_index(s, j + 1);
                    }
                }
                assert(seq_to_map(t) =~= seq_to_map(s).remove(*k));
            }
            Some(value)
        } else {
            proof {
                self.lemma_absent(*k, pos as int);
                assert(self@ =~= seq_to_map(s).remove(*k));
            }
            None
        }
    }

    /// Removes every entry.
    pub fn clear(&mut self)
        ensures
            final(self).wf(),
            final(self)@ == Map::<K, V>::empty(),
            final(self).entries() == Seq::<(K, V)>::empty(),
    {
        self.entries.clear();
        assert(self@ =~= Map::<K, V>::empty());
    }
}

} // verus!

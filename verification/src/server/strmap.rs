//! A small map from text keys to values, kept as a list without repeated keys.
//!
//! It holds the sign-in attempt counters keyed by phone number and by client
//! address. A `std::collections::HashMap` with a `String` key gets from
//! vstd a specification under which lookups and insertions prove little, so
//! the keys are compared here by their text, and "no key occurs twice" is the
//! map's invariant.

use vstd::prelude::*;
use crate::text::str_equal;

verus! {

pub struct StrMap<V> {
    entries: Vec<(String, V)>,
}

pub open spec fn keys_unique<V>(s: Seq<(String, V)>) -> bool {
    forall|i: int, j: int| 0 <= i < j < s.len() ==> (#[trigger] s[i]).0@ != (#[trigger] s[j]).0@
}

pub open spec fn has_key<V>(s: Seq<(String, V)>, k: Seq<char>) -> bool {
    exists|i: int| 0 <= i < s.len() && (#[trigger] s[i]).0@ == k
}

pub open spec fn key_index<V>(s: Seq<(String, V)>, k: Seq<char>) -> int {
    choose|i: int| 0 <= i < s.len() && (#[trigger] s[i]).0@ == k
}

pub open spec fn entries_map<V>(s: Seq<(String, V)>) -> Map<Seq<char>, V> {
    Map::new(|k: Seq<char>| has_key(s, k), |k: Seq<char>| s[key_index(s, k)].1)
}

impl<V> View for StrMap<V> {
    type V = Map<Seq<char>, V>;

    closed spec fn view(&self) -> Map<Seq<char>, V> {
        entries_map(self.entries@)
    }
}

impl<V: Copy> StrMap<V> {
    pub closed spec fn wf(&self) -> bool {
        keys_unique(self.entries@)
    }

    pub fn new() -> (m: Self)
        ensures
            m.wf(),
            m@ == Map::<Seq<char>, V>::empty(),
    {
        let m = StrMap { entries: Vec::new() };
        assert(m@ =~= Map::<Seq<char>, V>::empty());
        m
    }

    fn find(&self, k: &str) -> (r: Option<usize>)
        requires
            self.wf(),
        ensures
            match r {
                Some(i) => i < self.entries@.len() && self.entries@[i as int].0@ == k@,
                None => !has_key(self.entries@, k@),
            },
    {
        let mut i: usize = 0;
        while i < self.entries.len()
            invariant
                i <= self.entries@.len(),
                forall|j: int| 0 <= j < i ==> (#[trigger] self.entries@[j]).0@ != k@,
            decreases self.entries@.len() - i,
        {
            if str_equal(self.entries[i].0.as_str(), k) {
                return Some(i);
            }
            i = i + 1;
        }
        None
    }

    pub fn get(&self, k: &str) -> (r: Option<V>)
        requires
            self.wf(),
        ensures
            r == (if self@.contains_key(k@) { Some(self@[k@]) } else { None::<V> }),
    {
        match self.find(k) {
            Some(i) => {
                proof {
                    let s = self.entries@;
                    assert(has_key(s, k@));
                    let j = key_index(s, k@);
                    if j != i {
                        if j < i {
                            assert(s[j].0@ != s[i as int].0@);
                        } else {
                            assert(s[i as int].0@ != s[j].0@);
                        }
                    }
                }
                Some(self.entries[i].1)
            },
            None => None,
        }
    }

    /// Sets the value of a key, adding the key if it is absent.
    pub fn insert(&mut self, k: &str, v: V)
        requires
            old(self).wf(),
        ensures
            final(self).wf(),
            final(self)@ == old(self)@.insert(k@, v),
    {
        let ghost s0 = self.entries@;
        match self.find(k) {
            Some(i) => {
                let key = self.entries[i].0.clone();
                self.entries.set(i, (key, v));
                proof {
                    let s = self.entries@;
                    assert forall|a: int, b: int| 0 <= a < b < s.len() implies (#[trigger] s[a]).0@ != (#[trigger] s[b]).0@ by {
                        assert(s0[a].0@ != s0[b].0@);
                    }
                    assert forall|q: Seq<char>| #![auto] entries_map(s).contains_key(q) <==> old(self)@.insert(k@, v).contains_key(q) by {
                        if has_key(s0, q) {
                            let j = key_index(s0, q);
                            assert(s[j].0@ == q);
                        }
                        if has_key(s, q) {
                            let j = key_index(s, q);
                            assert(s0[j].0@ == q);
                        }
                    }
                    assert forall|q: Seq<char>| #[trigger] entries_map(s).contains_key(q) implies entries_map(s)[q] == old(self)@.insert(k@, v)[q] by {
                        let j = key_index(s, q);
                        if q == k@ {
                            if j != i {
                                if j < i {
                                    assert(s[j].0@ != s[i as int].0@);
                                } else {
                                    assert(s[i as int].0@ != s[j].0@);
                                }
                            }
                        } else {
                            assert(has_key(s0, q));
                            let j0 = key_index(s0, q);
                            if j0 != j {
                                if j0 < j {
                                    assert(s0[j0].0@ != s0[j].0@);
                                } else {
                                    assert(s0[j].0@ != s0[j0].0@);
                                }
                            }
                        }
                    }
                    assert(entries_map(s) =~= old(self)@.insert(k@, v));
                }
            },
            None => {
                self.entries.push((k.to_string(), v));
                proof {
                    let s = self.entries@;
                    let n = s0.len() as int;
                    assert forall|a: int, b: int| 0 <= a < b < s.len() implies (#[trigger] s[a]).0@ != (#[trigger] s[b]).0@ by {
                        if b == n {
                            assert(s[a] == s0[a]);
                        } else {
                            assert(s0[a].0@ != s0[b].0@);
                        }
                    }
                    assert forall|q: Seq<char>| #![auto] entries_map(s).contains_key(q) <==> old(self)@.insert(k@, v).contains_key(q) by {
                        if has_key(s0, q) {
                            let j = key_index(s0, q);
                            assert(s[j].0@ == q);
                        }
                        if q == k@ {
                            assert(s[n].0@ == q);
                        }
                        if has_key(s, q) {
                            let j = key_index(s, q);
                            if j < n {
                                assert(s0[j].0@ == q);
                            }
                        }
                    }
                    assert forall|q: Seq<char>| #[trigger] entries_map(s).contains_key(q) implies entries_map(s)[q] == old(self)@.insert(k@, v)[q] by {
                        let j = key_index(s, q);
                        if q == k@ {
                            if j < n {
                                assert(s0[j].0@ == q);
                            }
                        } else {
                            assert(j < n);
                            assert(has_key(s0, q));
                            let j0 = key_index(s0, q);
                            if j0 != j {
                                if j0 < j {
                                    assert(s0[j0].0@ != s0[j].0@);
                                } else {
                                    assert(s0[j].0@ != s0[j0].0@);
                                }
                            }
                        }
                    }
                    assert(entries_map(s) =~= old(self)@.insert(k@, v));
                }
            },
        }
    }

    /// Removes a key.
    pub fn remove(&mut self, k: &str)
        requires
            old(self).wf(),
        ensures
            final(self).wf(),
            final(self)@ == old(self)@.remove(k@),
    {
        let ghost s0 = self.entries@;
        match self.find(k) {
            Some(i) => {
                self.entries.remove(i);
                proof {
                    let s = self.entries@;
                    assert forall|a: int| 0 <= a < s.len() implies #[trigger] s[a] == (if a < i { s0[a] } else { s0[a + 1] }) by {}
                    assert forall|a: int, b: int| 0 <= a < b < s.len() implies (#[trigger] s[a]).0@ != (#[trigger] s[b]).0@ by {
                        let a0 = if a < i { a } else { a + 1 };
                        let b0 = if b < i { b } else { b + 1 };
                        assert(s[a] == s0[a0]);
                        assert(s[b] == s0[b0]);
                        assert(s0[a0].0@ != s0[b0].0@);
                    }
                    assert forall|q: Seq<char>| #![auto] entries_map(s).contains_key(q) <==> old(self)@.remove(k@).contains_key(q) by {
                        if has_key(s, q) {
                            let j = key_index(s, q);
                            let j0 = if j < i { j } else { j + 1 };
                            assert(s0[j0].0@ == q);
                            if q == k@ {
                                if j0 < i {
                                    assert(s0[j0].0@ != s0[i as int].0@);
                                } else {
                                    assert(s0[i as int].0@ != s0[j0].0@);
                                }
                            }
                        }
                        if has_key(s0, q) && q != k@ {
                            let j0 = key_index(s0, q);
                            assert(j0 != i);
                            let j = if j0 < i { j0 } else { j0 - 1 };
                            assert(s[j].0@ == q);
                        }
                    }
                    assert forall|q: Seq<char>| #[trigger] entries_map(s).contains_key(q) implies entries_map(s)[q] == old(self)@.remove(k@)[q] by {
                        let j = key_index(s, q);
                        let j0 = if j < i { j } else { j + 1 };
                        assert(s0[j0].0@ == q);
                        let k0 = key_index(s0, q);
                        if k0 != j0 {
                            if k0 < j0 {
                                assert(s0[k0].0@ != s0[j0].0@);
                            } else {
                                assert(s0[j0].0@ != s0[k0].0@);
                            }
                        }
                    }
                    assert(entries_map(s) =~= old(self)@.remove(k@));
                }
            },
            None => {
                proof {
                    assert(old(self)@.remove(k@) =~= old(self)@);
                }
            },
        }
    }
}

} // verus!

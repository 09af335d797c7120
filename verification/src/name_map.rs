//! A map from service names to values, kept in ascending name order.
//!
//! The desired state and the per-service retry bookkeeping are keyed by
//! service name and walked in name order; this map is that ordered table.

use vstd::prelude::*;

use crate::text::{lemma_lex_asymmetric, lemma_lex_irreflexive, lemma_lex_total,
    lemma_lex_transitive, lex_less, text_before};

verus! {

/// One name with its value.
pub struct NamedValue<V> {
    pub name: String,
    pub value: V,
}

/// Names in strictly ascending order, each with a value.
pub struct NameMap<V: View> {
    entries: Vec<NamedValue<V>>,
}

/// A sequence of names in strictly ascending order.
pub open spec fn ascending(s: Seq<Seq<char>>) -> bool {
    forall|i: int, j: int| 0 <= i < j < s.len() ==> lex_less(#[trigger] s[i], #[trigger] s[j])
}

/// Names in ascending order are pairwise distinct.
pub proof fn lemma_ascending_distinct(s: Seq<Seq<char>>, i: int, j: int)
    requires
        ascending(s),
        0 <= i < s.len(),
        0 <= j < s.len(),
        i != j,
    ensures
        s[i] != s[j],
{
    if i < j {
        assert(lex_less(s[i], s[j]));
        lemma_lex_irreflexive(s[i]);
    } else {
        assert(lex_less(s[j], s[i]));
        lemma_lex_irreflexive(s[j]);
    }
}

impl<V: View> NameMap<V> {
    /// The names, in the order the map keeps them.
    pub closed spec fn keys(&self) -> Seq<Seq<char>> {
        self.entries@.map_values(|e: NamedValue<V>| e.name@)
    }

    /// The values, aligned with `keys`.
    pub closed spec fn values(&self) -> Seq<V> {
        self.entries@.map_values(|e: NamedValue<V>| e.value)
    }

    /// The map is well formed: its names ascend strictly. Every map is.
    #[verifier::type_invariant]
    pub open spec fn wf(&self) -> bool {
        &&& ascending(self.keys())
        &&& self.values().len() == self.keys().len()
    }

    /// Position of the name `k` among the keys.
    pub open spec fn position(&self, k: Seq<char>) -> int {
        choose|i: int| 0 <= i < self.keys().len() && self.keys()[i] == k
    }

    /// Every key sits at exactly one position.
    pub proof fn lemma_position(&self, i: int)
        requires
            self.wf(),
            0 <= i < self.keys().len(),
        ensures
            self.position(self.keys()[i]) == i,
            self@.contains_key(self.keys()[i]),
            self@[self.keys()[i]] == self.values()[i]@,
    {
        let k = self.keys()[i];
        assert(self.keys().contains(k));
        let j = self.position(k);
        if j != i {
            lemma_ascending_distinct(self.keys(), i, j);
        }
    }

    /// An empty map.
    pub fn new() -> (m: Self)
        ensures
            m.wf(),
            m.keys() == Seq::<Seq<char>>::empty(),
            m@ == Map::<Seq<char>, V::V>::empty(),
    {
        let m = NameMap { entries: Vec::new() };
        assert(m.keys() =~= Seq::<Seq<char>>::empty());
        assert(m@ =~= Map::<Seq<char>, V::V>::empty());
        m
    }

    /// Number of names in the map.
    pub fn len(&self) -> (n: usize)
        ensures
            n == self.keys().len(),
    {
        self.entries.len()
    }

    /// The name at position `i`.
    pub fn name_at(&self, i: usize) -> (r: &String)
        requires
            i < self.keys().len(),
        ensures
            r@ == self.keys()[i as int],
    {
        &self.entries[i].name
    }

    /// The value at position `i`.
    pub fn value_at(&self, i: usize) -> (r: &V)
        requires
            i < self.keys().len(),
        ensures
            *r == self.values()[i as int],
    {
        &self.entries[i].value
    }

    /// The position of `name`, when the map holds it.
    pub fn find(&self, name: &String) -> (r: Option<usize>)
        ensures
            r is Some <==> self@.contains_key(name@),
            r is Some ==> r->0 < self.keys().len() && self.keys()[r->0 as int] == name@,
    {
        let n = self.entries.len();
        let mut i: usize = 0;
        while i < n
            invariant
                n == self.keys().len(),
                i <= n,
                forall|j: int| 0 <= j < i ==> self.keys()[j] != name@,
            decreases n - i,
        {
            if self.entries[i].name == *name {
                assert(self.keys()[i as int] == name@);
                return Some(i);
            }
            i = i + 1;
        }
        proof {
            if self.keys().contains(name@) {
                let j = choose|j: int| 0 <= j < self.keys().len() && self.keys()[j] == name@;
                assert(self.keys()[j] != name@);
            }
        }
        None
    }

    /// Whether the map holds `name`.
    pub fn contains(&self, name: &String) -> (b: bool)
        ensures
            b == self@.contains_key(name@),
    {
        self.find(name).is_some()
    }

    /// The value stored under `name`, when there is one.
    pub fn get(&self, name: &String) -> (r: Option<&V>)
        ensures
            r is Some <==> self@.contains_key(name@),
            r is Some ==> (*r->0)@ == self@[name@],
    {
        proof {
            use_type_invariant(self);
        }
        match self.find(name) {
            Some(i) => {
                proof {
                    self.lemma_position(i as int);
                }
                Some(&self.entries[i].value)
            },
            None => None,
        }
    }

    /// Replace the value at position `i`; the names stay as they are.
    pub fn set_at(&mut self, i: usize, value: V)
        requires
            i < old(self).keys().len(),
        ensures
            final(self).keys() == old(self).keys(),
            final(self).values() == old(self).values().update(i as int, value),
            final(self)@ == old(self)@.insert(old(self).keys()[i as int], value@),
    {
        proof {
            use_type_invariant(&*self);
        }
        let ghost old_map = *self;
        let mut entries: Vec<NamedValue<V>> = Vec::new();
        std::mem::swap(&mut entries, &mut self.entries);
        let name = entries[i].name.clone();
        entries.set(i, NamedValue { name, value });
        let ghost new_map = NameMap { entries };
        proof {
            assert(new_map.keys() =~= old_map.keys());
            assert(new_map.values() =~= old_map.values().update(i as int, value));
            new_map.lemma_map_after_set(old_map, i as int, value);
        }
        self.entries = entries;
    }

    proof fn lemma_map_after_set(&self, old_map: Self, i: int, value: V)
        requires
            old_map.wf(),
            0 <= i < old_map.keys().len(),
            self.keys() == old_map.keys(),
            self.values() == old_map.values().update(i, value),
        ensures
            self.wf(),
            self@ == old_map@.insert(old_map.keys()[i], value@),
    {
        let k = old_map.keys()[i];
        assert forall|q: Seq<char>| #[trigger] self@.contains_key(q) implies old_map@.insert(
            k,
            value@,
        ).contains_key(q) && self@[q] == old_map@.insert(k, value@)[q] by {
            let j = self.position(q);
            self.lemma_position(j);
            old_map.lemma_position(j);
            if j != i {
                lemma_ascending_distinct(self.keys(), i, j);
            }
        }
        assert forall|q: Seq<char>| #[trigger] old_map@.insert(k, value@).contains_key(
            q,
        ) implies self@.contains_key(q) by {
            if q != k {
                let j = old_map.position(q);
                old_map.lemma_position(j);
                self.lemma_position(j);
            } else {
                self.lemma_position(i);
            }
        }
        assert(self@ =~= old_map@.insert(k, value@));
    }

    /// Store `value` under `name`: the value of a name already present is
    /// replaced in place, a new name takes its place in ascending order.
    pub fn insert(&mut self, name: String, value: V)
        ensures
            final(self)@ == old(self)@.insert(name@, value@),
            old(self)@.contains_key(name@) ==> final(self).keys() == old(self).keys(),
            final(self).keys().to_set() == old(self).keys().to_set().insert(name@),
    {
        proof {
            use_type_invariant(&*self);
        }
        let n = self.entries.len();
        let mut i: usize = 0;
        while i < n
            invariant
                n == self.keys().len(),
                self.wf(),
                *self == *old(self),
                i <= n,
                forall|j: int| 0 <= j < i ==> lex_less(#[trigger] self.keys()[j], name@),
            decreases n - i,
        {
            if self.entries[i].name == name {
                proof {
                    self.lemma_position(i as int);
                }
                let ghost before = *self;
                self.set_at(i, value);
                proof {
                    assert(before.keys().to_set().insert(name@) =~= before.keys().to_set());
                }
                return;
            }
            if text_before(name.as_str(), self.entries[i].name.as_str()) {
                let ghost before = *self;
                let mut entries: Vec<NamedValue<V>> = Vec::new();
                std::mem::swap(&mut entries, &mut self.entries);
                entries.insert(i, NamedValue { name, value });
                let ghost after = NameMap { entries };
                proof {
                    after.lemma_after_insert(before, i as int, name@, value);
                }
                self.entries = entries;
                return;
            }
            proof {
                lemma_lex_total(self.keys()[i as int], name@);
            }
            i = i + 1;
        }
        let ghost before = *self;
        let mut entries: Vec<NamedValue<V>> = Vec::new();
        std::mem::swap(&mut entries, &mut self.entries);
        entries.push(NamedValue { name, value });
        let ghost after = NameMap { entries };
        proof {
            assert(after.entries@ =~= before.entries@.insert(n as int, after.entries@[n as int]));
            after.lemma_after_insert(before, n as int, name@, value);
        }
        self.entries = entries;
    }

    proof fn lemma_after_insert(&self, before: Self, p: int, k: Seq<char>, value: V)
        requires
            before.wf(),
            0 <= p <= before.keys().len(),
            self.entries@ == before.entries@.insert(p, NamedValue { name: self.entries@[p].name, value }),
            self.entries@[p].name@ == k,
            forall|j: int| 0 <= j < p ==> lex_less(#[trigger] before.keys()[j], k),
            p < before.keys().len() ==> lex_less(k, before.keys()[p]),
        ensures
            self.wf(),
            self@ == before@.insert(k, value@),
            self.keys().to_set() == before.keys().to_set().insert(k),
            !before@.contains_key(k),
    {
        assert(self.keys() =~= before.keys().insert(p, k));
        assert(self.values() =~= before.values().insert(p, value));
        let ks = self.keys();
        let bk = before.keys();
        assert forall|i: int, j: int| 0 <= i < j < ks.len() implies lex_less(
            #[trigger] ks[i],
            #[trigger] ks[j],
        ) by {
            if j < p {
                assert(ks[i] == bk[i] && ks[j] == bk[j]);
            } else if j == p {
                assert(ks[i] == bk[i]);
            } else if i > p {
                assert(ks[i] == bk[i - 1] && ks[j] == bk[j - 1]);
            } else if i == p {
                assert(ks[j] == bk[j - 1]);
                if j - 1 > p {
                    assert(lex_less(bk[p], bk[j - 1]));
                    lemma_lex_transitive(k, bk[p], bk[j - 1]);
                }
            } else {
                assert(ks[i] == bk[i] && ks[j] == bk[j - 1]);
                assert(lex_less(bk[i], k));
                if j - 1 >= p {
                    if j - 1 > p {
                        assert(lex_less(bk[p], bk[j - 1]));
                        lemma_lex_transitive(k, bk[p], bk[j - 1]);
                    }
                    lemma_lex_transitive(bk[i], k, bk[j - 1]);
                }
            }
        }
        assert(!before.keys().contains(k)) by {
            if before.keys().contains(k) {
                let j = choose|j: int| 0 <= j < bk.len() && bk[j] == k;
                if j < p {
                    lemma_lex_irreflexive(k);
                } else {
                    if j > p {
                        assert(lex_less(bk[p], bk[j]));
                        lemma_lex_asymmetric(k, bk[p]);
                        lemma_lex_transitive(k, bk[p], bk[j]);
                    }
                    lemma_lex_irreflexive(k);
                }
            }
        }
        let target = before@.insert(k, value@);
        assert forall|q: Seq<char>| #[trigger] self@.contains_key(q) implies target.contains_key(q)
            && self@[q] == target[q] by {
            let j = self.position(q);
            self.lemma_position(j);
            if j < p {
                before.lemma_position(j);
            } else if j > p {
                before.lemma_position(j - 1);
            }
        }
        assert forall|q: Seq<char>| #[trigger] target.contains_key(q) implies self@.contains_key(
            q,
        ) by {
            if q != k {
                let j = before.position(q);
                before.lemma_position(j);
                if j < p {
                    self.lemma_position(j);
                } else {
                    self.lemma_position(j + 1);
                }
            } else {
                self.lemma_position(p);
            }
        }
        assert(self@ =~= target);
        assert(ks.to_set() =~= bk.to_set().insert(k)) by {
            assert forall|q: Seq<char>| ks.to_set().contains(q) implies bk.to_set().insert(
                k,
            ).contains(q) by {
                let j = choose|j: int| 0 <= j < ks.len() && ks[j] == q;
                if j < p {
                    assert(bk[j] == q);
                } else if j > p {
                    assert(bk[j - 1] == q);
                }
            }
            assert forall|q: Seq<char>| bk.to_set().insert(k).contains(q) implies ks.to_set().contains(
                q,
            ) by {
                if q == k {
                    assert(ks[p] == q);
                } else {
                    let j = choose|j: int| 0 <= j < bk.len() && bk[j] == q;
                    if j < p {
                        assert(ks[j] == q);
                    } else {
                        assert(ks[j + 1] == q);
                    }
                }
            }
        }
    }
}

impl<V: View> View for NameMap<V> {
    type V = Map<Seq<char>, V::V>;

    closed spec fn view(&self) -> Map<Seq<char>, V::V> {
        Map::new(
            |k: Seq<char>| self.keys().contains(k),
            |k: Seq<char>| self.values()[self.position(k)]@,
        )
    }
}

} // verus!

//! A map from names to values that keeps its entries in the order the
//! names were first inserted, each name at most once.

use vstd::prelude::*;
use crate::sarif_roles::{first_key_index, lemma_first_key_found, lemma_first_key_prefix, upsert};
use crate::text::str_eq;

verus! {

/// Entries with their names taken as text.
pub open spec fn named_entries<V>(s: Seq<(String, V)>) -> Seq<(Seq<char>, V)> {
    s.map_values(|e: (String, V)| (e.0@, e.1))
}

/// The names of entries, in order.
pub open spec fn entry_names<V>(s: Seq<(Seq<char>, V)>) -> Seq<Seq<char>> {
    s.map_values(|e: (Seq<char>, V)| e.0)
}

/// The value under a name, if any.
pub open spec fn lookup<V>(s: Seq<(Seq<char>, V)>, k: Seq<char>) -> Option<V> {
    match first_key_index(s, k) {
        Some(i) => Some(s[i].1),
        None => None,
    }
}

/// A map from names to values, in first-insertion order.
#[derive(Debug)]
pub struct NamedMap<V> {
    entries: Vec<(String, V)>,
}

/// No name occurs twice among the entries.
pub open spec fn distinct_names<V>(s: Seq<(Seq<char>, V)>) -> bool {
    forall|a: int, b: int| 0 <= a < b < s.len() ==> #[trigger] s[a].0 != #[trigger] s[b].0
}

/// Inserting keeps names distinct.
proof fn lemma_upsert_distinct<V>(s: Seq<(Seq<char>, V)>, k: Seq<char>, v: V)
    requires
        distinct_names(s),
    ensures
        distinct_names(upsert(s, k, v)),
        upsert(s, k, v).len() == s.len() + if first_key_index(s, k) is Some { 0int } else { 1int },
{
    lemma_first_key_found(s, k);
    let u = upsert(s, k, v);
    match first_key_index(s, k) {
        Some(i) => {
            assert forall|a: int, b: int| 0 <= a < b < u.len() implies #[trigger] u[a].0 != #[trigger] u[b].0 by {
                assert(u[a].0 == s[a].0);
                assert(u[b].0 == s[b].0);
            }
        },
        None => {
            assert forall|a: int, b: int| 0 <= a < b < u.len() implies #[trigger] u[a].0 != #[trigger] u[b].0 by {
                if b == s.len() {
                    assert(u[a].0 == s[a].0);
                } else {
                    assert(u[a] == s[a]);
                    assert(u[b] == s[b]);
                }
            }
        },
    }
}

/// With distinct names, a name is found exactly where it stands.
pub proof fn lemma_distinct_lookup<V>(s: Seq<(Seq<char>, V)>, i: int)
    requires
        distinct_names(s),
        0 <= i < s.len(),
    ensures
        first_key_index(s, s[i].0) == Some(i),
{
    lemma_first_key_found(s, s[i].0);
    match first_key_index(s, s[i].0) {
        Some(j) => {
            if j < i {
                assert(s[j].0 != s[i].0);
            }
        },
        None => {},
    }
}

impl<V> NamedMap<V> {
    /// Names stay distinct.
    #[verifier::type_invariant]
    spec fn names_distinct(self) -> bool {
        distinct_names(named_entries(self.entries@))
    }

    /// The entries, in first-insertion order.
    pub closed spec fn entries(&self) -> Seq<(Seq<char>, V)> {
        named_entries(self.entries@)
    }

    /// The value under a name.
    pub open spec fn get_spec(&self, k: Seq<char>) -> Option<V> {
        lookup(self.entries(), k)
    }

    /// An empty map.
    pub fn new() -> (r: Self)
        ensures
            r.entries().len() == 0,
            distinct_names(r.entries()),
    {
        let r = NamedMap { entries: Vec::new() };
        assert(named_entries(r.entries@) =~= Seq::<(Seq<char>, V)>::empty());
        r
    }

    /// The number of entries.
    pub fn len(&self) -> (r: usize)
        ensures
            r == self.entries().len(),
            distinct_names(self.entries()),
    {
        proof {
            use_type_invariant(self);
        }
        self.entries.len()
    }

    /// The entry at a position.
    pub fn entry_at(&self, i: usize) -> (r: (&String, &V))
        requires
            i < self.entries().len(),
        ensures
            r.0@ == self.entries()[i as int].0,
            *r.1 == self.entries()[i as int].1,
    {
        (&self.entries[i].0, &self.entries[i].1)
    }

    /// The position of a name, if present.
    fn index_of(&self, k: &str) -> (r: Option<usize>)
        ensures
            match first_key_index(self.entries(), k@) {
                Some(i) => r == Some(i as usize),
                None => r is None,
            },
            r matches Some(i) ==> i < self.entries().len() && self.entries()[i as int].0 == k@,
    {
        let ghost es = self.entries();
        proof {
            lemma_first_key_found(es, k@);
        }
        let mut i: usize = 0;
        while i < self.entries.len()
            invariant
                i <= self.entries@.len(),
                es == named_entries(self.entries@),
                first_key_index(es.subrange(0, i as int), k@) is None,
            decreases self.entries@.len() - i,
        {
            assert(es.subrange(0, i + 1).drop_last() =~= es.subrange(0, i as int));
            if str_eq(self.entries[i].0.as_str(), k) {
                proof {
                    assert(es[i as int].0 == k@);
                    assert(first_key_index(es.subrange(0, i + 1), k@) == Some(i as int));
                    lemma_first_key_prefix(es, k@, i + 1);
                }
                return Some(i);
            }
            i = i + 1;
        }
        assert(es.subrange(0, es.len() as int) =~= es);
        None
    }

    /// Insert a value under a name, replacing the value of that name in
    /// place where it is present, else appending.
    pub fn insert(&mut self, k: String, v: V)
        ensures
            final(self).entries() == upsert(old(self).entries(), k@, v),
            distinct_names(old(self).entries()),
            distinct_names(final(self).entries()),
    {
        proof {
            use_type_invariant(&*self);
        }
        let ghost before = self.entries();
        let ghost kv = k@;
        let ghost vv = v;
        proof {
            lemma_upsert_distinct(before, kv, vv);
            lemma_first_key_found(before, kv);
        }
        let found = self.index_of(k.as_str());
        let mut es: Vec<(String, V)> = Vec::new();
        std::mem::swap(&mut es, &mut self.entries);
        match found {
            Some(i) => {
                es.set(i, (k, v));
                assert(named_entries(es@) =~= before.update(i as int, (kv, vv)));
                assert(upsert(before, kv, vv) == before.update(i as int, (kv, vv)));
            },
            None => {
                es.push((k, v));
                assert(named_entries(es@) =~= before.push((kv, vv)));
                assert(upsert(before, kv, vv) == before.push((kv, vv)));
            },
        }
        self.entries = es;
    }

    /// The value under a name.
    pub fn get(&self, k: &str) -> (r: Option<&V>)
        ensures
            match self.get_spec(k@) {
                Some(v) => r == Some(&v),
                None => r is None,
            },
    {
        proof {
            lemma_first_key_found(self.entries(), k@);
        }
        match self.index_of(k) {
            Some(i) => {
                assert(self.entries()[i as int].1 == self.entries@[i as int].1);
                Some(&self.entries[i].1)
            },
            None => None,
        }
    }

    /// Whether a name is present.
    pub fn contains_key(&self, k: &str) -> (r: bool)
        ensures
            r == self.get_spec(k@) is Some,
    {
        self.index_of(k).is_some()
    }

    /// Remove a name and give back its value; the other entries keep
    /// their order.
    pub fn remove(&mut self, k: &str) -> (r: Option<V>)
        ensures
            match first_key_index(old(self).entries(), k@) {
                Some(i) => r == Some(old(self).entries()[i].1) && final(self).entries() == old(self).entries().remove(i),
                None => r is None && final(self).entries() == old(self).entries(),
            },
            final(self).get_spec(k@) is None,
            distinct_names(final(self).entries()),
    {
        proof {
            use_type_invariant(&*self);
            lemma_first_key_found(self.entries(), k@);
        }
        let ghost before = self.entries();
        match self.index_of(k) {
            Some(i) => {
                let mut es: Vec<(String, V)> = Vec::new();
                std::mem::swap(&mut es, &mut self.entries);
                let e = es.remove(i);
                let ghost after = named_entries(es@);
                assert(after =~= before.remove(i as int));
                proof {
                    assert forall|a: int, b: int| 0 <= a < b < after.len() implies #[trigger] after[a].0 != #[trigger] after[b].0 by {
                        let a2 = if a < i { a } else { a + 1 };
                        let b2 = if b < i { b } else { b + 1 };
                        assert(after[a] == before[a2]);
                        assert(after[b] == before[b2]);
                    }
                    lemma_first_key_found(after, k@);
                    if first_key_index(after, k@) is Some {
                        let j = first_key_index(after, k@)->0;
                        let j2 = if j < i { j } else { j + 1 };
                        assert(after[j] == before[j2]);
                    }
                }
                self.entries = es;
                Some(e.1)
            },
            None => None,
        }
    }

    /// The names, in order.
    pub fn names(&self) -> (r: Vec<String>)
        ensures
            r@.map_values(|s: String| s@) == entry_names(self.entries()),
    {
        let mut r: Vec<String> = Vec::new();
        let mut i: usize = 0;
        while i < self.entries.len()
            invariant
                i <= self.entries@.len(),
                r@.map_values(|s: String| s@) == entry_names(self.entries()).take(i as int),
            decreases self.entries@.len() - i,
        {
            let ghost before = r@;
            let name = self.entries[i].0.clone();
            r.push(name);
            assert(entry_names(self.entries())[i as int] == self.entries@[i as int].0@);
            assert(r@ == before.push(self.entries@[i as int].0));
            assert(entry_names(self.entries()).take(i + 1) =~= entry_names(self.entries()).take(i as int).push(
                self.entries@[i as int].0@,
            ));
            assert(r@.map_values(|s: String| s@) =~= entry_names(self.entries()).take(i + 1));
            i = i + 1;
        }
        assert(entry_names(self.entries()).take(i as int) =~= entry_names(self.entries()));
        r
    }
}

impl<V: Clone> Clone for NamedMap<V> {
    /// A copy with the same names in the same order, each value cloned.
    fn clone(&self) -> (r: Self)
        ensures
            entry_names(r.entries()) == entry_names(self.entries()),
    {
        proof {
            use_type_invariant(self);
        }
        let ghost es = self.entries();
        let mut out: Vec<(String, V)> = Vec::new();
        let mut i: usize = 0;
        while i < self.entries.len()
            invariant
                i <= self.entries@.len(),
                es == named_entries(self.entries@),
                distinct_names(es),
                out@.len() == i,
                forall|j: int| 0 <= j < i ==> (#[trigger] out@[j]).0@ == es[j].0,
            decreases self.entries@.len() - i,
        {
            let name = self.entries[i].0.clone();
            let value = self.entries[i].1.clone();
            out.push((name, value));
            i = i + 1;
        }
        let ghost oe = named_entries(out@);
        assert(entry_names(oe) =~= entry_names(es));
        assert forall|a: int, b: int| 0 <= a < b < oe.len() implies #[trigger] oe[a].0 != #[trigger] oe[b].0 by {
            assert(oe[a].0 == es[a].0);
            assert(oe[b].0 == es[b].0);
        }
        NamedMap { entries: out }
    }
}

/// Looking a name up right after inserting it gives the inserted value.
pub proof fn law_get_after_insert<V>(s: Seq<(Seq<char>, V)>, k: Seq<char>, v: V)
    requires
        distinct_names(s),
    ensures
        lookup(upsert(s, k, v), k) == Some(v),
{
    lemma_upsert_distinct(s, k, v);
    lemma_first_key_found(s, k);
    let u = upsert(s, k, v);
    match first_key_index(s, k) {
        Some(i) => {
            lemma_distinct_lookup(u, i);
        },
        None => {
            lemma_distinct_lookup(u, s.len() as int);
        },
    }
}

/// Inserting under one name leaves the value of every other name as it was.
pub proof fn law_insert_keeps_other_names<V>(s: Seq<(Seq<char>, V)>, k: Seq<char>, v: V, other: Seq<char>)
    requires
        distinct_names(s),
        other != k,
    ensures
        lookup(upsert(s, k, v), other) == lookup(s, other),
{
    lemma_upsert_distinct(s, k, v);
    lemma_first_key_found(s, k);
    lemma_first_key_found(s, other);
    let u = upsert(s, k, v);
    match first_key_index(s, other) {
        Some(j) => {
            lemma_distinct_lookup(s, j);
            assert(u[j] == s[j]);
            lemma_distinct_lookup(u, j);
        },
        None => {
            lemma_first_key_found(u, other);
            if first_key_index(u, other) is Some {
                let j = first_key_index(u, other)->0;
                if j < s.len() {
                    assert(u[j].0 == s[j].0);
                }
            }
        },
    }
}

} // verus!

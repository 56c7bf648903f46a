//! In-memory catalogs: maps from names to lambdas and to sandboxes.
//!
//! A catalog is an association list with distinct keys, viewed as a
//! mathematical map from name to value.  Entries keep their insertion
//! order, which the listing endpoints page through.

use vstd::prelude::*;

use crate::lambda_app::LambdaAppKind;
use crate::sandbox::SandboxKind;

verus! {

/// The map described by an association list: later entries win, so a
/// list with distinct keys describes exactly its entries.
pub open spec fn assoc_map<V>(pairs: Seq<(String, V)>) -> Map<Seq<char>, V>
    decreases pairs.len(),
{
    if pairs.len() == 0 {
        Map::<Seq<char>, V>::empty()
    } else {
        assoc_map(pairs.drop_last()).insert(pairs.last().0@, pairs.last().1)
    }
}

/// Whether the keys of an association list are pairwise distinct.
pub open spec fn distinct_keys<V>(pairs: Seq<(String, V)>) -> bool {
    forall|i: int, j: int| 0 <= i < j < pairs.len() ==> pairs[i].0@ != pairs[j].0@
}

/// A key is in the described map exactly when some entry carries it.
proof fn lemma_assoc_contains<V>(pairs: Seq<(String, V)>, k: Seq<char>)
    ensures
        assoc_map(pairs).contains_key(k) <==> exists|i: int|
            0 <= i < pairs.len() && pairs[i].0@ == k,
    decreases pairs.len(),
{
    if pairs.len() == 0 {
    } else {
        lemma_assoc_contains(pairs.drop_last(), k);
        if pairs.last().0@ == k {
            assert(pairs[pairs.len() - 1].0@ == k);
        } else {
            if assoc_map(pairs).contains_key(k) {
                let i = choose|i: int| 0 <= i < pairs.drop_last().len() && pairs.drop_last()[i].0@
                    == k;
                assert(pairs[i].0@ == k);
            }
            if exists|i: int| 0 <= i < pairs.len() && pairs[i].0@ == k {
                let i = choose|i: int| 0 <= i < pairs.len() && pairs[i].0@ == k;
                assert(i < pairs.len() - 1);
                assert(pairs.drop_last()[i].0@ == k);
            }
        }
    }
}

/// With distinct keys, the entry carrying a key gives its value in the
/// described map.
proof fn lemma_assoc_value<V>(pairs: Seq<(String, V)>, i: int)
    requires
        distinct_keys(pairs),
        0 <= i < pairs.len(),
    ensures
        assoc_map(pairs).contains_key(pairs[i].0@),
        assoc_map(pairs)[pairs[i].0@] == pairs[i].1,
    decreases pairs.len(),
{
    if i == pairs.len() - 1 {
    } else {
        assert(distinct_keys(pairs.drop_last()));
        lemma_assoc_value(pairs.drop_last(), i);
        assert(pairs.drop_last()[i] == pairs[i]);
        assert(pairs[i].0@ != pairs.last().0@);
    }
}

/// Replacing the entry that carries a key updates the described map at
/// that key.
proof fn lemma_assoc_update<V>(pairs: Seq<(String, V)>, i: int, p: (String, V))
    requires
        distinct_keys(pairs),
        0 <= i < pairs.len(),
        pairs[i].0@ == p.0@,
    ensures
        assoc_map(pairs.update(i, p)) =~= assoc_map(pairs).insert(p.0@, p.1),
    decreases pairs.len(),
{
    let updated = pairs.update(i, p);
    if i == pairs.len() - 1 {
        assert(updated.drop_last() =~= pairs.drop_last());
        assert(updated.last() == p);
    } else {
        assert(distinct_keys(pairs.drop_last()));
        assert(pairs.drop_last()[i] == pairs[i]);
        lemma_assoc_update(pairs.drop_last(), i, p);
        assert(updated.drop_last() =~= pairs.drop_last().update(i, p));
        assert(updated.last() == pairs.last());
        assert(pairs.last().0@ != p.0@);
    }
}

/// Removing the entry that carries a key removes that key from the
/// described map.
proof fn lemma_assoc_remove<V>(pairs: Seq<(String, V)>, i: int)
    requires
        distinct_keys(pairs),
        0 <= i < pairs.len(),
    ensures
        assoc_map(pairs.remove(i)) =~= assoc_map(pairs).remove(pairs[i].0@),
    decreases pairs.len(),
{
    let k = pairs[i].0@;
    if i == pairs.len() - 1 {
        assert(pairs.remove(i) =~= pairs.drop_last());
        lemma_assoc_contains(pairs.drop_last(), k);
        assert(forall|j: int| 0 <= j < pairs.drop_last().len() ==> pairs.drop_last()[j] == pairs[j]
            && pairs[j].0@ != k);
        assert(!assoc_map(pairs.drop_last()).contains_key(k));
    } else {
        assert(distinct_keys(pairs.drop_last()));
        assert(pairs.drop_last()[i] == pairs[i]);
        lemma_assoc_remove(pairs.drop_last(), i);
        assert(pairs.remove(i).drop_last() =~= pairs.drop_last().remove(i));
        assert(pairs.remove(i).last() == pairs.last());
        assert(pairs.last().0@ != k);
    }
}

/// A catalog: a map from string names to values, holding its entries
/// in insertion order.
pub struct StrMap<V> {
    pairs: Vec<(String, V)>,
}

impl<V> StrMap<V> {
    /// The catalog as a mathematical map from name to value.
    pub closed spec fn view(&self) -> Map<Seq<char>, V> {
        assoc_map(self.pairs@)
    }

    /// The catalog's entries, in insertion order.
    pub closed spec fn spec_entries(&self) -> Seq<(String, V)> {
        self.pairs@
    }

    #[verifier::type_invariant]
    spec fn wf(&self) -> bool {
        distinct_keys(self.pairs@)
    }

    /// An empty catalog.
    pub fn new() -> (r: Self)
        ensures
            r@ == Map::<Seq<char>, V>::empty(),
            r.spec_entries() == Seq::<(String, V)>::empty(),
    {
        let r = StrMap { pairs: Vec::new() };
        proof {
            assert(r.pairs@ =~= Seq::<(String, V)>::empty());
        }
        r
    }

    /// The number of entries.
    pub fn len(&self) -> (n: usize)
        ensures
            n == self.spec_entries().len(),
    {
        self.pairs.len()
    }

    /// Position of the entry carrying a name, if any.
    fn position_of(&self, name: &String) -> (r: Option<usize>)
        ensures
            (match r {
                Some(i) => i < self.spec_entries().len() && self.spec_entries()[i as int].0@
                    == name@,
                None => forall|i: int|
                    0 <= i < self.spec_entries().len() ==> (#[trigger] self.spec_entries()[i]).0@
                        != name@,
            }),
    {
        let mut i: usize = 0;
        while i < self.pairs.len()
            invariant
                i <= self.pairs.len(),
                forall|j: int| 0 <= j < i ==> (#[trigger] self.pairs@[j]).0@ != name@,
            decreases self.pairs.len() - i,
        {
            if self.pairs[i].0 == *name {
                return Some(i);
            }
            i = i + 1;
        }
        None
    }

    /// Look a name up: the value it maps to, if the name is present.
    pub fn get(&self, name: &String) -> (r: Option<&V>)
        ensures
            (match r {
                Some(v) => self@.contains_key(name@) && *v == self@[name@],
                None => !self@.contains_key(name@),
            }),
    {
        proof {
            use_type_invariant(self);
        }
        let pos = self.position_of(name);
        match pos {
            Some(i) => {
                proof {
                    assert(self.pairs@[i as int].0@ == name@);
                    lemma_assoc_value(self.pairs@, i as int);
                    assert(self@[name@] == self.pairs@[i as int].1);
                }
                Some(&self.pairs[i].1)
            },
            None => {
                proof {
                    lemma_assoc_contains(self.pairs@, name@);
                    assert(!self@.contains_key(name@)) by {
                        if self@.contains_key(name@) {
                            let i = choose|i: int|
                                0 <= i < self.pairs@.len() && self.pairs@[i].0@ == name@;
                            assert(self.spec_entries()[i].0@ != name@);
                        }
                    }
                }
                None
            },
        }
    }

    /// Insert a value under a name, replacing what the name mapped to
    /// before.  A present name keeps its place in the entry order; an
    /// absent one is appended.
    pub fn insert(&mut self, name: String, value: V)
        ensures
            final(self)@ =~= old(self)@.insert(name@, value),
            old(self)@.contains_key(name@) ==> exists|i: int|
                0 <= i < old(self).spec_entries().len() && (#[trigger] old(
                    self,
                ).spec_entries()[i]).0@ == name@ && final(self).spec_entries() =~= old(
                    self,
                ).spec_entries().update(i, (name, value)),
            !old(self)@.contains_key(name@) ==> final(self).spec_entries() =~= old(
                self,
            ).spec_entries().push((name, value)),
    {
        proof {
            use_type_invariant(&*self);
        }
        let ghost old_pairs = self.pairs@;
        let pos = self.position_of(&name);
        let mut pairs: Vec<(String, V)> = Vec::new();
        core::mem::swap(&mut pairs, &mut self.pairs);
        match pos {
            Some(i) => {
                proof {
                    lemma_assoc_value(old_pairs, i as int);
                    lemma_assoc_update(old_pairs, i as int, (name, value));
                }
                pairs.set(i, (name, value));
                proof {
                    assert(pairs@ =~= old_pairs.update(i as int, (name, value)));
                    assert(distinct_keys(pairs@));
                }
                self.pairs = pairs;
            },
            None => {
                proof {
                    lemma_assoc_contains(old_pairs, name@);
                }
                pairs.push((name, value));
                proof {
                    assert(pairs@.drop_last() =~= old_pairs);
                    assert(distinct_keys(pairs@));
                }
                self.pairs = pairs;
            },
        }
    }

    /// Remove a name: the value it mapped to, if it was present; the
    /// catalog is unchanged when it was not.
    pub fn remove(&mut self, name: &String) -> (r: Option<V>)
        ensures
            final(self)@ =~= old(self)@.remove(name@),
            r is Some <==> old(self)@.contains_key(name@),
            (match r {
                Some(v) => v == old(self)@[name@] && exists|i: int|
                    0 <= i < old(self).spec_entries().len() && (#[trigger] old(
                        self,
                    ).spec_entries()[i]).0@ == name@ && final(self).spec_entries() =~= old(
                        self,
                    ).spec_entries().remove(i),
                None => *final(self) == *old(self),
            }),
    {
        proof {
            use_type_invariant(&*self);
        }
        let ghost old_pairs = self.pairs@;
        let pos = self.position_of(name);
        match pos {
            Some(i) => {
                proof {
                    lemma_assoc_value(old_pairs, i as int);
                    lemma_assoc_remove(old_pairs, i as int);
                }
                let mut pairs: Vec<(String, V)> = Vec::new();
                core::mem::swap(&mut pairs, &mut self.pairs);
                let entry = pairs.remove(i);
                proof {
                    assert(pairs@ =~= old_pairs.remove(i as int));
                    assert(distinct_keys(pairs@));
                }
                self.pairs = pairs;
                Some(entry.1)
            },
            None => {
                proof {
                    lemma_assoc_contains(old_pairs, name@);
                    assert(!self@.contains_key(name@)) by {
                        if self@.contains_key(name@) {
                            let i = choose|i: int|
                                0 <= i < old_pairs.len() && old_pairs[i].0@ == name@;
                            assert(self.spec_entries()[i].0@ != name@);
                        }
                    }
                    assert(old(self)@ =~= old(self)@.remove(name@));
                }
                None
            },
        }
    }

    /// One page of the catalog's entries, in insertion order: skip
    /// `offset` entries, then take at most `limit`.
    pub fn page<'a>(&'a self, offset: usize, limit: usize) -> (r: Vec<(&'a String, &'a V)>)
        ensures
            r@.len() == (if offset > self.spec_entries().len() {
                0
            } else if limit > self.spec_entries().len() - offset {
                self.spec_entries().len() - offset
            } else {
                limit as int
            }),
            forall|j: int|
                0 <= j < r@.len() ==> (#[trigger] r@[j]).0@ == self.spec_entries()[offset + j].0@
                    && *r@[j].1 == self.spec_entries()[offset + j].1,
    {
        let mut r: Vec<(&'a String, &'a V)> = Vec::new();
        let n = self.pairs.len();
        if offset >= n {
            return r;
        }
        let mut i: usize = offset;
        while i < n && r.len() < limit
            invariant
                offset <= i <= n,
                n == self.pairs.len(),
                r.len() <= limit,
                r@.len() == i - offset,
                forall|j: int|
                    0 <= j < r@.len() ==> (#[trigger] r@[j]).0@ == self.pairs@[offset + j].0@
                        && *r@[j].1 == self.pairs@[offset + j].1,
            decreases n - i,
        {
            r.push((&self.pairs[i].0, &self.pairs[i].1));
            i = i + 1;
        }
        r
    }
}

/// The application state: the catalog of lambdas and the catalog of
/// sandboxes.
pub struct AppState {
    /// Lambdas container.
    pub lambdas: StrMap<LambdaAppKind>,
    /// Sandboxes container.
    pub sandboxs: StrMap<SandboxKind>,
}

impl AppState {
    /// A state with empty catalogs.
    pub fn new() -> (r: Self)
        ensures
            r.lambdas@ == Map::<Seq<char>, LambdaAppKind>::empty(),
            r.sandboxs@ == Map::<Seq<char>, SandboxKind>::empty(),
    {
        AppState { lambdas: StrMap::new(), sandboxs: StrMap::new() }
    }
}

/// Inserting a value and then looking its name up returns that value.
pub proof fn lemma_insert_then_get<V>(before: Map<Seq<char>, V>, name: Seq<char>, value: V)
    ensures
        before.insert(name, value).contains_key(name),
        before.insert(name, value)[name] == value,
{
}

/// Inserting a value, deleting its name, and looking the name up finds
/// nothing.
pub proof fn lemma_insert_delete_get<V>(before: Map<Seq<char>, V>, name: Seq<char>, value: V)
    ensures
        !before.insert(name, value).remove(name).contains_key(name),
{
}

} // verus!

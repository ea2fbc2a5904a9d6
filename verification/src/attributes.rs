//! User attributes: each key holds a list of values.

use crate::text::same;
use vstd::prelude::*;

verus! {

/// What a set of attributes stands for in contracts.
pub type AttributesModel = Map<Seq<char>, Seq<Seq<char>>>;

/// The attributes of a user. No key occurs twice.
#[derive(Debug, PartialEq)]
pub struct Attributes {
    entries: Vec<(String, Vec<String>)>,
}

/// The map that a list of entries spells.
pub open spec fn map_of(entries: Seq<(String, Vec<String>)>) -> AttributesModel
    decreases entries.len(),
{
    if entries.len() == 0 {
        Map::empty()
    } else {
        map_of(entries.drop_last()).insert(entries.last().0@, entries.last().1.deep_view())
    }
}

/// Whether no two entries have the same key.
pub open spec fn keys_differ(entries: Seq<(String, Vec<String>)>) -> bool {
    forall|i: int, j: int|
        0 <= i < j < entries.len() ==> (#[trigger] entries[i]).0@ != (#[trigger] entries[j]).0@
}

proof fn lemma_map_of(entries: Seq<(String, Vec<String>)>)
    requires
        keys_differ(entries),
    ensures
        forall|i: int|
            0 <= i < entries.len() ==> map_of(entries).dom().contains((#[trigger] entries[i]).0@)
                && map_of(entries)[entries[i].0@] == entries[i].1.deep_view(),
        forall|k: Seq<char>| #[trigger]
            map_of(entries).dom().contains(k) ==> exists|i: int|
                0 <= i < entries.len() && (#[trigger] entries[i]).0@ == k,
    decreases entries.len(),
{
    if entries.len() > 0 {
        let front = entries.drop_last();
        lemma_map_of(front);
        assert forall|i: int| 0 <= i < entries.len() implies map_of(entries).dom().contains(
            (#[trigger] entries[i]).0@,
        ) && map_of(entries)[entries[i].0@] == entries[i].1.deep_view() by {
            if i < front.len() {
                assert(front[i] == entries[i]);
                assert(entries[i].0@ != entries[entries.len() - 1].0@);
            }
        }
        assert forall|k: Seq<char>| #[trigger] map_of(entries).dom().contains(k) implies exists|
            i: int,
        |
            0 <= i < entries.len() && (#[trigger] entries[i]).0@ == k by {
            if k == entries.last().0@ {
                assert(entries[entries.len() - 1].0@ == k);
            } else {
                assert(map_of(front).dom().contains(k));
                let i = choose|i: int| 0 <= i < front.len() && (#[trigger] front[i]).0@ == k;
                assert(entries[i] == front[i]);
            }
        }
    }
}

impl DeepView for Attributes {
    type V = AttributesModel;

    closed spec fn deep_view(&self) -> AttributesModel {
        map_of(self.entries@)
    }
}

impl Attributes {
    #[verifier::type_invariant]
    closed spec fn well_formed(self) -> bool {
        keys_differ(self.entries@)
    }

    /// No attributes.
    pub fn new() -> (r: Attributes)
        ensures
            r.deep_view() == AttributesModel::empty(),
    {
        Attributes { entries: Vec::new() }
    }

    /// Whether there are no attributes.
    pub fn is_empty(&self) -> (r: bool)
        ensures
            r == (self.deep_view() == AttributesModel::empty()),
    {
        proof {
            use_type_invariant(&*self);
            lemma_map_of(self.entries@);
        }
        if self.entries.len() == 0 {
            true
        } else {
            assert(self.deep_view().dom().contains(self.entries@[0].0@));
            false
        }
    }

    fn position(&self, key: &str) -> (r: Option<usize>)
        ensures
            match r {
                Some(i) => i < self.entries@.len() && self.entries@[i as int].0@ == key@,
                None => forall|i: int|
                    0 <= i < self.entries@.len() ==> (#[trigger] self.entries@[i]).0@ != key@,
            },
    {
        let mut i: usize = 0;
        while i < self.entries.len()
            invariant
                i <= self.entries@.len(),
                forall|j: int| 0 <= j < i ==> (#[trigger] self.entries@[j]).0@ != key@,
            decreases self.entries@.len() - i,
        {
            if same(self.entries[i].0.as_str(), key) {
                return Some(i);
            }
            i = i + 1;
        }
        None
    }

    /// The values under `key`, if it is there.
    pub fn get(&self, key: &str) -> (r: Option<&Vec<String>>)
        ensures
            match r {
                Some(v) => self.deep_view().dom().contains(key@) && v.deep_view()
                    == self.deep_view()[key@],
                None => !self.deep_view().dom().contains(key@),
            },
    {
        proof {
            use_type_invariant(&*self);
            lemma_map_of(self.entries@);
        }
        match self.position(key) {
            Some(i) => Some(&self.entries[i].1),
            None => None,
        }
    }

    /// Puts `values` under `key`, in the place of what was there.
    pub fn insert(&mut self, key: String, values: Vec<String>)
        ensures
            final(self).deep_view() == old(self).deep_view().insert(key@, values.deep_view()),
    {
        proof {
            use_type_invariant(&*self);
        }
        let mut entries: Vec<(String, Vec<String>)> = Vec::new();
        std::mem::swap(&mut entries, &mut self.entries);
        let ghost before = entries@;
        let ghost model = values.deep_view();
        let mut i: usize = 0;
        while i < entries.len() && !same(entries[i].0.as_str(), key.as_str())
            invariant
                i <= entries@.len(),
                entries@ == before,
                forall|j: int| 0 <= j < i ==> (#[trigger] before[j]).0@ != key@,
            decreases entries@.len() - i,
        {
            i = i + 1;
        }
        proof {
            lemma_map_of(before);
        }
        if i < entries.len() {
            entries[i] = (key, values);
            proof {
                assert forall|a: int, b: int| 0 <= a < b < entries@.len() implies (
                #[trigger] entries@[a]).0@ != (#[trigger] entries@[b]).0@ by {
                    assert(before[a].0@ != before[b].0@);
                }
                lemma_map_of(entries@);
                let now = map_of(entries@);
                let wanted = map_of(before).insert(key@, model);
                assert forall|k: Seq<char>| now.dom().contains(k) == wanted.dom().contains(k) by {
                    if now.dom().contains(k) {
                        let n = choose|n: int|
                            0 <= n < entries@.len() && (#[trigger] entries@[n]).0@ == k;
                        assert(before[n].0@ == k);
                    }
                    if wanted.dom().contains(k) {
                        if k == key@ {
                            assert(entries@[i as int].0@ == k);
                        } else {
                            let n = choose|n: int|
                                0 <= n < before.len() && (#[trigger] before[n]).0@ == k;
                            assert(entries@[n].0@ == k);
                        }
                    }
                }
                assert forall|k: Seq<char>| now.dom().contains(k) implies now[k] == wanted[k] by {
                    let n = choose|n: int|
                        0 <= n < entries@.len() && (#[trigger] entries@[n]).0@ == k;
                    if n != i {
                        assert(before[n] == entries@[n]);
                        assert(before[n].0@ != before[i as int].0@);
                    }
                }
                assert(now =~= wanted);
            }
        } else {
            entries.push((key, values));
            proof {
                assert(entries@.drop_last() =~= before);
                assert forall|a: int, b: int| 0 <= a < b < entries@.len() implies (
                #[trigger] entries@[a]).0@ != (#[trigger] entries@[b]).0@ by {
                    assert(before[a] == entries@[a]);
                    if b < before.len() {
                        assert(before[b] == entries@[b]);
                    }
                }
            }
        }
        self.entries = entries;
    }

    /// Takes over all of `other`, which wins where both have a key.
    pub fn extend(&mut self, other: &Attributes)
        ensures
            final(self).deep_view() == old(self).deep_view().union_prefer_right(other.deep_view()),
    {
        let ghost mine = self.deep_view();
        let mut i: usize = 0;
        assert(other.entries@.take(0) =~= Seq::empty());
        assert(mine.union_prefer_right(map_of(Seq::empty())) =~= mine);
        while i < other.entries.len()
            invariant
                i <= other.entries@.len(),
                self.deep_view() =~= mine.union_prefer_right(
                    map_of(other.entries@.take(i as int)),
                ),
            decreases other.entries@.len() - i,
        {
            let key = other.entries[i].0.clone();
            let values = other.entries[i].1.clone();
            assert(values.deep_view() =~= other.entries@[i as int].1.deep_view());
            assert(other.entries@.take(i + 1).drop_last() =~= other.entries@.take(i as int));
            self.insert(key, values);
            i = i + 1;
        }
        assert(other.entries@.take(i as int) =~= other.entries@);
    }

    /// The number of keys.
    pub fn len(&self) -> (r: usize)
        ensures
            r == self.deep_view().dom().len(),
            self.deep_view().dom().finite(),
    {
        proof {
            use_type_invariant(&*self);
            lemma_len(self.entries@);
        }
        self.entries.len()
    }

    /// The key and the values at a position below the number of keys, in the order in
    /// which the keys came.
    pub fn entry(&self, at: usize) -> (r: Option<(&String, &Vec<String>)>)
        ensures
            (r is Some) == (at < self.deep_view().dom().len()),
            r matches Some((key, values)) ==> self.deep_view().dom().contains(key@)
                && self.deep_view()[key@] == values.deep_view(),
    {
        proof {
            use_type_invariant(&*self);
            lemma_len(self.entries@);
            lemma_map_of(self.entries@);
        }
        if at < self.entries.len() {
            Some((&self.entries[at].0, &self.entries[at].1))
        } else {
            None
        }
    }
}

proof fn lemma_len(entries: Seq<(String, Vec<String>)>)
    requires
        keys_differ(entries),
    ensures
        map_of(entries).dom().finite(),
        map_of(entries).dom().len() == entries.len(),
    decreases entries.len(),
{
    if entries.len() > 0 {
        let front = entries.drop_last();
        lemma_len(front);
        lemma_map_of(front);
        if map_of(front).dom().contains(entries.last().0@) {
            let i = choose|i: int|
                0 <= i < front.len() && (#[trigger] front[i]).0@ == entries.last().0@;
            assert(entries[i].0@ != entries[entries.len() - 1].0@);
        }
    }
}

impl Clone for Attributes {
    fn clone(&self) -> (r: Self)
        ensures
            r.deep_view() == self.deep_view(),
    {
        let mut r = Attributes::new();
        r.extend(self);
        assert(r.deep_view() =~= self.deep_view());
        r
    }
}

/// The first value under `key`, if there is one.
pub open spec fn first_value(attributes: AttributesModel, key: Seq<char>) -> Option<Seq<char>> {
    if attributes.dom().contains(key) && attributes[key].len() > 0 {
        Some(attributes[key][0])
    } else {
        None
    }
}

/// Takes the first value under `key`.
pub fn first_value_of(attributes: &Attributes, key: &str) -> (r: Option<String>)
    ensures
        r.deep_view() == first_value(attributes.deep_view(), key@),
{
    match attributes.get(key) {
        Some(values) => if values.len() > 0 {
            Some(values[0].clone())
        } else {
            None
        },
        None => None,
    }
}

} // verus!

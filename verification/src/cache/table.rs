//! A map from ids to documents: a list of documents, and a concurrent hash map from each id to
//! its place in the list.
use crate::model::id::Id;
use dashmap::DashMap;
use vstd::prelude::*;
use vstd::string::*;

verus! {

/// A `DashMap` from ids to numbers, hidden from the verifier: [`places`] says what it holds.
#[verifier::external_body]
pub struct Places {
    map: DashMap<String, usize>,
}

/// The numbers that a hash map holds, by key.
pub uninterp spec fn places(map: Places) -> Map<Seq<char>, usize>;

/// No numbers at all.
pub open spec fn no_places() -> Map<Seq<char>, usize> {
    Map::empty()
}

/// `DashMap::new`: an empty map.
#[verifier::external_body]
fn places_new() -> (r: Places)
    ensures
        places(r) == no_places(),
{
    Places { map: DashMap::new() }
}

/// `DashMap::get`: the number of a key.
#[verifier::external_body]
fn place_get(map: &Places, key: &str) -> (r: Option<usize>)
    ensures
        r == (if places(*map).dom().contains(key@) {
            Some(places(*map)[key@])
        } else {
            None
        }),
{
    map.map.get(key).map(|entry| *entry.value())
}

/// `DashMap::insert`: sets the number of a key. The map is borrowed as a whole, so that no one
/// else can change it at the same time.
#[verifier::external_body]
fn place_put(map: &mut Places, key: String, place: usize)
    ensures
        places(*final(map)) == places(*old(map)).insert(key@, place),
{
    map.map.insert(key, place);
}

/// `DashMap::remove`: takes a key out.
#[verifier::external_body]
fn place_remove(map: &mut Places, key: &str)
    ensures
        places(*final(map)) == places(*old(map)).remove(key@),
{
    map.map.remove(key);
}

/// `DashMap::clear`: takes every key out.
#[verifier::external_body]
fn places_clear(map: &mut Places)
    ensures
        places(*final(map)) == no_places(),
{
    map.map.clear();
}

/// A map from ids to documents.
#[verifier::reject_recursive_types(M)]
pub struct Table<M, V> {
    index: Places,
    slots: Vec<(Id<M>, V)>,
}

impl<M, V> Table<M, V> {
    /// Whether each id's place in the list holds that id, and every place has one.
    pub closed spec fn wf(&self) -> bool {
        &&& forall|k: Seq<char>| #[trigger]
            places(self.index).dom().contains(k) ==> places(self.index)[k] < self.slots@.len()
                && self.slots@[places(self.index)[k] as int].0@ == k
        &&& forall|i: int|
            0 <= i < self.slots@.len() ==> places(self.index).dom().contains(
                (#[trigger] self.slots@[i]).0@,
            ) && places(self.index)[self.slots@[i].0@] == i
    }

    /// The documents, by id.
    pub closed spec fn view(&self) -> Map<Seq<char>, V> {
        Map::new(
            |k: Seq<char>| places(self.index).dom().contains(k),
            |k: Seq<char>| self.slots@[places(self.index)[k] as int].1,
        )
    }

    /// An empty table.
    pub fn new() -> (r: Table<M, V>)
        ensures
            r.wf(),
            r.view() == Map::<Seq<char>, V>::empty(),
    {
        let table = Table { index: places_new(), slots: Vec::new() };
        proof {
            assert(table.view() =~= Map::<Seq<char>, V>::empty());
        }
        table
    }

    proof fn lemma_len(&self)
        requires
            self.wf(),
        ensures
            self.view().dom().finite(),
            self.view().dom().len() == self.slots@.len(),
    {
        let keys = Seq::new(self.slots@.len(), |i: int| self.slots@[i].0@);
        assert(keys.no_duplicates()) by {
            assert forall|i: int, j: int|
                0 <= i < keys.len() && 0 <= j < keys.len() && i != j implies keys[i]
                != keys[j] by {
                assert(places(self.index)[self.slots@[i].0@] == i);
                assert(places(self.index)[self.slots@[j].0@] == j);
            }
        }
        keys.unique_seq_to_set();
        assert(self.view().dom() =~= keys.to_set()) by {
            assert forall|k: Seq<char>|
                self.view().dom().contains(k) == keys.to_set().contains(k) by {
                if self.view().dom().contains(k) {
                    let i = places(self.index)[k] as int;
                    assert(self.slots@[i].0@ == k);
                    assert(keys[i] == k);
                }
                if keys.to_set().contains(k) {
                    let i = choose|i: int| 0 <= i < keys.len() && keys[i] == k;
                    assert(self.slots@[i].0@ == k);
                }
            }
        }
    }

    /// How many documents there are.
    pub fn len(&self) -> (r: usize)
        requires
            self.wf(),
        ensures
            r == self.view().dom().len(),
            self.view().dom().finite(),
    {
        proof {
            self.lemma_len();
        }
        self.slots.len()
    }

    /// The document with an id, and the id.
    pub fn entry(&self, key: &str) -> (r: Option<(&Id<M>, &V)>)
        requires
            self.wf(),
        ensures
            match r {
                Some((id, v)) => self.view().dom().contains(key@) && self.view()[key@] == *v && id@
                    == key@,
                None => !self.view().dom().contains(key@),
            },
    {
        match place_get(&self.index, key) {
            Some(i) => Some((&self.slots[i].0, &self.slots[i].1)),
            None => None,
        }
    }

    /// The document with an id.
    pub fn get(&self, key: &str) -> (r: Option<&V>)
        requires
            self.wf(),
        ensures
            match r {
                Some(v) => self.view().dom().contains(key@) && self.view()[key@] == *v,
                None => !self.view().dom().contains(key@),
            },
    {
        match self.entry(key) {
            Some((_, v)) => Some(v),
            None => None,
        }
    }

    /// Sets the document of an id, handing back an earlier one.
    pub fn insert(&mut self, id: Id<M>, value: V) -> (r: Option<V>)
        requires
            old(self).wf(),
        ensures
            final(self).wf(),
            final(self).view() == old(self).view().insert(id@, value),
            match r {
                Some(v) => old(self).view().dom().contains(id@) && old(self).view()[id@] == v,
                None => !old(self).view().dom().contains(id@),
            },
    {
        let ghost key = id@;
        match place_get(&self.index, id.as_str()) {
            Some(i) => {
                let ghost was = self.slots@;
                self.slots.push((id, value));
                let earlier = self.slots.swap_remove(i);
                proof {
                    assert(self.slots@ =~= was.update(i as int, (id, value)));
                    assert(self.view() =~= old(self).view().insert(key, value)) by {
                        assert forall|k: Seq<char>| #[trigger]
                            self.view().dom().contains(k) implies self.view()[k] == old(
                            self,
                        ).view().insert(key, value)[k] by {
                            if k != key {
                                assert(places(self.index)[k] != i);
                            }
                        }
                    }
                }
                Some(earlier.1)
            },
            None => {
                let place: usize = self.slots.len();
                place_put(&mut self.index, id.as_str().to_owned(), place);
                self.slots.push((id, value));
                proof {
                    assert(self.view() =~= old(self).view().insert(key, value));
                }
                None
            },
        }
    }

    /// Takes an id out, handing back its document.
    pub fn remove(&mut self, key: &str) -> (r: Option<V>)
        requires
            old(self).wf(),
        ensures
            final(self).wf(),
            final(self).view() == old(self).view().remove(key@),
            match r {
                Some(v) => old(self).view().dom().contains(key@) && old(self).view()[key@] == v,
                None => !old(self).view().dom().contains(key@),
            },
    {
        match place_get(&self.index, key) {
            Some(i) => {
                let ghost was = self.slots@;
                let ghost before = places(self.index);
                let last: usize = self.slots.len() - 1;
                place_remove(&mut self.index, key);
                if i != last {
                    let moved = self.slots[last].0.as_str().to_owned();
                    place_put(&mut self.index, moved, i);
                }
                let entry = self.slots.swap_remove(i);
                proof {
                    let now = places(self.index);
                    assert(before[was[last as int].0@] == last);
                    assert forall|k: Seq<char>| #[trigger] now.dom().contains(k) implies now[k]
                        < self.slots@.len() && self.slots@[now[k] as int].0@ == k by {
                        assert(before.dom().contains(k));
                        if k != was[last as int].0@ {
                            assert(before[k] != last);
                        }
                    }
                    assert forall|j: int| 0 <= j < self.slots@.len() implies now.dom().contains(
                        (#[trigger] self.slots@[j]).0@,
                    ) && now[self.slots@[j].0@] == j by {
                        if j == i {
                            assert(self.slots@[j] == was[last as int]);
                        } else {
                            assert(self.slots@[j] == was[j]);
                            assert(before[was[j].0@] == j);
                        }
                    }
                    assert(self.view() =~= old(self).view().remove(key@)) by {
                        assert forall|k: Seq<char>| #[trigger]
                            self.view().dom().contains(k) implies self.view()[k] == old(
                            self,
                        ).view()[k] by {
                            assert(before.dom().contains(k));
                            if k != was[last as int].0@ {
                                assert(before[k] != last);
                                assert(before[k] != i);
                            }
                        }
                        assert(self.view().dom() =~= old(self).view().remove(key@).dom());
                    }
                }
                Some(entry.1)
            },
            None => {
                proof {
                    assert(self.view() =~= old(self).view().remove(key@));
                }
                None
            },
        }
    }

    /// Takes everything out.
    pub fn clear(&mut self)
        ensures
            final(self).wf(),
            final(self).view() == Map::<Seq<char>, V>::empty(),
    {
        places_clear(&mut self.index);
        self.slots.clear();
        proof {
            assert(self.view() =~= Map::<Seq<char>, V>::empty());
        }
    }

    /// Every id, each once.
    pub fn ids(&self) -> (r: Vec<Id<M>>)
        requires
            self.wf(),
        ensures
            r@.len() == self.view().dom().len(),
            forall|i: int, j: int| 0 <= i < j < r@.len() ==> (#[trigger] r@[i])@ != (
            #[trigger] r@[j])@,
            forall|i: int| 0 <= i < r@.len() ==> self.view().dom().contains((#[trigger] r@[i])@),
            forall|k: Seq<char>| #[trigger]
                self.view().dom().contains(k) ==> exists|i: int|
                    0 <= i < r@.len() && (#[trigger] r@[i])@ == k,
    {
        let mut out: Vec<Id<M>> = Vec::new();
        let mut i: usize = 0;
        while i < self.slots.len()
            invariant
                i <= self.slots@.len(),
                out@.len() == i,
                forall|k: int| 0 <= k < i ==> (#[trigger] out@[k])@ == self.slots@[k].0@,
            decreases self.slots@.len() - i,
        {
            out.push(self.slots[i].0.clone());
            i += 1;
        }
        proof {
            self.lemma_len();
            assert forall|a: int, b: int| 0 <= a < b < out@.len() implies (#[trigger] out@[a])@ != (
            #[trigger] out@[b])@ by {
                assert(places(self.index)[self.slots@[a].0@] == a);
                assert(places(self.index)[self.slots@[b].0@] == b);
            }
            assert forall|a: int| 0 <= a < out@.len() implies self.view().dom().contains(
                (#[trigger] out@[a])@,
            ) by {
                assert(places(self.index).dom().contains(self.slots@[a].0@));
            }
            assert forall|k: Seq<char>| #[trigger] self.view().dom().contains(k) implies exists|
                a: int,
            | 0 <= a < out@.len() && (#[trigger] out@[a])@ == k by {
                let a = places(self.index)[k] as int;
                assert(out@[a]@ == self.slots@[a].0@);
            }
        }
        out
    }
}

} // verus!

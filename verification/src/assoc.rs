//! A map from strings to values that is walked in the order of its keys.
use crate::text::chars_of;
use vstd::prelude::*;
use vstd::string::*;

verus! {

/// Whether one text comes before another: by the first character in which they differ, and a
/// text comes before its continuations.
pub open spec fn before(a: Seq<char>, b: Seq<char>) -> bool
    decreases b.len(),
{
    if b.len() == 0 {
        false
    } else if a.len() == 0 {
        true
    } else if a[0] != b[0] {
        a[0] < b[0]
    } else {
        before(a.subrange(1, a.len() as int), b.subrange(1, b.len() as int))
    }
}

/// No text comes before itself.
pub proof fn lemma_before_irreflexive(a: Seq<char>)
    ensures
        !before(a, a),
    decreases a.len(),
{
    if a.len() > 0 {
        lemma_before_irreflexive(a.subrange(1, a.len() as int));
    }
}

/// No text comes before itself, and of two different texts exactly one comes first.
pub proof fn lemma_before_total(a: Seq<char>, b: Seq<char>)
    ensures
        before(a, b) ==> a != b && !before(b, a),
        a != b ==> before(a, b) || before(b, a),
        !before(a, a),
    decreases a.len() + b.len(),
{
    if a.len() > 0 && b.len() > 0 && a[0] == b[0] {
        let x = a.subrange(1, a.len() as int);
        let y = b.subrange(1, b.len() as int);
        lemma_before_total(x, y);
        if x == y {
            assert(a =~= seq![a[0]] + x);
            assert(b =~= seq![b[0]] + y);
        }
    }
    lemma_before_irreflexive(a);
    if a.len() == 0 && b.len() == 0 {
        assert(a =~= b);
    }
}

/// The order is transitive.
pub proof fn lemma_before_transitive(a: Seq<char>, b: Seq<char>, c: Seq<char>)
    requires
        before(a, b),
        before(b, c),
    ensures
        before(a, c),
    decreases a.len(),
{
    if a.len() > 0 && a[0] == b[0] && b[0] == c[0] {
        lemma_before_transitive(
            a.subrange(1, a.len() as int),
            b.subrange(1, b.len() as int),
            c.subrange(1, c.len() as int),
        );
    }
}

/// Whether one text comes before another.
pub(crate) fn comes_before(a: &str, b: &str) -> (r: bool)
    ensures
        r == before(a@, b@),
{
    let x = chars_of(a);
    let y = chars_of(b);
    let mut i: usize = 0;
    proof {
        assert(a@.subrange(0, a@.len() as int) =~= a@);
        assert(b@.subrange(0, b@.len() as int) =~= b@);
    }
    loop
        invariant
            x@ == a@,
            y@ == b@,
            i <= a@.len(),
            i <= b@.len(),
            before(a@, b@) == before(
                a@.subrange(i as int, a@.len() as int),
                b@.subrange(i as int, b@.len() as int),
            ),
        decreases a@.len() - i,
    {
        if i == y.len() {
            return false;
        }
        if i == x.len() {
            return true;
        }
        if x[i] != y[i] {
            return x[i] < y[i];
        }
        proof {
            let p = a@.subrange(i as int, a@.len() as int);
            let q = b@.subrange(i as int, b@.len() as int);
            assert(p.subrange(1, p.len() as int) =~= a@.subrange(i + 1, a@.len() as int));
            assert(q.subrange(1, q.len() as int) =~= b@.subrange(i + 1, b@.len() as int));
        }
        i += 1;
    }
}

/// A map from strings to values.
#[derive(Debug)]
pub struct Assoc<V> {
    entries: Vec<(String, V)>,
}

/// Whether the keys of a list of entries ascend.
pub open spec fn ascending<V>(entries: Seq<(String, V)>) -> bool {
    forall|i: int, j: int|
        0 <= i < j < entries.len() ==> before(
            (#[trigger] entries[i]).0@,
            (#[trigger] entries[j]).0@,
        )
}

/// The map that a list of entries is.
pub open spec fn as_map<V>(entries: Seq<(String, V)>) -> Map<Seq<char>, V>
    decreases entries.len(),
{
    if entries.len() == 0 {
        Map::empty()
    } else {
        as_map(entries.drop_last()).insert(entries.last().0@, entries.last().1)
    }
}

/// A key of the map is the key of an entry.
pub proof fn lemma_as_map_has<V>(entries: Seq<(String, V)>, key: Seq<char>)
    requires
        as_map(entries).dom().contains(key),
    ensures
        exists|i: int|
            0 <= i < entries.len() && (#[trigger] entries[i]).0@ == key && as_map(entries)[key]
                == entries[i].1,
    decreases entries.len(),
{
    if entries.len() > 0 {
        if entries.last().0@ == key {
            assert(entries[entries.len() - 1].0@ == key);
        } else {
            lemma_as_map_has(entries.drop_last(), key);
            let i = choose|i: int|
                0 <= i < entries.len() - 1 && (#[trigger] entries.drop_last()[i]).0@ == key
                    && as_map(entries.drop_last())[key] == entries.drop_last()[i].1;
            assert(entries[i] == entries.drop_last()[i]);
        }
    }
}

/// Where the keys ascend, each entry gives the value of its key.
pub proof fn lemma_as_map_at<V>(entries: Seq<(String, V)>, i: int)
    requires
        ascending(entries),
        0 <= i < entries.len(),
    ensures
        as_map(entries).dom().contains(entries[i].0@),
        as_map(entries)[entries[i].0@] == entries[i].1,
    decreases entries.len(),
{
    if i < entries.len() - 1 {
        let last = entries[entries.len() - 1];
        assert(entries.last() == last);
        assert(before(entries[i].0@, last.0@));
        lemma_before_total(entries[i].0@, last.0@);
        lemma_as_map_at(entries.drop_last(), i);
        assert(entries.drop_last()[i] == entries[i]);
    }
}

/// The map has as many keys as there are entries.
pub proof fn lemma_as_map_len<V>(entries: Seq<(String, V)>)
    requires
        ascending(entries),
    ensures
        as_map(entries).dom().finite(),
        as_map(entries).dom().len() == entries.len(),
    decreases entries.len(),
{
    if entries.len() > 0 {
        let rest = entries.drop_last();
        lemma_as_map_len(rest);
        let key = entries.last().0@;
        if as_map(rest).dom().contains(key) {
            lemma_as_map_has(rest, key);
            let i = choose|i: int|
                0 <= i < rest.len() && (#[trigger] rest[i]).0@ == key && as_map(rest)[key]
                    == rest[i].1;
            assert(rest[i] == entries[i]);
            assert(entries[entries.len() - 1] == entries.last());
            assert(before(entries[i].0@, entries[entries.len() - 1].0@));
            lemma_before_total(key, key);
        }
    }
}

impl<V> Assoc<V> {
    /// Whether the keys ascend.
    pub closed spec fn wf(&self) -> bool {
        ascending(self.entries@)
    }

    /// The entries, in the order of their keys.
    pub closed spec fn listed(&self) -> Seq<(String, V)> {
        self.entries@
    }

    /// The map.
    pub open spec fn view(&self) -> Map<Seq<char>, V> {
        as_map(self.listed())
    }

    /// The map's entries ascend, and each gives the value of its key.
    pub proof fn lemma_listed(&self)
        requires
            self.wf(),
        ensures
            ascending(self.listed()),
            self.view().dom().finite(),
            self.view().dom().len() == self.listed().len(),
            forall|i: int|
                0 <= i < self.listed().len() ==> self.view().dom().contains(
                    (#[trigger] self.listed()[i]).0@,
                ) && self.view()[self.listed()[i].0@] == self.listed()[i].1,
            forall|k: Seq<char>| #[trigger]
                self.view().dom().contains(k) ==> exists|i: int|
                    0 <= i < self.listed().len() && (#[trigger] self.listed()[i]).0@ == k,
    {
        lemma_as_map_len(self.listed());
        assert forall|i: int| 0 <= i < self.listed().len() implies self.view().dom().contains(
            (#[trigger] self.listed()[i]).0@,
        ) && self.view()[self.listed()[i].0@] == self.listed()[i].1 by {
            lemma_as_map_at(self.listed(), i);
        }
        assert forall|k: Seq<char>| #[trigger] self.view().dom().contains(k) implies exists|i: int|
            0 <= i < self.listed().len() && (#[trigger] self.listed()[i]).0@ == k by {
            lemma_as_map_has(self.listed(), k);
        }
    }

    /// An empty map.
    pub fn new() -> (r: Assoc<V>)
        ensures
            r.wf(),
            r.view() == Map::<Seq<char>, V>::empty(),
            r.listed().len() == 0,
    {
        Assoc { entries: Vec::new() }
    }

    /// How many keys there are.
    pub fn len(&self) -> (r: usize)
        requires
            self.wf(),
        ensures
            r == self.view().dom().len(),
            r == self.listed().len(),
            self.view().dom().finite(),
    {
        proof {
            lemma_as_map_len(self.listed());
        }
        self.entries.len()
    }

    /// The entry at a position, in the order of the keys.
    pub fn at(&self, i: usize) -> (r: (&String, &V))
        requires
            i < self.listed().len(),
        ensures
            *r.0 == self.listed()[i as int].0,
            *r.1 == self.listed()[i as int].1,
    {
        (&self.entries[i].0, &self.entries[i].1)
    }

    /// The position of a key, or where it would be inserted.
    fn find(&self, key: &str) -> (r: (usize, bool))
        requires
            self.wf(),
        ensures
            r.0 <= self.entries@.len(),
            r.1 == self.view().dom().contains(key@),
            r.1 ==> r.0 < self.entries@.len() && self.entries@[r.0 as int].0@ == key@,
            forall|i: int| 0 <= i < r.0 ==> before((#[trigger] self.entries@[i]).0@, key@),
            forall|i: int|
                r.0 <= i < self.entries@.len() ==> (r.1 && i == r.0) || before(
                    key@,
                    (#[trigger] self.entries@[i]).0@,
                ),
    {
        let mut i: usize = 0;
        while i < self.entries.len()
            invariant
                self.wf(),
                i <= self.entries@.len(),
                forall|k: int| 0 <= k < i ==> before((#[trigger] self.entries@[k]).0@, key@),
            decreases self.entries@.len() - i,
        {
            if !comes_before(self.entries[i].0.as_str(), key) {
                let same = !comes_before(key, self.entries[i].0.as_str());
                proof {
                    let here = self.entries@[i as int].0@;
                    lemma_before_total(here, key@);
                    assert forall|k: int| i < k < self.entries@.len() implies before(
                        key@,
                        (#[trigger] self.entries@[k]).0@,
                    ) by {
                        assert(before(here, self.entries@[k].0@));
                        if !same {
                            lemma_before_transitive(key@, here, self.entries@[k].0@);
                        }
                    }
                    if same {
                        lemma_as_map_at(self.entries@, i as int);
                    } else if self.view().dom().contains(key@) {
                        lemma_as_map_has(self.entries@, key@);
                        let k = choose|k: int|
                            0 <= k < self.entries@.len() && (#[trigger] self.entries@[k]).0@ == key@
                                && as_map(self.entries@)[key@] == self.entries@[k].1;
                        lemma_before_total(key@, key@);
                    }
                }
                return (i, same);
            }
            i += 1;
        }
        proof {
            if self.view().dom().contains(key@) {
                lemma_as_map_has(self.entries@, key@);
                let k = choose|k: int|
                    0 <= k < self.entries@.len() && (#[trigger] self.entries@[k]).0@ == key@
                        && as_map(self.entries@)[key@] == self.entries@[k].1;
                lemma_before_total(key@, key@);
            }
        }
        (i, false)
    }

    /// The value of a key.
    pub fn get(&self, key: &str) -> (r: Option<&V>)
        requires
            self.wf(),
        ensures
            match r {
                Some(v) => self.view().dom().contains(key@) && self.view()[key@] == *v,
                None => !self.view().dom().contains(key@),
            },
    {
        let (i, found) = self.find(key);
        if found {
            proof {
                lemma_as_map_at(self.entries@, i as int);
            }
            Some(&self.entries[i].1)
        } else {
            None
        }
    }

    /// Sets the value of a key, handing back an earlier one.
    pub fn insert(&mut self, key: String, value: V) -> (r: Option<V>)
        requires
            old(self).wf(),
        ensures
            final(self).wf(),
            final(self).view() == old(self).view().insert(key@, value),
            match r {
                Some(v) => old(self).view().dom().contains(key@) && old(self).view()[key@] == v,
                None => !old(self).view().dom().contains(key@),
            },
    {
        let (i, found) = self.find(key.as_str());
        let ghost was = self.entries@;
        if found {
            proof {
                lemma_as_map_at(self.entries@, i as int);
            }
            self.entries.push((key, value));
            let earlier = self.entries.swap_remove(i);
            proof {
                assert(self.entries@ =~= was.update(i as int, (key, value)));
                lemma_update(was, i as int, (key, value));
            }
            Some(earlier.1)
        } else {
            self.entries.insert(i, (key, value));
            proof {
                lemma_insert(was, i as int, (key, value));
            }
            None
        }
    }

    /// Takes a key out, handing back its value.
    pub fn remove(&mut self, key: &str) -> (r: Option<V>)
        requires
            old(self).wf(),
        ensures
            final(self).wf(),
            final(self).view() == old(self).view().remove(key@),
            match r {
                Some(v) => old(self).view().dom().contains(key@) && old(self).view()[key@] == v,
                None => !old(self).view().dom().contains(key@),
            },
    {
        let (i, found) = self.find(key);
        let ghost was = self.entries@;
        if found {
            proof {
                lemma_as_map_at(self.entries@, i as int);
            }
            let entry = self.entries.remove(i);
            proof {
                lemma_remove(was, i as int);
            }
            Some(entry.1)
        } else {
            proof {
                assert(self.view().remove(key@) =~= self.view());
            }
            None
        }
    }

    /// Takes the last entry out.
    pub fn pop(&mut self) -> (r: Option<(String, V)>)
        requires
            old(self).wf(),
        ensures
            final(self).wf(),
            match r {
                Some(entry) => old(self).listed().len() > 0 && entry == old(self).listed().last()
                    && final(self).listed() == old(self).listed().drop_last()
                    && old(self).view() == final(self).view().insert(entry.0@, entry.1)
                    && !final(self).view().dom().contains(entry.0@),
                None => old(self).listed().len() == 0 && final(self).listed() == old(self).listed(),
            },
    {
        let entry = self.entries.pop();
        proof {
            if entry is Some {
                let was = old(self).entries@;
                let key = was.last().0@;
                assert(self.entries@ =~= was.drop_last());
                if as_map(self.entries@).dom().contains(key) {
                    lemma_as_map_has(self.entries@, key);
                    let i = choose|i: int|
                        0 <= i < self.entries@.len() && (#[trigger] self.entries@[i]).0@ == key
                            && as_map(self.entries@)[key] == self.entries@[i].1;
                    assert(was[i] == self.entries@[i]);
                    assert(before(was[i].0@, was[was.len() - 1].0@));
                    lemma_before_irreflexive(key);
                }
            }
        }
        entry
    }
}

proof fn lemma_update<V>(entries: Seq<(String, V)>, i: int, entry: (String, V))
    requires
        ascending(entries),
        0 <= i < entries.len(),
        entries[i].0@ == entry.0@,
    ensures
        ascending(entries.update(i, entry)),
        as_map(entries.update(i, entry)) == as_map(entries).insert(entry.0@, entry.1),
    decreases entries.len(),
{
    let new = entries.update(i, entry);
    assert forall|a: int, b: int| 0 <= a < b < new.len() implies before(
        (#[trigger] new[a]).0@,
        (#[trigger] new[b]).0@,
    ) by {
        assert(before(entries[a].0@, entries[b].0@));
    }
    let rest = entries.drop_last();
    if i == entries.len() - 1 {
        assert(new.drop_last() =~= rest);
        assert(as_map(new) =~= as_map(entries).insert(entry.0@, entry.1));
    } else {
        assert(new.drop_last() =~= rest.update(i, entry));
        assert(rest[i] == entries[i]);
        lemma_update(rest, i, entry);
        assert(entries[entries.len() - 1] == entries.last());
        assert(before(entries[i].0@, entries[entries.len() - 1].0@));
        lemma_before_total(entries[i].0@, entries.last().0@);
        assert(new.last() == entries.last());
        assert(as_map(new) =~= as_map(entries).insert(entry.0@, entry.1));
    }
}

proof fn lemma_insert<V>(entries: Seq<(String, V)>, i: int, entry: (String, V))
    requires
        ascending(entries),
        0 <= i <= entries.len(),
        forall|k: int| 0 <= k < i ==> before((#[trigger] entries[k]).0@, entry.0@),
        forall|k: int| i <= k < entries.len() ==> before(entry.0@, (#[trigger] entries[k]).0@),
    ensures
        ascending(entries.insert(i, entry)),
        as_map(entries.insert(i, entry)) == as_map(entries).insert(entry.0@, entry.1),
    decreases entries.len(),
{
    let new = entries.insert(i, entry);
    assert forall|a: int, b: int| 0 <= a < b < new.len() implies before(
        (#[trigger] new[a]).0@,
        (#[trigger] new[b]).0@,
    ) by {
        let x = if a < i {
            a
        } else {
            a - 1
        };
        let y = if b < i {
            b
        } else {
            b - 1
        };
        if a != i && b != i {
            assert(before(entries[x].0@, entries[y].0@));
        } else if a == i {
            assert(before(entry.0@, entries[y].0@));
        } else {
            assert(before(entries[x].0@, entry.0@));
        }
    }
    if i == entries.len() {
        assert(new.drop_last() =~= entries);
    } else {
        let rest = entries.drop_last();
        assert(new.drop_last() =~= rest.insert(i, entry));
        assert forall|k: int| 0 <= k < i implies before((#[trigger] rest[k]).0@, entry.0@) by {
            assert(rest[k] == entries[k]);
        }
        assert forall|k: int| i <= k < rest.len() implies before(
            entry.0@,
            (#[trigger] rest[k]).0@,
        ) by {
            assert(rest[k] == entries[k]);
        }
        lemma_insert(rest, i, entry);
        assert(new.last() == entries.last());
        assert(entries[entries.len() - 1] == entries.last());
        lemma_before_total(entry.0@, entries.last().0@);
        assert(as_map(new) =~= as_map(entries).insert(entry.0@, entry.1));
    }
}

proof fn lemma_remove<V>(entries: Seq<(String, V)>, i: int)
    requires
        ascending(entries),
        0 <= i < entries.len(),
    ensures
        ascending(entries.remove(i)),
        as_map(entries.remove(i)) == as_map(entries).remove(entries[i].0@),
    decreases entries.len(),
{
    let new = entries.remove(i);
    assert forall|a: int, b: int| 0 <= a < b < new.len() implies before(
        (#[trigger] new[a]).0@,
        (#[trigger] new[b]).0@,
    ) by {
        let x = if a < i {
            a
        } else {
            a + 1
        };
        let y = if b < i {
            b
        } else {
            b + 1
        };
        assert(before(entries[x].0@, entries[y].0@));
    }
    let rest = entries.drop_last();
    let key = entries[i].0@;
    if i == entries.len() - 1 {
        assert(new =~= rest);
        if as_map(rest).dom().contains(key) {
            lemma_as_map_has(rest, key);
            let k = choose|k: int|
                0 <= k < rest.len() && (#[trigger] rest[k]).0@ == key && as_map(rest)[key]
                    == rest[k].1;
            assert(before(entries[k].0@, entries[i].0@));
            lemma_before_total(key, key);
        }
        assert(as_map(new) =~= as_map(entries).remove(key));
    } else {
        assert(new.drop_last() =~= rest.remove(i));
        assert(rest[i] == entries[i]);
        lemma_remove(rest, i);
        assert(new.last() == entries.last());
        assert(entries[entries.len() - 1] == entries.last());
        assert(before(entries[i].0@, entries[entries.len() - 1].0@));
        lemma_before_total(key, entries.last().0@);
        assert(as_map(new) =~= as_map(entries).remove(key));
    }
}

/// Names are ordered as in a dictionary: at the first character in which they differ, and a name
/// comes before every longer one that it begins.
pub proof fn law_names_are_ordered_as_in_a_dictionary(
    front: Seq<char>,
    a: Seq<char>,
    b: Seq<char>,
    c: char,
    d: char,
)
    requires
        c < d,
    ensures
        before(front, front + seq![c] + a),
        !before(front + seq![c] + a, front),
        before(front + seq![c] + a, front + seq![d] + b),
        !before(front + seq![d] + b, front + seq![c] + a),
        !before(front, front),
    decreases front.len(),
{
    let x = front + seq![c] + a;
    let y = front + seq![d] + b;
    if front.len() == 0 {
        assert(x[0] == c);
        assert(y[0] == d);
    } else {
        let rest = front.subrange(1, front.len() as int);
        law_names_are_ordered_as_in_a_dictionary(rest, a, b, c, d);
        assert(x.subrange(1, x.len() as int) =~= rest + seq![c] + a);
        assert(y.subrange(1, y.len() as int) =~= rest + seq![d] + b);
        assert(x[0] == front[0]);
        assert(y[0] == front[0]);
    }
}

/// A name stands for the value that was entered with it last, and for none without an entry.
pub proof fn law_a_name_stands_for_its_last_entry<V>(
    entries: Seq<(String, V)>,
    name: String,
    value: V,
    other: Seq<char>,
)
    ensures
        as_map(entries.push((name, value))).dom().contains(name@),
        as_map(entries.push((name, value)))[name@] == value,
        other != name@ ==> (as_map(entries.push((name, value))).dom().contains(other)
            <==> as_map(entries).dom().contains(other)),
        other != name@ && as_map(entries).dom().contains(other) ==> as_map(
            entries.push((name, value)),
        )[other] == as_map(entries)[other],
        !as_map(Seq::<(String, V)>::empty()).dom().contains(other),
{
    assert(entries.push((name, value)).drop_last() =~= entries);
}

} // verus!

//! The subscription registry and the routing of stream events.
//!
//! Subscriptions do not survive a reconnect: the server remembers nothing, and a client that
//! does not issue them again goes silent while looking connected. So the registry remembers
//! each subscription as intent, apart from whether it is established.
//!
//! Events name a stream and an event, never a subscription, so they are routed by those.
use crate::assoc::{before, Assoc};
use crate::lists::{lemma_push_contains, lemma_without, lemma_without_distinct, texts, without};
use crate::model::json::{array_view, dup_list, Json};
use crate::text::{concat, str_eq};
use vstd::prelude::*;
use vstd::string::*;

verus! {

/// What a subscription is for: a stream and an event within it.
#[derive(Debug, Clone, PartialEq, Eq, Hash, PartialOrd, Ord)]
pub struct StreamKey {
    /// The stream, without the collection prefix.
    pub stream: String,
    /// The event.
    pub event: String,
}

impl View for StreamKey {
    type V = (Seq<char>, Seq<char>);

    open spec fn view(&self) -> (Seq<char>, Seq<char>) {
        (self.stream@, self.event@)
    }
}

impl StreamKey {
    /// Builds a key.
    pub fn new(stream: &str, event: &str) -> (r: StreamKey)
        ensures
            r@ == (stream@, event@),
    {
        StreamKey { stream: stream.to_owned(), event: event.to_owned() }
    }

    /// The publication to subscribe to: the stream with its collection prefix.
    pub fn publication(&self) -> (r: String)
        ensures
            r@ == "stream-"@ + self.stream@,
    {
        concat("stream-", self.stream.as_str())
    }

    /// A copy.
    pub fn dup(&self) -> (r: StreamKey)
        ensures
            r@ == self@,
    {
        StreamKey { stream: self.stream.clone(), event: self.event.clone() }
    }

    /// Whether two keys are the same.
    pub fn same(&self, other: &StreamKey) -> (r: bool)
        ensures
            r == (self@ == other@),
    {
        str_eq(self.stream.as_str(), other.stream.as_str()) && str_eq(
            self.event.as_str(),
            other.event.as_str(),
        )
    }
}

/// Whether a remembered subscription is established.
#[derive(Debug, Clone, Copy, PartialEq, Eq, Structural)]
pub enum SubState {
    /// The request was sent; no answer yet.
    Pending,
    /// The server acknowledged it.
    Ready,
    /// Remembered, but not established.
    Inactive,
}

/// One remembered subscription.
#[derive(Debug)]
pub struct Remembered {
    /// What it is for.
    pub key: StreamKey,
    /// What it was requested with.
    pub params: Vec<Json>,
    /// Whether it is established.
    pub state: SubState,
}

/// The subscriptions to one key, in the order in which they were made.
#[derive(Debug)]
pub struct Route {
    /// The key.
    pub key: StreamKey,
    /// The ids.
    pub ids: Vec<String>,
}

/// Position of the first route of a key, or the number of routes.
pub open spec fn route_index(routes: Seq<Route>, key: (Seq<char>, Seq<char>)) -> int
    decreases routes.len(),
{
    if routes.len() == 0 {
        0
    } else if routes[0].key@ == key {
        0
    } else {
        1 + route_index(routes.subrange(1, routes.len() as int), key)
    }
}

/// The ids that a key routes to.
pub open spec fn ids_of(routes: Seq<Route>, key: (Seq<char>, Seq<char>)) -> Seq<Seq<char>> {
    let at = route_index(routes, key);
    if at < routes.len() {
        texts(routes[at].ids@)
    } else {
        seq![]
    }
}

/// Whether each key has one route.
pub open spec fn routes_apart(routes: Seq<Route>) -> bool {
    forall|i: int, j: int|
        0 <= i < j < routes.len() ==> (#[trigger] routes[i]).key@ != (#[trigger] routes[j]).key@
}

proof fn lemma_route_index(routes: Seq<Route>, key: (Seq<char>, Seq<char>), at: int)
    requires
        0 <= at <= routes.len(),
        forall|i: int| 0 <= i < at ==> (#[trigger] routes[i]).key@ != key,
        at < routes.len() ==> routes[at].key@ == key,
    ensures
        route_index(routes, key) == at,
    decreases routes.len(),
{
    if at > 0 {
        let rest = routes.subrange(1, routes.len() as int);
        assert forall|i: int| 0 <= i < at - 1 implies (#[trigger] rest[i]).key@ != key by {
            assert(rest[i] == routes[i + 1]);
        }
        assert(at < routes.len() ==> rest[at - 1] == routes[at]);
        lemma_route_index(rest, key, at - 1);
        assert(routes[0].key@ != key);
    }
}

proof fn lemma_route_bound(routes: Seq<Route>, key: (Seq<char>, Seq<char>))
    ensures
        0 <= route_index(routes, key) <= routes.len(),
        forall|i: int| 0 <= i < route_index(routes, key) ==> (#[trigger] routes[i]).key@ != key,
        route_index(routes, key) < routes.len() ==> routes[route_index(routes, key)].key@ == key,
    decreases routes.len(),
{
    if routes.len() > 0 && routes[0].key@ != key {
        let rest = routes.subrange(1, routes.len() as int);
        lemma_route_bound(rest, key);
        assert forall|i: int| 0 <= i < route_index(routes, key) implies (
        #[trigger] routes[i]).key@ != key by {
            if i > 0 {
                assert(routes[i] == rest[i - 1]);
            }
        }
        let at = route_index(rest, key);
        assert(at < rest.len() ==> rest[at] == routes[at + 1]);
    }
}

/// The list with one text in place of another.
pub open spec fn renamed(list: Seq<Seq<char>>, from: Seq<char>, to: Seq<char>) -> Seq<Seq<char>> {
    Seq::new(
        list.len(),
        |i: int|
            if list[i] == from {
                to
            } else {
                list[i]
            },
    )
}

/// Remembers subscriptions and routes stream events to them.
#[derive(Debug)]
pub struct Registry {
    by_id: Assoc<Remembered>,
    by_key: Vec<Route>,
}

impl Default for Registry {
    fn default() -> (r: Registry)
        ensures
            r.wf(),
            r.subs() == Map::<Seq<char>, Remembered>::empty(),
            r.linked(),
    {
        Registry::new()
    }
}

impl Registry {
    /// Whether the registry is in order.
    pub closed spec fn wf(&self) -> bool {
        self.by_id.wf() && routes_apart(self.by_key@)
    }

    /// The remembered subscriptions, by id.
    pub closed spec fn subs(&self) -> Map<Seq<char>, Remembered> {
        self.by_id.view()
    }

    /// The ids that a key routes to, in order.
    pub closed spec fn routed(&self, key: (Seq<char>, Seq<char>)) -> Seq<Seq<char>> {
        ids_of(self.by_key@, key)
    }

    /// Whether routing and remembering agree: a key routes to an id exactly where the id is
    /// remembered for that key, and to no id twice.
    pub open spec fn linked(&self) -> bool {
        &&& forall|key: (Seq<char>, Seq<char>), id: Seq<char>| #[trigger]
            self.routed(key).contains(id) <==> self.subs().dom().contains(id)
                && self.subs()[id].key@ == key
        &&& forall|key: (Seq<char>, Seq<char>)| (#[trigger] self.routed(key)).no_duplicates()
    }

    /// An empty registry.
    pub fn new() -> (r: Registry)
        ensures
            r.wf(),
            r.subs() == Map::<Seq<char>, Remembered>::empty(),
            forall|key: (Seq<char>, Seq<char>)| #[trigger] r.routed(key).len() == 0,
            r.linked(),
    {
        Registry { by_id: Assoc::new(), by_key: Vec::new() }
    }

    /// How many subscriptions are remembered.
    pub fn len(&self) -> (r: usize)
        requires
            self.wf(),
        ensures
            r == self.subs().dom().len(),
    {
        self.by_id.len()
    }

    /// Whether nothing is remembered.
    pub fn is_empty(&self) -> (r: bool)
        requires
            self.wf(),
        ensures
            r == (self.subs().dom().len() == 0),
    {
        self.by_id.len() == 0
    }

    /// Position of the route of a key, or the number of routes.
    fn find_route(&self, key: &StreamKey) -> (r: usize)
        ensures
            r == route_index(self.by_key@, key@),
            r <= self.by_key@.len(),
            r < self.by_key@.len() ==> self.by_key@[r as int].key@ == key@,
            forall|i: int| 0 <= i < r ==> (#[trigger] self.by_key@[i]).key@ != key@,
    {
        let mut i: usize = 0;
        while i < self.by_key.len()
            invariant
                i <= self.by_key@.len(),
                forall|k: int| 0 <= k < i ==> (#[trigger] self.by_key@[k]).key@ != key@,
            decreases self.by_key@.len() - i,
        {
            if self.by_key[i].key.same(key) {
                proof {
                    lemma_route_index(self.by_key@, key@, i as int);
                }
                return i;
            }
            i += 1;
        }
        proof {
            lemma_route_index(self.by_key@, key@, i as int);
        }
        i
    }

    /// Remembers a subscription. Ids must be fresh: the server silently drops a request that
    /// reuses one.
    pub fn insert(&mut self, id: &str, key: StreamKey, params: Vec<Json>)
        requires
            old(self).wf(),
        ensures
            final(self).wf(),
            final(self).subs() == old(self).subs().insert(
                id@,
                Remembered { key, params, state: SubState::Pending },
            ),
            forall|k: (Seq<char>, Seq<char>)| #[trigger]
                final(self).routed(k) == (if k == key@ {
                    old(self).routed(k).push(id@)
                } else {
                    old(self).routed(k)
                }),
            old(self).linked() && !old(self).subs().dom().contains(id@) ==> final(self).linked(),
    {
        let at: usize = self.find_route(&key);
        let ghost was = self.by_key@;
        if at < self.by_key.len() {
            let mut ids: Vec<String> = Vec::new();
            core::mem::swap(&mut ids, &mut self.by_key[at].ids);
            let ghost list = ids@;
            ids.push(id.to_owned());
            let route = Route { key: key.dup(), ids };
            self.by_key.set(at, route);
            proof {
                assert(texts(ids@) =~= texts(list).push(id@));
                lemma_set_route(was, self.by_key@, at as int, route);
            }
        } else {
            let mut ids: Vec<String> = Vec::new();
            ids.push(id.to_owned());
            let route = Route { key: key.dup(), ids };
            self.by_key.push(route);
            proof {
                assert(texts(ids@) =~= Seq::<Seq<char>>::empty().push(id@));
                lemma_push_route(was, route);
            }
        }
        let _ = self.by_id.insert(
            id.to_owned(),
            Remembered { key, params, state: SubState::Pending },
        );
        proof {
            if old(self).linked() && !old(self).subs().dom().contains(id@) {
                assert forall|k: (Seq<char>, Seq<char>), other: Seq<char>| #[trigger]
                    self.routed(k).contains(other) <==> self.subs().dom().contains(other)
                        && self.subs()[other].key@ == k by {
                    let l = old(self).routed(k);
                    if k == key@ {
                        lemma_push_contains(l, id@, other);
                    }
                    assert(l.contains(other) <==> old(self).subs().dom().contains(other) && old(self).subs()[other].key@ == k);
                }
                assert forall|k: (Seq<char>, Seq<char>)| (
                #[trigger] self.routed(k)).no_duplicates() by {
                    let l = old(self).routed(k);
                    assert(l.no_duplicates());
                    assert(!l.contains(id@));
                    if k == key@ {
                        assert forall|i: int, j: int|
                            0 <= i < l.push(id@).len() && 0 <= j < l.push(id@).len() && i
                                != j implies l.push(id@)[i] != l.push(id@)[j] by {
                            if i < l.len() {
                                assert(l.contains(l[i]));
                            }
                            if j < l.len() {
                                assert(l.contains(l[j]));
                            }
                        }
                    }
                }
            }
        }
    }

    /// The state of one subscription.
    pub fn state(&self, id: &str) -> (r: Option<SubState>)
        requires
            self.wf(),
        ensures
            r == (if self.subs().dom().contains(id@) {
                Some(self.subs()[id@].state)
            } else {
                None
            }),
    {
        match self.by_id.get(id) {
            Some(entry) => Some(entry.state),
            None => None,
        }
    }

    /// Marks a subscription acknowledged. Says whether it was known.
    pub fn mark_ready(&mut self, id: &str) -> (r: bool)
        requires
            old(self).wf(),
        ensures
            final(self).wf(),
            r == old(self).subs().dom().contains(id@),
            final(self).subs() == (if r {
                old(self).subs().insert(
                    id@,
                    Remembered { state: SubState::Ready, ..old(self).subs()[id@] },
                )
            } else {
                old(self).subs()
            }),
            forall|k: (Seq<char>, Seq<char>)| #[trigger]
                final(self).routed(k) == old(self).routed(k),
            old(self).linked() ==> final(self).linked(),
    {
        match self.by_id.remove(id) {
            Some(entry) => {
                let _ = self.by_id.insert(
                    id.to_owned(),
                    Remembered { key: entry.key, params: entry.params, state: SubState::Ready },
                );
                proof {
                    assert(self.by_id.view() =~= old(self).subs().insert(
                        id@,
                        Remembered { state: SubState::Ready, ..old(self).subs()[id@] },
                    ));
                    lemma_linked_same_routes(*old(self), *self);
                }
                true
            },
            None => {
                proof {
                    assert(self.by_id.view() =~= old(self).subs());
                    lemma_linked_same_routes(*old(self), *self);
                }
                false
            },
        }
    }

    /// Forgets a subscription. One that the server refused must be forgotten, or it would be
    /// requested again on every reconnect. Says whether it was known.
    pub fn remove(&mut self, id: &str) -> (r: bool)
        requires
            old(self).wf(),
        ensures
            final(self).wf(),
            r == old(self).subs().dom().contains(id@),
            final(self).subs() == old(self).subs().remove(id@),
            forall|k: (Seq<char>, Seq<char>)| #[trigger]
                final(self).routed(k) == (if r && k == old(self).subs()[id@].key@ {
                    without(old(self).routed(k), id@)
                } else {
                    old(self).routed(k)
                }),
            old(self).linked() ==> final(self).linked(),
    {
        let entry = match self.by_id.remove(id) {
            Some(entry) => entry,
            None => {
                proof {
                    assert(self.by_id.view() =~= old(self).subs());
                    lemma_linked_same_routes(*old(self), *self);
                }
                return false;
            },
        };
        let at: usize = self.find_route(&entry.key);
        let ghost was = self.by_key@;
        if at < self.by_key.len() {
            let mut ids: Vec<String> = Vec::new();
            core::mem::swap(&mut ids, &mut self.by_key[at].ids);
            let ghost list = ids@;
            let mut kept: Vec<String> = Vec::new();
            let mut i: usize = 0;
            while i < ids.len()
                invariant
                    i <= ids@.len(),
                    ids@ == list,
                    texts(kept@) == without(texts(list).subrange(0, i as int), id@),
                decreases ids@.len() - i,
            {
                let ghost part = texts(list).subrange(0, i + 1);
                let ghost before_push = kept@;
                proof {
                    assert(part.drop_last() =~= texts(list).subrange(0, i as int));
                    assert(part.last() == list[i as int]@);
                }
                if !str_eq(ids[i].as_str(), id) {
                    kept.push(ids[i].clone());
                    proof {
                        assert(texts(kept@) =~= texts(before_push).push(list[i as int]@));
                    }
                }
                i += 1;
            }
            proof {
                assert(texts(list).subrange(0, list.len() as int) =~= texts(list));
            }
            if kept.len() == 0 {
                let _ = self.by_key.remove(at);
                proof {
                    assert(texts(kept@) =~= Seq::<Seq<char>>::empty());
                    lemma_drop_route(was, self.by_key@, at as int);
                }
            } else {
                let route = Route { key: entry.key.dup(), ids: kept };
                self.by_key.set(at, route);
                proof {
                    lemma_set_route(was, self.by_key@, at as int, route);
                }
            }
        } else {
            proof {
                assert(without(Seq::<Seq<char>>::empty(), id@) =~= Seq::<Seq<char>>::empty());
            }
        }
        proof {
            if old(self).linked() {
                let gone = entry.key@;
                assert forall|k: (Seq<char>, Seq<char>), other: Seq<char>| #[trigger]
                    self.routed(k).contains(other) <==> self.subs().dom().contains(other)
                        && self.subs()[other].key@ == k by {
                    let l = old(self).routed(k);
                    assert(l.contains(other) <==> old(self).subs().dom().contains(other) && old(self).subs()[other].key@ == k);
                    lemma_without(l, id@, other);
                    assert(l.contains(id@) <==> old(self).subs().dom().contains(id@) && old(self).subs()[id@].key@ == k);
                }
                assert forall|k: (Seq<char>, Seq<char>)| (
                #[trigger] self.routed(k)).no_duplicates() by {
                    let l = old(self).routed(k);
                    assert(l.no_duplicates());
                    lemma_without_distinct(l, id@);
                }
            }
        }
        true
    }

    /// Gives every subscription a state.
    fn set_all(&mut self, state: SubState)
        requires
            old(self).wf(),
        ensures
            final(self).wf(),
            final(self).subs() == old(self).subs().map_values(
                |e: Remembered| Remembered { state, ..e },
            ),
            forall|k: (Seq<char>, Seq<char>)| #[trigger]
                final(self).routed(k) == old(self).routed(k),
            old(self).linked() ==> final(self).linked(),
    {
        let ghost all = self.by_id.view();
        let mut fresh: Assoc<Remembered> = Assoc::new();
        loop
            invariant
                all == old(self).subs(),
                self.by_id.wf(),
                self.by_key == old(self).by_key,
                fresh.wf(),
                forall|k: Seq<char>| #[trigger]
                    all.dom().contains(k) <==> fresh.view().dom().contains(k)
                        || self.by_id.view().dom().contains(k),
                forall|k: Seq<char>| #[trigger]
                    self.by_id.view().dom().contains(k) ==> all[k] == self.by_id.view()[k],
                forall|k: Seq<char>| #[trigger]
                    fresh.view().dom().contains(k) ==> fresh.view()[k] == (Remembered {
                        state,
                        ..all[k]
                    }),
            ensures
                self.by_id.listed().len() == 0,
            decreases self.by_id.listed().len(),
        {
            let ghost left = self.by_id.view();
            let ghost done = fresh.view();
            match self.by_id.pop() {
                Some((id, entry)) => {
                    let ghost key = id@;
                    let _ = fresh.insert(
                        id,
                        Remembered { key: entry.key, params: entry.params, state },
                    );
                    proof {
                        assert(left.dom().contains(key));
                        assert(all[key] == entry);
                        assert forall|k: Seq<char>| #[trigger] all.dom().contains(k) implies (
                        fresh.view().dom().contains(k) || self.by_id.view().dom().contains(k)) by {
                            assert(done.dom().contains(k) || left.dom().contains(k));
                        }
                        assert forall|k: Seq<char>| #[trigger]
                            self.by_id.view().dom().contains(k) implies all[k]
                            == self.by_id.view()[k] && all.dom().contains(k) by {
                            assert(left.dom().contains(k));
                        }
                        assert forall|k: Seq<char>| #[trigger]
                            fresh.view().dom().contains(k) implies fresh.view()[k] == (
                        Remembered { state, ..all[k] }) && all.dom().contains(k) by {
                            if k != key {
                                assert(done.dom().contains(k));
                            }
                        }
                    }
                },
                None => {
                    break;
                },
            }
        }
        proof {
            self.by_id.lemma_listed();
            assert(self.by_id.view().dom() =~= Set::<Seq<char>>::empty());
            assert(fresh.view() =~= all.map_values(|e: Remembered| Remembered { state, ..e }));
        }
        self.by_id = fresh;
        proof {
            lemma_linked_same_routes(*old(self), *self);
        }
    }

    /// Marks every subscription inactive, because the connection ended. What is remembered
    /// stays: it is what a reconnect issues again.
    pub fn connection_lost(&mut self)
        requires
            old(self).wf(),
        ensures
            final(self).wf(),
            final(self).subs() == old(self).subs().map_values(
                |e: Remembered| Remembered { state: SubState::Inactive, ..e },
            ),
            forall|k: (Seq<char>, Seq<char>)| #[trigger]
                final(self).routed(k) == old(self).routed(k),
            old(self).linked() ==> final(self).linked(),
    {
        self.set_all(SubState::Inactive);
        proof {
            assert(self.subs() =~= old(self).subs().map_values(
                |e: Remembered| Remembered { state: SubState::Inactive, ..e },
            ));
        }
    }

    /// Everything to request again after logging back in, in the order of the ids. The ids are
    /// the old ones; each request needs a fresh one.
    pub fn to_replay(&self) -> (r: Vec<(String, StreamKey, Vec<Json>)>)
        requires
            self.wf(),
        ensures
            r@.len() == self.subs().dom().len(),
            forall|i: int, j: int|
                0 <= i < j < r@.len() ==> before(
                    (#[trigger] r@[i]).0@,
                    (#[trigger] r@[j]).0@,
                ),
            forall|i: int|
                0 <= i < r@.len() ==> self.subs().dom().contains((#[trigger] r@[i]).0@)
                    && r@[i].1@ == self.subs()[r@[i].0@].key@ && array_view(r@[i].2@)
                    == array_view(self.subs()[r@[i].0@].params@),
            forall|id: Seq<char>| #[trigger]
                self.subs().dom().contains(id) ==> exists|i: int|
                    0 <= i < r@.len() && (#[trigger] r@[i]).0@ == id,
    {
        let mut out: Vec<(String, StreamKey, Vec<Json>)> = Vec::new();
        let n: usize = self.by_id.len();
        proof {
            self.by_id.lemma_listed();
        }
        let mut i: usize = 0;
        while i < n
            invariant
                n == self.by_id.listed().len(),
                i <= n,
                out@.len() == i,
                forall|k: int|
                    0 <= k < i ==> (#[trigger] out@[k]).0@ == self.by_id.listed()[k].0@
                        && out@[k].1@ == self.by_id.listed()[k].1.key@ && array_view(out@[k].2@)
                        == array_view(self.by_id.listed()[k].1.params@),
            decreases n - i,
        {
            let (id, entry) = self.by_id.at(i);
            out.push((id.clone(), entry.key.dup(), dup_list(&entry.params)));
            i += 1;
        }
        proof {
            let listed = self.by_id.listed();
            assert forall|a: int, b: int| 0 <= a < b < out@.len() implies before(
                (#[trigger] out@[a]).0@,
                (#[trigger] out@[b]).0@,
            ) by {
                assert(before(listed[a].0@, listed[b].0@));
            }
            assert forall|a: int| 0 <= a < out@.len() implies self.subs().dom().contains(
                (#[trigger] out@[a]).0@,
            ) && out@[a].1@ == self.subs()[out@[a].0@].key@ && array_view(out@[a].2@)
                == array_view(self.subs()[out@[a].0@].params@) by {
                assert(self.by_id.view().dom().contains(listed[a].0@));
            }
            assert forall|id: Seq<char>| #[trigger] self.subs().dom().contains(id) implies exists|
                a: int,
            | 0 <= a < out@.len() && (#[trigger] out@[a]).0@ == id by {
                let w = choose|w: int| 0 <= w < listed.len() && (#[trigger] listed[w]).0@ == id;
                assert(out@[w].0@ == id);
            }
        }
        out
    }

    /// Marks every subscription as requested again.
    pub fn mark_replayed(&mut self)
        requires
            old(self).wf(),
        ensures
            final(self).wf(),
            final(self).subs() == old(self).subs().map_values(
                |e: Remembered| Remembered { state: SubState::Pending, ..e },
            ),
            forall|k: (Seq<char>, Seq<char>)| #[trigger]
                final(self).routed(k) == old(self).routed(k),
            old(self).linked() ==> final(self).linked(),
    {
        self.set_all(SubState::Pending);
        proof {
            assert(self.subs() =~= old(self).subs().map_values(
                |e: Remembered| Remembered { state: SubState::Pending, ..e },
            ));
        }
    }

    /// Moves a subscription onto the id that it was requested again with. What it is for and
    /// where events go stay the same. Says whether the old id was known.
    pub fn rekey(&mut self, old_id: &str, new_id: &str) -> (r: bool)
        requires
            old(self).wf(),
        ensures
            final(self).wf(),
            r == old(self).subs().dom().contains(old_id@),
            final(self).subs() == (if r {
                old(self).subs().remove(old_id@).insert(
                    new_id@,
                    Remembered { state: SubState::Pending, ..old(self).subs()[old_id@] },
                )
            } else {
                old(self).subs()
            }),
            forall|k: (Seq<char>, Seq<char>)| #[trigger]
                final(self).routed(k) == (if r && k == old(self).subs()[old_id@].key@ {
                    renamed(old(self).routed(k), old_id@, new_id@)
                } else {
                    old(self).routed(k)
                }),
            old(self).linked() && !old(self).subs().dom().contains(new_id@) ==> final(self).linked(),
    {
        let entry = match self.by_id.remove(old_id) {
            Some(entry) => entry,
            None => {
                proof {
                    assert(self.by_id.view() =~= old(self).subs());
                    lemma_linked_same_routes(*old(self), *self);
                }
                return false;
            },
        };
        let ghost key = entry.key@;
        let at: usize = self.find_route(&entry.key);
        let ghost was = self.by_key@;
        if at < self.by_key.len() {
            let mut ids: Vec<String> = Vec::new();
            core::mem::swap(&mut ids, &mut self.by_key[at].ids);
            let ghost list = ids@;
            let mut moved: Vec<String> = Vec::new();
            let mut i: usize = 0;
            while i < ids.len()
                invariant
                    i <= ids@.len(),
                    ids@ == list,
                    moved@.len() == i,
                    forall|k: int|
                        0 <= k < i ==> (#[trigger] moved@[k])@ == (if list[k]@ == old_id@ {
                            new_id@
                        } else {
                            list[k]@
                        }),
                decreases ids@.len() - i,
            {
                if str_eq(ids[i].as_str(), old_id) {
                    moved.push(new_id.to_owned());
                } else {
                    moved.push(ids[i].clone());
                }
                i += 1;
            }
            let route = Route { key: entry.key.dup(), ids: moved };
            self.by_key.set(at, route);
            proof {
                assert(texts(moved@) =~= renamed(texts(list), old_id@, new_id@));
                lemma_set_route(was, self.by_key@, at as int, route);
            }
        } else {
            proof {
                assert(renamed(Seq::<Seq<char>>::empty(), old_id@, new_id@) =~= Seq::<
                    Seq<char>,
                >::empty());
            }
        }
        let _ = self.by_id.insert(
            new_id.to_owned(),
            Remembered { key: entry.key, params: entry.params, state: SubState::Pending },
        );
        proof {
            if old(self).linked() && !old(self).subs().dom().contains(new_id@) {
                assert forall|k: (Seq<char>, Seq<char>), other: Seq<char>| #[trigger]
                    self.routed(k).contains(other) <==> self.subs().dom().contains(other)
                        && self.subs()[other].key@ == k by {
                    let l = old(self).routed(k);
                    assert(l.contains(other) <==> old(self).subs().dom().contains(other) && old(self).subs()[other].key@ == k);
                    assert(l.contains(old_id@) <==> old(self).subs().dom().contains(old_id@)
                        && old(self).subs()[old_id@].key@ == k);
                    assert(l.contains(new_id@) <==> old(self).subs().dom().contains(new_id@)
                        && old(self).subs()[new_id@].key@ == k);
                    lemma_renamed(l, old_id@, new_id@, other);
                }
                assert forall|k: (Seq<char>, Seq<char>)| (
                #[trigger] self.routed(k)).no_duplicates() by {
                    let l = old(self).routed(k);
                    assert(l.no_duplicates());
                    assert(l.contains(new_id@) <==> old(self).subs().dom().contains(new_id@)
                        && old(self).subs()[new_id@].key@ == k);
                    let m = renamed(l, old_id@, new_id@);
                    assert forall|i: int, j: int|
                        0 <= i < m.len() && 0 <= j < m.len() && i != j implies m[i] != m[j] by {
                        assert(l[i] != l[j]);
                        assert(l.contains(l[i]));
                        assert(l.contains(l[j]));
                    }
                }
            }
        }
        true
    }

    /// The subscriptions that an event goes to, in the order in which they were made. Two
    /// subscriptions to the same stream and event both get it.
    pub fn subscribers(&self, key: &StreamKey) -> (r: &[String])
        requires
            self.wf(),
        ensures
            texts(r@) == self.routed(key@),
    {
        let at: usize = self.find_route(key);
        if at < self.by_key.len() {
            self.by_key[at].ids.as_slice()
        } else {
            let none: &[String] = &[];
            proof {
                assert(texts(none@) =~= Seq::<Seq<char>>::empty());
            }
            none
        }
    }
}

proof fn lemma_linked_same_routes(a: Registry, b: Registry)
    requires
        forall|k: (Seq<char>, Seq<char>)| #[trigger] a.routed(k) == b.routed(k),
        forall|id: Seq<char>| #[trigger]
            a.subs().dom().contains(id) <==> b.subs().dom().contains(id),
        forall|id: Seq<char>| #[trigger]
            a.subs().dom().contains(id) ==> a.subs()[id].key@ == b.subs()[id].key@,
    ensures
        a.linked() ==> b.linked(),
{
    if a.linked() {
        assert forall|k: (Seq<char>, Seq<char>), id: Seq<char>| #[trigger]
            b.routed(k).contains(id) <==> b.subs().dom().contains(id) && b.subs()[id].key@
                == k by {
            assert(a.routed(k) == b.routed(k));
            assert(a.routed(k).contains(id) <==> a.subs().dom().contains(id) && a.subs()[id].key@
                == k);
            assert(a.subs().dom().contains(id) <==> b.subs().dom().contains(id));
        }
        assert forall|k: (Seq<char>, Seq<char>)| (#[trigger] b.routed(k)).no_duplicates() by {
            assert(a.routed(k) == b.routed(k));
        }
    }
}

proof fn lemma_renamed(l: Seq<Seq<char>>, from: Seq<char>, to: Seq<char>, other: Seq<char>)
    ensures
        renamed(l, from, to).contains(other) <==> (l.contains(other) && other != from) || (other
            == to && l.contains(from)),
{
    let m = renamed(l, from, to);
    if m.contains(other) {
        let i = choose|i: int| 0 <= i < m.len() && m[i] == other;
        assert(l.contains(l[i]));
    }
    if l.contains(other) && other != from {
        let i = choose|i: int| 0 <= i < l.len() && l[i] == other;
        assert(m[i] == other);
    }
    if l.contains(from) {
        let i = choose|i: int| 0 <= i < l.len() && l[i] == from;
        assert(m[i] == to);
    }
}

proof fn lemma_set_route(was: Seq<Route>, now: Seq<Route>, at: int, route: Route)
    requires
        routes_apart(was),
        0 <= at < was.len(),
        now.len() == was.len(),
        now[at] == route,
        route.key@ == was[at].key@,
        forall|i: int| 0 <= i < was.len() && i != at ==> now[i] == was[i],
    ensures
        routes_apart(now),
        forall|k: (Seq<char>, Seq<char>)| #[trigger]
            ids_of(now, k) == (if k == route.key@ {
                texts(route.ids@)
            } else {
                ids_of(was, k)
            }),
{
    assert forall|i: int, j: int| 0 <= i < j < now.len() implies (#[trigger] now[i]).key@ != (
    #[trigger] now[j]).key@ by {
        assert(was[i].key@ != was[j].key@);
    }
    assert forall|k: (Seq<char>, Seq<char>)| #[trigger] ids_of(now, k) == (if k == route.key@ {
        texts(route.ids@)
    } else {
        ids_of(was, k)
    }) by {
        lemma_route_bound(was, k);
        let w = route_index(was, k);
        assert forall|i: int| 0 <= i < w implies (#[trigger] now[i]).key@ != k by {
            assert(was[i].key@ != k);
        }
        if w < was.len() {
            assert(now[w].key@ == k);
        }
        lemma_route_index(now, k, w);
        if k == route.key@ {
            assert(was[at].key@ == k);
            assert(w <= at);
            if w < at {
                assert(was[w].key@ != was[at].key@);
            }
        }
    }
}

proof fn lemma_push_route(was: Seq<Route>, route: Route)
    requires
        routes_apart(was),
        forall|i: int| 0 <= i < was.len() ==> (#[trigger] was[i]).key@ != route.key@,
    ensures
        routes_apart(was.push(route)),
        forall|k: (Seq<char>, Seq<char>)| #[trigger]
            ids_of(was.push(route), k) == (if k == route.key@ {
                texts(route.ids@)
            } else {
                ids_of(was, k)
            }),
        ids_of(was, route.key@) == Seq::<Seq<char>>::empty(),
{
    let now = was.push(route);
    assert forall|i: int, j: int| 0 <= i < j < now.len() implies (#[trigger] now[i]).key@ != (
    #[trigger] now[j]).key@ by {
        assert(was[i].key@ != route.key@);
        if j < was.len() {
            assert(was[i].key@ != was[j].key@);
        }
    }
    lemma_route_index(was, route.key@, was.len() as int);
    assert forall|k: (Seq<char>, Seq<char>)| #[trigger] ids_of(now, k) == (if k == route.key@ {
        texts(route.ids@)
    } else {
        ids_of(was, k)
    }) by {
        lemma_route_bound(was, k);
        let w = route_index(was, k);
        assert forall|i: int| 0 <= i < w implies (#[trigger] now[i]).key@ != k by {
            assert(was[i].key@ != k);
        }
        if w < was.len() {
            assert(now[w] == was[w]);
            lemma_route_index(now, k, w);
        } else if k == route.key@ {
            lemma_route_index(now, k, w);
        } else {
            assert(now[was.len() as int].key@ != k);
            lemma_route_index(now, k, now.len() as int);
        }
    }
}

proof fn lemma_drop_route(was: Seq<Route>, now: Seq<Route>, at: int)
    requires
        routes_apart(was),
        0 <= at < was.len(),
        now.len() == was.len() - 1,
        forall|i: int| 0 <= i < at ==> now[i] == was[i],
        forall|i: int| at <= i < now.len() ==> #[trigger] now[i] == was[i + 1],
    ensures
        routes_apart(now),
        forall|k: (Seq<char>, Seq<char>)| #[trigger]
            ids_of(now, k) == (if k == was[at].key@ {
                Seq::<Seq<char>>::empty()
            } else {
                ids_of(was, k)
            }),
{
    assert forall|i: int, j: int| 0 <= i < j < now.len() implies (#[trigger] now[i]).key@ != (
    #[trigger] now[j]).key@ by {
        let x = if i < at {
            i
        } else {
            i + 1
        };
        let y = if j < at {
            j
        } else {
            j + 1
        };
        assert(now[i] == was[x]);
        assert(now[j] == was[y]);
        assert(was[x].key@ != was[y].key@);
    }
    assert forall|k: (Seq<char>, Seq<char>)| #[trigger] ids_of(now, k) == (if k == was[at].key@ {
        Seq::<Seq<char>>::empty()
    } else {
        ids_of(was, k)
    }) by {
        if k == was[at].key@ {
            assert forall|i: int| 0 <= i < now.len() implies (#[trigger] now[i]).key@ != k by {
                if i < at {
                    assert(was[i].key@ != was[at].key@);
                } else {
                    assert(was[at].key@ != was[i + 1].key@);
                }
            }
            lemma_route_index(now, k, now.len() as int);
        } else {
            lemma_route_bound(was, k);
            let w = route_index(was, k);
            let v = if w <= at {
                w
            } else {
                w - 1
            };
            assert forall|i: int| 0 <= i < v implies (#[trigger] now[i]).key@ != k by {
                if i < at {
                    assert(was[i].key@ != k);
                } else {
                    assert(was[i + 1].key@ != k);
                }
            }
            if w < was.len() {
                assert(w != at);
                if w < at {
                    assert(now[v] == was[w]);
                } else {
                    assert(now[v] == was[v + 1]);
                }
            }
            lemma_route_index(now, k, v);
        }
    }
}

/// A reconnect loses nothing: after the connection ended, the registry remembers the same
/// subscriptions with the same keys and parameters, and routes as before.
pub proof fn law_reconnect_keeps_intent(
    subs: Map<Seq<char>, Remembered>,
    state: SubState,
    id: Seq<char>,
)
    requires
        subs.dom().contains(id),
    ensures
        subs.map_values(|e: Remembered| Remembered { state, ..e }).dom() == subs.dom(),
        subs.map_values(|e: Remembered| Remembered { state, ..e })[id].key == subs[id].key,
        subs.map_values(|e: Remembered| Remembered { state, ..e })[id].params == subs[id].params,
        subs.map_values(|e: Remembered| Remembered { state, ..e })[id].state == state,
{
    assert(subs.map_values(|e: Remembered| Remembered { state, ..e }).dom() =~= subs.dom());
}

/// Giving a subscription another id changes that id in the list, in its place, and no other.
pub proof fn law_an_id_is_exchanged_in_its_place(
    list: Seq<Seq<char>>,
    from: Seq<char>,
    to: Seq<char>,
    i: int,
)
    requires
        0 <= i < list.len(),
    ensures
        renamed(list, from, to).len() == list.len(),
        list[i] == from ==> renamed(list, from, to)[i] == to,
        list[i] != from ==> renamed(list, from, to)[i] == list[i],
{
}

} // verus!

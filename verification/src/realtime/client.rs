//! Keeping subscriptions alive across reconnects.
//!
//! A connection does not issue subscriptions again: it does not know what was subscribed to.
//! This is the other half. A [`Registry`] remembers what was asked for, [`observe`] says what to
//! do about each event of the connection, and a [`Replay`] issues what is remembered again.
use crate::assoc::{before, lemma_before_total};
use crate::model::event::{decodes_to, StreamEvent};
use crate::model::json::{
    array_view, dup_list, dup_slice, lemma_array_view, Json, JsonMap, JsonView,
};
use crate::model::protocol::ServerMessage;
use crate::realtime::connection::Event;
use crate::realtime::correlate::{CallError, Epoch};
use crate::realtime::subscription::{Registry, Remembered, StreamKey, SubState};
use vstd::prelude::*;
use vstd::string::*;

verus! {

/// An event for the application.
#[derive(Debug, Clone)]
pub enum ClientEvent {
    /// A stream event: where it came from, what it decodes to, and its arguments as they
    /// arrived.
    Stream { key: StreamKey, event: StreamEvent, args: Vec<Json> },
    /// Every subscription has been issued again after a reconnect.
    Resubscribed { epoch: Epoch, restored: usize },
    /// An event of the connection, passed through.
    Connection(Event),
}

/// What to do about an event of the connection.
#[derive(Debug, Clone)]
pub enum Directive {
    /// Hand this to the application; where it is the last, stop.
    Forward { event: ClientEvent, last: bool },
    /// Issue every remembered subscription again.
    Replay { epoch: Epoch },
}

/// Whether an event for the application is what a frame carries.
pub open spec fn is_carried(
    carried: (Seq<char>, Seq<char>, Seq<JsonView>),
    event: ClientEvent,
) -> bool {
    let (stream, name, args) = carried;
    event matches ClientEvent::Stream { key, event, args: raw } && key@ == (stream, name)
        && decodes_to(stream, name, args, event) && array_view(raw@) == args
}

/// Whether this is what to do about an event of the connection.
pub open spec fn is_directive(event: Event, directive: Directive) -> bool {
    match event {
        Event::Resubscribe { epoch } => directive == (Directive::Replay { epoch }),
        Event::Frame(message) => match message.carried() {
            Some(carried) => directive matches Directive::Forward { event: forwarded, last }
                && is_carried(carried, forwarded) && !last,
            None => directive == (Directive::Forward {
                event: ClientEvent::Connection(event),
                last: false,
            }),
        },
        _ => directive == (Directive::Forward {
            event: ClientEvent::Connection(event),
            last: event is Fatal,
        }),
    }
}

/// The key of the stream event that a frame carries, if it carries one.
pub fn stream_key_of(frame: &ServerMessage) -> (r: Option<StreamKey>)
    ensures
        match frame.carried() {
            Some((stream, name, _)) => r matches Some(key) && key@ == (stream, name),
            None => r is None,
        },
{
    match frame.as_stream_event() {
        Some(event) => Some(StreamKey::new(event.stream, event.event_name)),
        None => None,
    }
}

/// What a subscription is requested with: the event, and that no collection is kept for it.
pub open spec fn request_params(event: Seq<char>) -> Seq<JsonView> {
    seq![
        JsonView::String(event),
        JsonView::Object(
            Map::<Seq<char>, JsonView>::empty().insert(
                "useCollection"@,
                JsonView::Bool(false),
            ).insert("args"@, JsonView::Array(Seq::empty())),
        ),
    ]
}

/// What a subscription to a key is requested with.
pub fn subscription_params(key: &StreamKey) -> (r: Vec<Json>)
    ensures
        array_view(r@) == request_params(key.event@),
{
    let mut options = JsonMap::new();
    options.insert("useCollection".to_owned(), Json::Bool(false));
    let none: Vec<Json> = Vec::new();
    proof {
        lemma_array_view(none@);
        assert(array_view(none@) =~= Seq::<JsonView>::empty());
    }
    options.insert("args".to_owned(), Json::Array(none));
    let mut params: Vec<Json> = Vec::new();
    params.push(Json::String(key.event.clone()));
    params.push(Json::Object(options));
    proof {
        lemma_array_view(params@);
        assert(array_view(params@) =~= request_params(key.event@));
    }
    params
}

/// Remembers a subscription once the server has acknowledged it. One that it refused is not
/// remembered: it would be issued again on every reconnect.
pub fn remember(
    registry: &mut Registry,
    key: StreamKey,
    params: Vec<Json>,
    outcome: Result<String, CallError>,
) -> (r: Result<StreamKey, CallError>)
    requires
        old(registry).wf(),
    ensures
        final(registry).wf(),
        match outcome {
            Ok(id) => r matches Ok(named) && named@ == key@ && final(registry).subs() == old(
                registry,
            ).subs().insert(id@, Remembered { key, params, state: SubState::Pending }),
            Err(error) => r == Err::<StreamKey, CallError>(error) && *final(registry) == *old(
                registry,
            ),
        },
        old(registry).linked() && (outcome matches Ok(id) ==> !old(registry).subs().dom().contains(
            id@,
        )) ==> final(registry).linked(),
{
    match outcome {
        Ok(id) => {
            let named = key.dup();
            registry.insert(id.as_str(), key, params);
            Ok(named)
        },
        Err(error) => Err(error),
    }
}

/// Says what to do about an event of the connection. When the connection is lost, nothing is
/// established any more, but everything stays remembered.
pub fn observe(registry: &mut Registry, event: Event) -> (r: Directive)
    requires
        old(registry).wf(),
    ensures
        final(registry).wf(),
        is_directive(event, r),
        event is Disconnected ==> final(registry).subs() == old(registry).subs().map_values(
            |e: Remembered| Remembered { state: SubState::Inactive, ..e },
        ),
        event !is Disconnected ==> *final(registry) == *old(registry),
        old(registry).linked() ==> final(registry).linked(),
{
    match event {
        Event::Disconnected { .. } => {
            registry.connection_lost();
            Directive::Forward { event: ClientEvent::Connection(event), last: false }
        },
        Event::Resubscribe { epoch } => Directive::Replay { epoch },
        Event::Frame(message) => {
            match message.as_stream_event() {
                Some(raw) => {
                    let key = StreamKey::new(raw.stream, raw.event_name);
                    let decoded = StreamEvent::decode(raw.stream, raw.event_name, raw.args);
                    let args = dup_slice(raw.args);
                    return Directive::Forward {
                        event: ClientEvent::Stream { key, event: decoded, args },
                        last: false,
                    };
                },
                None => {},
            }
            Directive::Forward {
                event: ClientEvent::Connection(Event::Frame(message)),
                last: false,
            }
        },
        Event::Fatal(_) => Directive::Forward { event: ClientEvent::Connection(event), last: true },
        _ => Directive::Forward { event: ClientEvent::Connection(event), last: false },
    }
}

/// Issues every remembered subscription again, one after the other.
#[derive(Debug)]
pub struct Replay {
    epoch: Epoch,
    pending: Vec<(String, StreamKey, Vec<Json>)>,
    at: usize,
    restored: usize,
}

/// A subscription that is to be issued again.
pub struct Wanted {
    /// The id that it has now.
    pub id: Seq<char>,
    /// What it is for.
    pub key: (Seq<char>, Seq<char>),
    /// What it was requested with.
    pub params: Seq<JsonView>,
}

/// What a [`Replay`] is.
pub struct ReplayModel {
    /// The generation that it runs against.
    pub generation: u64,
    /// What is still to be issued, in order.
    pub left: Seq<Wanted>,
    /// How many subscriptions were restored.
    pub restored: nat,
}

/// The subscriptions of a list.
pub open spec fn wanted(pending: Seq<(String, StreamKey, Vec<Json>)>) -> Seq<Wanted> {
    Seq::new(
        pending.len(),
        |i: int|
            Wanted {
                id: pending[i].0@,
                key: pending[i].1@,
                params: array_view(pending[i].2@),
            },
    )
}

/// Whether a list holds every remembered subscription once.
pub open spec fn covers(left: Seq<Wanted>, subs: Map<Seq<char>, Remembered>) -> bool {
    &&& left.len() == subs.dom().len()
    &&& forall|i: int, j: int|
        0 <= i < j < left.len() ==> (#[trigger] left[i]).id != (#[trigger] left[j]).id
    &&& forall|i: int|
        0 <= i < left.len() ==> subs.dom().contains((#[trigger] left[i]).id) && left[i].key
            == subs[left[i].id].key@ && left[i].params == array_view(subs[left[i].id].params@)
    &&& forall|id: Seq<char>| #[trigger]
        subs.dom().contains(id) ==> exists|i: int| 0 <= i < left.len() && (#[trigger] left[i]).id == id
}

/// What is remembered after a subscription was issued again: under its new id where the server
/// acknowledged it, and no more where it did not.
pub open spec fn reissued(
    subs: Map<Seq<char>, Remembered>,
    id: Seq<char>,
    outcome: Option<Seq<char>>,
) -> Map<Seq<char>, Remembered> {
    match outcome {
        Some(new) => if subs.dom().contains(id) {
            subs.remove(id).insert(new, Remembered { state: SubState::Pending, ..subs[id] })
        } else {
            subs
        },
        None => subs.remove(id),
    }
}

/// The id that the server acknowledged, if it did.
pub open spec fn acknowledged(outcome: Result<String, CallError>) -> Option<Seq<char>> {
    match outcome {
        Ok(id) => Some(id@),
        Err(_) => None,
    }
}

impl Replay {
    /// Whether the replay is in order.
    pub closed spec fn wf(&self) -> bool {
        self.at <= self.pending@.len() && self.restored <= self.at
    }

    /// What the replay is.
    pub closed spec fn view(&self) -> ReplayModel {
        ReplayModel {
            generation: self.epoch.number(),
            left: wanted(self.pending@).skip(self.at as int),
            restored: self.restored as nat,
        }
    }

    /// Begins to issue everything that is remembered.
    pub fn begin(registry: &Registry, epoch: Epoch) -> (r: Replay)
        requires
            registry.wf(),
        ensures
            r.wf(),
            r@.generation == epoch.number(),
            r@.restored == 0,
            covers(r@.left, registry.subs()),
    {
        let pending = registry.to_replay();
        let replay = Replay { epoch, pending, at: 0, restored: 0 };
        proof {
            let left = replay@.left;
            assert(left =~= wanted(pending@));
            assert forall|i: int, j: int| 0 <= i < j < left.len() implies (#[trigger] left[i]).id
                != (#[trigger] left[j]).id by {
                assert(before(pending@[i].0@, pending@[j].0@));
                lemma_before_total(pending@[i].0@, pending@[j].0@);
            }
            assert forall|id: Seq<char>| #[trigger] registry.subs().dom().contains(id) implies exists|
                i: int,
            | 0 <= i < left.len() && (#[trigger] left[i]).id == id by {
                let w = choose|w: int| 0 <= w < pending@.len() && (#[trigger] pending@[w]).0@ == id;
                assert(left[w].id == id);
            }
        }
        replay
    }

    /// The publication and the parameters of the subscription to issue now. It must go out
    /// under an id that the server has not seen: one that it knows is dropped without an
    /// answer.
    pub fn next(&self) -> (r: Option<(String, Vec<Json>)>)
        requires
            self.wf(),
        ensures
            match r {
                Some((publication, params)) => self@.left.len() > 0 && publication@ == "stream-"@
                    + self@.left[0].key.0 && array_view(params@) == self@.left[0].params,
                None => self@.left.len() == 0,
            },
    {
        if self.at < self.pending.len() {
            Some((self.pending[self.at].1.publication(), dup_list(&self.pending[self.at].2)))
        } else {
            None
        }
    }

    /// Takes the outcome of the subscription that was issued. One that the server refuses is
    /// forgotten rather than tried again on every reconnect.
    pub fn answered(&mut self, registry: &mut Registry, outcome: Result<String, CallError>)
        requires
            old(self).wf(),
            old(self)@.left.len() > 0,
            old(registry).wf(),
        ensures
            final(self).wf(),
            final(registry).wf(),
            final(self)@ == (ReplayModel {
                left: old(self)@.left.skip(1),
                restored: old(self)@.restored + (if outcome is Ok {
                    1int
                } else {
                    0
                }) as nat,
                ..old(self)@
            }),
            final(registry).subs() == reissued(
                old(registry).subs(),
                old(self)@.left[0].id,
                acknowledged(outcome),
            ),
            old(registry).linked() && (outcome matches Ok(id) ==> !old(
                registry,
            ).subs().dom().contains(id@)) ==> final(registry).linked(),
    {
        let at: usize = self.at;
        let ghost count: usize = self.pending.len();
        assert(at < count);
        match outcome {
            Ok(id) => {
                let _ = registry.rekey(self.pending[at].0.as_str(), id.as_str());
                self.restored = self.restored + 1;
            },
            Err(_) => {
                let _ = registry.remove(self.pending[at].0.as_str());
            },
        }
        self.at = at + 1;
        proof {
            let all = wanted(self.pending@);
            assert(all.skip(at as int).skip(1) =~= all.skip(at + 1));
        }
    }

    /// What the application is told when everything was issued.
    pub fn finished(&self) -> (r: ClientEvent)
        requires
            self.wf(),
        ensures
            r matches ClientEvent::Resubscribed { epoch, restored } && epoch.number()
                == self@.generation && restored == self@.restored,
    {
        ClientEvent::Resubscribed { epoch: self.epoch, restored: self.restored }
    }
}

/// What is remembered after the first `n` subscriptions of a replay were issued again.
pub open spec fn replayed(
    subs: Map<Seq<char>, Remembered>,
    left: Seq<Wanted>,
    outcomes: Seq<Option<Seq<char>>>,
    n: int,
) -> Map<Seq<char>, Remembered>
    decreases n,
{
    if n <= 0 {
        subs
    } else {
        reissued(replayed(subs, left, outcomes, n - 1), left[n - 1].id, outcomes[n - 1])
    }
}

/// Whether the ids that the server acknowledged are new: neither remembered before, nor given
/// twice.
pub open spec fn fresh(
    subs: Map<Seq<char>, Remembered>,
    outcomes: Seq<Option<Seq<char>>>,
) -> bool {
    &&& forall|i: int|
        0 <= i < outcomes.len() && (#[trigger] outcomes[i]) is Some ==> !subs.dom().contains(
            outcomes[i]->0,
        )
    &&& forall|i: int, j: int|
        0 <= i < j < outcomes.len() && (#[trigger] outcomes[i]) is Some && (
        #[trigger] outcomes[j]) is Some ==> outcomes[i]->0 != outcomes[j]->0
}

/// Whether an id is one of those that the server acknowledged among the first `n`.
pub open spec fn given(outcomes: Seq<Option<Seq<char>>>, n: int, id: Seq<char>) -> bool {
    exists|i: int| 0 <= i < n && #[trigger] outcomes[i] == Some(id)
}

/// Whether an id is one of those that are still to be issued after the first `n`.
pub open spec fn waits(left: Seq<Wanted>, n: int, id: Seq<char>) -> bool {
    exists|i: int| n <= i < left.len() && (#[trigger] left[i]).id == id
}

proof fn lemma_replayed(
    subs: Map<Seq<char>, Remembered>,
    left: Seq<Wanted>,
    outcomes: Seq<Option<Seq<char>>>,
    n: int,
)
    requires
        covers(left, subs),
        outcomes.len() == left.len(),
        fresh(subs, outcomes),
        0 <= n <= left.len(),
    ensures
        forall|id: Seq<char>| #[trigger]
            replayed(subs, left, outcomes, n).dom().contains(id) <==> waits(left, n, id) || given(
                outcomes,
                n,
                id,
            ),
        forall|i: int|
            n <= i < left.len() ==> replayed(subs, left, outcomes, n)[(#[trigger] left[i]).id]
                == subs[left[i].id],
        forall|i: int|
            0 <= i < n && (#[trigger] outcomes[i]) is Some ==> replayed(
                subs,
                left,
                outcomes,
                n,
            )[outcomes[i]->0] == (Remembered { state: SubState::Pending, ..subs[left[i].id] }),
    decreases n,
{
    let next = replayed(subs, left, outcomes, n);
    if n == 0 {
        assert forall|id: Seq<char>| #[trigger] next.dom().contains(id) <==> waits(left, n, id)
            || given(outcomes, n, id) by {
            if subs.dom().contains(id) {
                let i = choose|i: int| 0 <= i < left.len() && (#[trigger] left[i]).id == id;
                assert(left[i].id == id);
            }
        }
    } else {
        let k = n - 1;
        lemma_replayed(subs, left, outcomes, k);
        let prev = replayed(subs, left, outcomes, k);
        let old_id = left[k].id;
        assert(waits(left, k, old_id));
        assert(prev.dom().contains(old_id));
        assert(subs.dom().contains(old_id));
        assert forall|id: Seq<char>| #[trigger] next.dom().contains(id) <==> waits(left, n, id)
            || given(outcomes, n, id) by {
            assert(prev.dom().contains(id) <==> waits(left, k, id) || given(outcomes, k, id));
            if waits(left, n, id) {
                let i = choose|i: int| n <= i < left.len() && (#[trigger] left[i]).id == id;
                assert(left[i].id == id && k <= i);
                assert(left[k].id != left[i].id);
            }
            if given(outcomes, k, id) {
                let i = choose|i: int| 0 <= i < k && #[trigger] outcomes[i] == Some(id);
                assert(outcomes[i] == Some(id) && i < n);
                assert(!subs.dom().contains(outcomes[i]->0));
            }
            if outcomes[k] == Some(id) {
                assert(given(outcomes, n, id));
            }
            if given(outcomes, n, id) && !given(outcomes, k, id) {
                let i = choose|i: int| 0 <= i < n && #[trigger] outcomes[i] == Some(id);
                assert(i == k);
            }
            if waits(left, k, id) && id != old_id {
                let i = choose|i: int| k <= i < left.len() && (#[trigger] left[i]).id == id;
                assert(i != k);
                assert(left[i].id == id && n <= i);
            }
        }
        assert forall|i: int| n <= i < left.len() implies next[(#[trigger] left[i]).id]
            == subs[left[i].id] by {
            assert(left[k].id != left[i].id);
            assert(prev[left[i].id] == subs[left[i].id]);
            assert(subs.dom().contains(left[i].id));
            if outcomes[k] is Some {
                assert(!subs.dom().contains(outcomes[k]->0));
            }
        }
        assert forall|i: int| 0 <= i < n && (#[trigger] outcomes[i]) is Some implies next[outcomes[i]->0]
            == (Remembered { state: SubState::Pending, ..subs[left[i].id] }) by {
            assert(prev[left[k].id] == subs[left[k].id]);
            if i < k {
                assert(!subs.dom().contains(outcomes[i]->0));
                if outcomes[k] is Some {
                    assert(outcomes[i]->0 != outcomes[k]->0);
                }
                assert(prev[outcomes[i]->0] == (Remembered {
                    state: SubState::Pending,
                    ..subs[left[i].id]
                }));
            }
        }
    }
}

/// A reconnect loses nothing that the server still grants. After a replay, with new ids, exactly
/// the acknowledged subscriptions are remembered, each under its new id, for the same key and
/// with the same parameters.
pub proof fn law_replay_restores_what_is_granted(
    subs: Map<Seq<char>, Remembered>,
    left: Seq<Wanted>,
    outcomes: Seq<Option<Seq<char>>>,
)
    requires
        covers(left, subs),
        outcomes.len() == left.len(),
        fresh(subs, outcomes),
    ensures
        ({
            let after = replayed(subs, left, outcomes, left.len() as int);
            &&& forall|id: Seq<char>| #[trigger]
                after.dom().contains(id) <==> given(outcomes, left.len() as int, id)
            &&& forall|i: int|
                0 <= i < left.len() && (#[trigger] outcomes[i]) is Some
                    ==> after[outcomes[i]->0].key == subs[left[i].id].key
                    && after[outcomes[i]->0].params == subs[left[i].id].params
        }),
{
    let n = left.len() as int;
    lemma_replayed(subs, left, outcomes, n);
    let after = replayed(subs, left, outcomes, n);
    assert forall|id: Seq<char>| #[trigger] after.dom().contains(id) <==> given(
        outcomes,
        n,
        id,
    ) by {
        assert(!waits(left, n, id));
    }
}

/// What is done about each event of the connection: a stream event reaches the application with
/// its key, what it decodes to and its arguments; a login makes the subscriptions be issued again;
/// anything else is passed on, and a failure for good is the last.
pub proof fn law_what_is_done_about_an_event(event: Event, directive: Directive)
    requires
        is_directive(event, directive),
    ensures
        event is Resubscribe <==> directive is Replay,
        event matches Event::Resubscribe { epoch } ==> directive == (Directive::Replay { epoch }),
        directive matches Directive::Forward { last, .. } ==> (last <==> event is Fatal),
        !(event is Frame) && !(event is Resubscribe) ==> (
        directive matches Directive::Forward { event: forwarded, .. } && forwarded
            == ClientEvent::Connection(event)),
        event matches Event::Frame(message) ==> (match message.carried() {
            Some((stream, name, args)) => directive matches Directive::Forward {
                event: ClientEvent::Stream { key, event: decoded, args: raw },
                ..
            } && key.stream@ == stream && key.event@ == name && array_view(raw@) == args
                && decodes_to(stream, name, args, decoded),
            None => directive matches Directive::Forward { event: forwarded, .. } && forwarded
                == ClientEvent::Connection(event),
        }),
{
}

/// A subscription is asked for with the event's name, without a collection and without arguments.
pub proof fn law_what_a_subscription_asks_for(event: Seq<char>)
    ensures
        request_params(event).len() == 2,
        request_params(event)[0] == JsonView::String(event),
        request_params(event)[1] == JsonView::Object(
            map![
                "useCollection"@ => JsonView::Bool(false),
                "args"@ => JsonView::Array(Seq::empty()),
            ],
        ),
{
}

/// A subscription that is issued again is remembered under its new id, waiting to be established,
/// with the key and the parameters that it had, and no longer under the old one; one that is
/// refused is forgotten. The others stay as they are.
pub proof fn law_a_subscription_moves_to_its_new_id(
    subs: Map<Seq<char>, Remembered>,
    id: Seq<char>,
    new: Seq<char>,
    other: Seq<char>,
)
    requires
        subs.dom().contains(id),
        id != new,
    ensures
        !reissued(subs, id, Some(new)).dom().contains(id),
        reissued(subs, id, Some(new)).dom().contains(new),
        reissued(subs, id, Some(new))[new].key == subs[id].key,
        reissued(subs, id, Some(new))[new].params == subs[id].params,
        reissued(subs, id, Some(new))[new].state == SubState::Pending,
        !reissued(subs, id, None).dom().contains(id),
        other != id && other != new ==> (reissued(subs, id, Some(new)).dom().contains(other)
            <==> subs.dom().contains(other)) && reissued(subs, id, Some(new))[other]
            == subs[other],
        other != id ==> (reissued(subs, id, None).dom().contains(other) <==> subs.dom().contains(
            other,
        )) && reissued(subs, id, None)[other] == subs[other],
{
}

/// An acknowledged subscription has the id that the server acknowledged, and a refused one none.
pub proof fn law_what_is_acknowledged(id: String, error: CallError)
    ensures
        acknowledged(Ok(id)) == Some(id@),
        acknowledged(Err(error)) is None,
{
}

} // verus!

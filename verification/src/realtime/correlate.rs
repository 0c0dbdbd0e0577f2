//! Matching calls with their replies.
//!
//! A reply can only arrive on the connection that its request went out on. So whatever ends a
//! connection settles every call that waits on it, and a late reply of an earlier connection
//! never settles a new call: every call carries the generation of its connection.
use crate::assoc::{
    before, lemma_before_irreflexive, lemma_before_total, lemma_before_transitive, Assoc,
};
use crate::model::json::Json;
use crate::model::protocol::DdpError;
use crate::text::{concat, decimal_text, decimal_u64, lemma_decimal_value};
use crate::text::decimal_digits;
use tokio::sync::oneshot;
use vstd::prelude::*;
use vstd::string::*;

verus! {

/// The sending half of a one-shot channel. It is opaque here.
#[verifier::external_type_specification]
#[verifier::external_body]
#[verifier::reject_recursive_types(T)]
pub struct ExSender<T>(oneshot::Sender<T>);

/// The receiving half of a one-shot channel. It is opaque here.
#[verifier::external_type_specification]
#[verifier::external_body]
#[verifier::reject_recursive_types(T)]
pub struct ExReceiver<T>(oneshot::Receiver<T>);

/// The error of awaiting a receiver whose sender is gone. It is opaque here, and only stands in
/// what a receiver is as a future.
#[verifier::external_type_specification]
#[verifier::external_body]
pub struct ExRecvError(oneshot::error::RecvError);

/// What a call is answered with.
pub type Reply = Result<Json, CallError>;

/// The sending half of the channel that a receiving half belongs to: what is sent on the one
/// arrives at the other.
pub uninterp spec fn sender_of(receiver: oneshot::Receiver<Reply>) -> oneshot::Sender<Reply>;

/// `oneshot::channel`: the two halves of one channel.
#[verifier::external_body]
fn reply_channel() -> (r: (oneshot::Sender<Reply>, oneshot::Receiver<Reply>))
    ensures
        r.0 == sender_of(r.1),
{
    oneshot::channel()
}

/// A connection's generation. Every connection has the next one.
#[derive(Debug, Clone, Copy, PartialEq, Eq, PartialOrd, Ord, Hash, Structural)]
pub struct Epoch(u64);

impl Epoch {
    /// The number of the generation.
    pub closed spec fn number(self) -> u64 {
        self.0
    }

    /// The first generation.
    pub fn first() -> (r: Epoch)
        ensures
            r.number() == 0,
    {
        Epoch(0)
    }

    /// The next generation, starting over after the last number.
    pub fn next(self) -> (r: Epoch)
        ensures
            r.number() == successor(self.number()),
    {
        if self.0 == u64::MAX {
            Epoch(0)
        } else {
            Epoch(self.0 + 1)
        }
    }
}

impl Default for Epoch {
    fn default() -> (r: Epoch)
        ensures
            r.number() == 0,
    {
        Epoch::first()
    }
}

/// Why a call will never be answered.
#[derive(Debug, Clone, PartialEq)]
pub enum CallError {
    /// The server answered with an error.
    Server(DdpError),
    /// The connection ended before the frame reached the wire: the server never saw it.
    NotSent,
    /// The connection ended after the frame was written: the server may have executed it.
    Abandoned { id: String },
}

impl CallError {
    /// The error for a log line.
    pub fn to_text(&self) -> (r: String)
        ensures
            match *self {
                CallError::Server(error) => r@ == (match (error.message, error.reason) {
                    (Some(message), _) => message@,
                    (None, Some(reason)) => reason@ + " ["@ + error.error.text() + "]"@,
                    (None, None) => error.error.text(),
                }),
                CallError::NotSent => r@ == "connection closed before the call was sent"@,
                CallError::Abandoned { .. } => r@
                    == "connection closed after the call was sent; it may have been executed"@,
            },
    {
        match self {
            CallError::Server(error) => error.to_text(),
            CallError::NotSent => "connection closed before the call was sent".to_owned(),
            CallError::Abandoned { .. } =>
                "connection closed after the call was sent; it may have been executed".to_owned(),
        }
    }
}

/// A call that waits for its reply.
#[derive(Debug)]
pub struct Pending {
    /// The generation of the connection it belongs to.
    pub epoch: Epoch,
    /// Whether its frame has been written.
    pub sent: bool,
    /// Where the reply goes.
    pub reply: oneshot::Sender<Reply>,
}

/// What became of a reply.
#[derive(Debug, Clone, Copy, PartialEq, Eq, Structural)]
pub enum Resolution {
    /// Handed to the waiting caller.
    Delivered,
    /// No such call waits: a duplicate, or one of a connection that is gone.
    Unknown,
    /// The call belongs to an earlier connection, so the reply was dropped.
    StaleEpoch,
    /// The caller stopped waiting.
    CallerGone,
}

/// A reply on its way to its caller. Whoever holds it sends it.
#[derive(Debug)]
pub struct Delivery {
    /// The id of the call.
    pub id: String,
    /// Where the reply goes.
    pub to: oneshot::Sender<Reply>,
    /// What the caller is told.
    pub reply: Reply,
}

/// What a caller is told.
pub enum Told {
    /// The call succeeded with a value.
    Value(Json),
    /// The server answered with an error.
    Server(DdpError),
    /// The server never saw the call.
    NotSent,
    /// The server may have executed the call with this id.
    Abandoned(Seq<char>),
}

/// What a reply tells its caller.
pub open spec fn told_by(reply: Reply) -> Told {
    match reply {
        Ok(value) => Told::Value(value),
        Err(CallError::Server(error)) => Told::Server(error),
        Err(CallError::NotSent) => Told::NotSent,
        Err(CallError::Abandoned { id }) => Told::Abandoned(id@),
    }
}

/// What a [`Delivery`] is.
pub struct DeliveryModel {
    /// The id of the call.
    pub id: Seq<char>,
    /// Where the reply goes.
    pub to: oneshot::Sender<Reply>,
    /// What the caller is told.
    pub told: Told,
}

impl View for Delivery {
    type V = DeliveryModel;

    open spec fn view(&self) -> DeliveryModel {
        DeliveryModel { id: self.id@, to: self.to, told: told_by(self.reply) }
    }
}

/// The views of deliveries.
pub open spec fn delivery_views(deliveries: Seq<Delivery>) -> Seq<DeliveryModel> {
    deliveries.map_values(|d: Delivery| d@)
}

/// What is done with a reply of the server.
#[derive(Debug)]
pub enum Answer {
    /// Nothing: no such call waits.
    Unknown,
    /// Nothing: the call belongs to an earlier connection.
    Stale,
    /// Its caller is told.
    Deliver(Delivery),
}

impl Answer {
    /// What becomes of the reply, given whether a caller that was told was still there.
    pub fn resolution(&self, heard: bool) -> (r: Resolution)
        ensures
            r == (match *self {
                Answer::Unknown => Resolution::Unknown,
                Answer::Stale => Resolution::StaleEpoch,
                Answer::Deliver(_) => if heard {
                    Resolution::Delivered
                } else {
                    Resolution::CallerGone
                },
            }),
    {
        match self {
            Answer::Unknown => Resolution::Unknown,
            Answer::Stale => Resolution::StaleEpoch,
            Answer::Deliver(_) => if heard {
                Resolution::Delivered
            } else {
                Resolution::CallerGone
            },
        }
    }
}

/// What the table says of a call.
pub struct CallModel {
    /// The generation of the connection it belongs to.
    pub epoch: u64,
    /// Whether its frame has been written.
    pub sent: bool,
    /// Where its reply goes.
    pub reply: oneshot::Sender<Reply>,
}

/// What a [`Correlator`] is.
pub struct CorrelatorModel {
    /// The number of the current generation.
    pub generation: u64,
    /// The number of the next id.
    pub issued: u64,
    /// The prefix of the ids.
    pub namespace: Seq<char>,
    /// What the table says of each call that waits.
    pub calls: Map<Seq<char>, CallModel>,
}

/// The number after another, starting over after the last.
pub open spec fn successor(n: u64) -> u64 {
    if n == u64::MAX {
        0
    } else {
        (n + 1) as u64
    }
}

/// What the caller of a call is told when the connection ends.
pub open spec fn fate(id: Seq<char>, call: CallModel) -> DeliveryModel {
    DeliveryModel {
        id,
        to: call.reply,
        told: if call.sent {
            Told::Abandoned(id)
        } else {
            Told::NotSent
        },
    }
}

/// Whether a list tells every caller of a table its fate, once, in descending order of the ids.
pub open spec fn lists_fates(
    calls: Map<Seq<char>, CallModel>,
    list: Seq<DeliveryModel>,
) -> bool {
    &&& calls.dom().finite()
    &&& list.len() == calls.dom().len()
    &&& forall|i: int, j: int|
        0 <= i < j < list.len() ==> before((#[trigger] list[j]).id, (#[trigger] list[i]).id)
    &&& forall|i: int|
        0 <= i < list.len() ==> calls.dom().contains((#[trigger] list[i]).id) && list[i] == fate(
            list[i].id,
            calls[list[i].id],
        )
    &&& forall|id: Seq<char>| #[trigger]
        calls.dom().contains(id) ==> exists|i: int| 0 <= i < list.len() && (#[trigger] list[i]).id
            == id
}

/// What the callers of a table are told when the connection ends.
pub open spec fn fates(calls: Map<Seq<char>, CallModel>) -> Seq<DeliveryModel> {
    choose|list: Seq<DeliveryModel>| lists_fates(calls, list)
}

proof fn lemma_same_fates(
    calls: Map<Seq<char>, CallModel>,
    a: Seq<DeliveryModel>,
    b: Seq<DeliveryModel>,
    n: int,
)
    requires
        lists_fates(calls, a),
        lists_fates(calls, b),
        0 <= n <= a.len(),
    ensures
        forall|i: int| 0 <= i < n ==> #[trigger] a[i] == b[i],
    decreases n,
{
    if n > 0 {
        let i = n - 1;
        lemma_same_fates(calls, a, b, i);
        assert(calls.dom().contains(a[i].id));
        assert(calls.dom().contains(b[i].id));
        let j = choose|j: int| 0 <= j < b.len() && (#[trigger] b[j]).id == a[i].id;
        let m = choose|m: int| 0 <= m < a.len() && (#[trigger] a[m]).id == b[i].id;
        if j < i {
            assert(a[j] == b[j]);
            assert(before(a[i].id, a[j].id));
            lemma_before_total(a[i].id, a[j].id);
        }
        if m < i {
            assert(a[m] == b[m]);
            assert(before(b[i].id, b[m].id));
            lemma_before_total(b[i].id, b[m].id);
        }
        if j > i {
            assert(before(b[j].id, b[i].id));
            lemma_before_total(b[j].id, b[i].id);
            if m > i {
                assert(before(a[m].id, a[i].id));
            }
        }
        assert(a[i].id == b[i].id);
    }
}

/// There is one such list.
pub proof fn lemma_fates(calls: Map<Seq<char>, CallModel>, list: Seq<DeliveryModel>)
    requires
        lists_fates(calls, list),
    ensures
        fates(calls) == list,
        lists_fates(calls, fates(calls)),
{
    lemma_same_fates(calls, fates(calls), list, list.len() as int);
    assert(fates(calls) =~= list);
}

/// A finite set of ids that is not empty has a greatest one.
proof fn lemma_greatest(ids: Set<Seq<char>>) -> (top: Seq<char>)
    requires
        ids.finite(),
        ids.len() > 0,
    ensures
        ids.contains(top),
        forall|id: Seq<char>| #[trigger] ids.contains(id) && id != top ==> before(id, top),
    decreases ids.len(),
{
    let some = ids.choose();
    let rest = ids.remove(some);
    if rest.len() == 0 {
        assert forall|id: Seq<char>| #[trigger] ids.contains(id) && id != some implies before(
            id,
            some,
        ) by {
            assert(rest.contains(id));
        }
        some
    } else {
        let most = lemma_greatest(rest);
        lemma_before_total(some, most);
        assert(rest.contains(most));
        if before(most, some) {
            assert forall|id: Seq<char>| #[trigger] ids.contains(id) && id != some implies before(
                id,
                some,
            ) by {
                assert(rest.contains(id));
                if id != most {
                    lemma_before_transitive(id, most, some);
                }
            }
            some
        } else {
            assert forall|id: Seq<char>| #[trigger] ids.contains(id) && id != most implies before(
                id,
                most,
            ) by {
                if id != some {
                    assert(rest.contains(id));
                }
            }
            most
        }
    }
}

/// Every table with finitely many calls has such a list.
pub proof fn lemma_fates_exist(calls: Map<Seq<char>, CallModel>)
    requires
        calls.dom().finite(),
    ensures
        lists_fates(calls, fates(calls)),
    decreases calls.dom().len(),
{
    if calls.dom().len() == 0 {
        assert(lists_fates(calls, Seq::empty()));
    } else {
        let top = lemma_greatest(calls.dom());
        let rest = calls.remove(top);
        assert(rest.dom() =~= calls.dom().remove(top));
        lemma_fates_exist(rest);
        let tail = fates(rest);
        let list = seq![fate(top, calls[top])] + tail;
        assert forall|i: int, j: int| 0 <= i < j < list.len() implies before(
            (#[trigger] list[j]).id,
            (#[trigger] list[i]).id,
        ) by {
            assert(list[j] == tail[j - 1]);
            assert(rest.dom().contains(tail[j - 1].id));
            if i > 0 {
                assert(list[i] == tail[i - 1]);
            }
        }
        assert forall|i: int| 0 <= i < list.len() implies calls.dom().contains(
            (#[trigger] list[i]).id,
        ) && list[i] == fate(list[i].id, calls[list[i].id]) by {
            if i > 0 {
                assert(list[i] == tail[i - 1]);
                assert(rest.dom().contains(tail[i - 1].id));
            }
        }
        assert forall|id: Seq<char>| #[trigger] calls.dom().contains(id) implies exists|i: int|
            0 <= i < list.len() && (#[trigger] list[i]).id == id by {
            if id == top {
                assert(list[0].id == id);
            } else {
                assert(rest.dom().contains(id));
                let k = choose|k: int| 0 <= k < tail.len() && (#[trigger] tail[k]).id == id;
                assert(list[k + 1].id == id);
            }
        }
        assert(lists_fates(calls, list));
    }
}

impl CorrelatorModel {
    /// The id of the next call.
    pub open spec fn next_id(self) -> Seq<char> {
        self.namespace + decimal_text(self.issued as int)
    }

    /// After the next call is registered, with where its reply goes.
    pub open spec fn registered(self, reply: oneshot::Sender<Reply>) -> CorrelatorModel {
        CorrelatorModel {
            issued: successor(self.issued),
            calls: self.calls.insert(
                self.next_id(),
                CallModel { epoch: self.generation, sent: false, reply },
            ),
            ..self
        }
    }

    /// After a call is written to the socket.
    pub open spec fn marked(self, id: Seq<char>) -> CorrelatorModel {
        if self.calls.dom().contains(id) {
            CorrelatorModel {
                calls: self.calls.insert(id, CallModel { sent: true, ..self.calls[id] }),
                ..self
            }
        } else {
            self
        }
    }

    /// After a call is taken out of the table.
    pub open spec fn forgotten(self, id: Seq<char>) -> CorrelatorModel {
        CorrelatorModel { calls: self.calls.remove(id), ..self }
    }

    /// After the connection ends.
    pub open spec fn ended(self) -> CorrelatorModel {
        CorrelatorModel {
            generation: successor(self.generation),
            calls: Map::empty(),
            ..self
        }
    }

    /// Whether a call waits on this connection.
    pub open spec fn awaits(self, id: Seq<char>) -> bool {
        self.calls.dom().contains(id) && self.calls[id].epoch == self.generation
    }

    /// Whether a call waits that belongs to an earlier connection.
    pub open spec fn is_stale(self, id: Seq<char>) -> bool {
        self.calls.dom().contains(id) && self.calls[id].epoch != self.generation
    }
}

/// The calls that wait for their replies.
#[derive(Debug)]
pub struct Correlator {
    epoch: Epoch,
    next_id: u64,
    prefix: &'static str,
    pending: Assoc<Pending>,
}

/// What a caller is told when the server answers.
pub open spec fn told_of(outcome: Result<Json, DdpError>) -> Told {
    match outcome {
        Ok(value) => Told::Value(value),
        Err(error) => Told::Server(error),
    }
}

impl Pending {
    /// What the table says of the call.
    pub open spec fn view(&self) -> CallModel {
        CallModel { epoch: self.epoch.number(), sent: self.sent, reply: self.reply }
    }
}

impl Correlator {
    /// Whether the table is in order.
    pub closed spec fn wf(&self) -> bool {
        self.pending.wf()
    }

    /// What the table is.
    pub closed spec fn view(&self) -> CorrelatorModel {
        CorrelatorModel {
            generation: self.epoch.number(),
            issued: self.next_id,
            namespace: self.prefix@,
            calls: self.pending.view().map_values(|p: Pending| p@),
        }
    }

    /// An empty table whose ids carry a prefix.
    pub fn new(prefix: &'static str) -> (r: Correlator)
        ensures
            r.wf(),
            r@ == (CorrelatorModel {
                generation: 0,
                issued: 0,
                namespace: prefix@,
                calls: Map::empty(),
            }),
    {
        let table = Correlator { epoch: Epoch::first(), next_id: 0, prefix, pending: Assoc::new() };
        proof {
            assert(table@.calls =~= Map::<Seq<char>, CallModel>::empty());
        }
        table
    }

    /// The current generation.
    pub fn epoch(&self) -> (r: Epoch)
        ensures
            r.number() == self@.generation,
    {
        self.epoch
    }

    /// How many calls wait.
    pub fn pending(&self) -> (r: usize)
        requires
            self.wf(),
        ensures
            r == self@.calls.dom().len(),
    {
        proof {
            assert(self@.calls.dom() =~= self.pending.view().dom());
        }
        self.pending.len()
    }

    /// Registers a call, returning its id and where its reply will arrive. The id is the prefix
    /// and a number that has not been used.
    pub fn register(&mut self) -> (r: (String, oneshot::Receiver<Reply>))
        requires
            old(self).wf(),
        ensures
            final(self).wf(),
            r.0@ == old(self)@.next_id(),
            final(self)@ == old(self)@.registered(sender_of(r.1)),
    {
        let id = concat(self.prefix, decimal_u64(self.next_id).as_str());
        self.next_id = if self.next_id == u64::MAX {
            0
        } else {
            self.next_id + 1
        };
        let (reply, receiver) = reply_channel();
        let _ = self.pending.insert(
            id.clone(),
            Pending { epoch: self.epoch, sent: false, reply },
        );
        proof {
            assert(self@.calls =~= old(self)@.registered(reply).calls);
        }
        (id, receiver)
    }

    /// Marks a call as written to the socket. To be called after the write succeeded, never
    /// before.
    pub fn mark_sent(&mut self, id: &str)
        requires
            old(self).wf(),
        ensures
            final(self).wf(),
            final(self)@ == old(self)@.marked(id@),
    {
        match self.pending.remove(id) {
            Some(pending) => {
                let _ = self.pending.insert(
                    id.to_owned(),
                    Pending { epoch: pending.epoch, sent: true, reply: pending.reply },
                );
                proof {
                    assert(self@.calls =~= old(self)@.marked(id@).calls);
                }
            },
            None => {
                proof {
                    assert(self@.calls =~= old(self)@.calls);
                }
            },
        }
    }

    /// Forgets a call whose caller is gone. Nobody is told anything.
    pub fn cancel(&mut self, id: &str)
        requires
            old(self).wf(),
        ensures
            final(self).wf(),
            final(self)@ == old(self)@.forgotten(id@),
    {
        let _ = self.pending.remove(id);
        proof {
            assert(self@.calls =~= old(self)@.calls.remove(id@));
        }
    }

    /// Takes the call that a reply's id names out of the table, saying what its caller is told,
    /// where it waits on this connection.
    pub fn resolve(&mut self, id: &str, outcome: Result<Json, DdpError>) -> (r: Answer)
        requires
            old(self).wf(),
        ensures
            final(self).wf(),
            final(self)@ == old(self)@.forgotten(id@),
            match r {
                Answer::Unknown => !old(self)@.calls.dom().contains(id@),
                Answer::Stale => old(self)@.is_stale(id@),
                Answer::Deliver(delivery) => old(self)@.awaits(id@) && delivery@ == (
                DeliveryModel { id: id@, to: old(self)@.calls[id@].reply, told: told_of(outcome) }),
            },
    {
        let claimed = self.pending.remove(id);
        proof {
            assert(self@.calls =~= old(self)@.calls.remove(id@));
        }
        match claimed {
            None => Answer::Unknown,
            Some(pending) => if pending.epoch.0 != self.epoch.0 {
                Answer::Stale
            } else {
                let reply = match outcome {
                    Ok(value) => Ok(value),
                    Err(error) => Err(CallError::Server(error)),
                };
                Answer::Deliver(Delivery { id: id.to_owned(), to: pending.reply, reply })
            },
        }
    }

    /// Ends the current connection: empties the table, saying what each caller is told, and
    /// starts a new generation. Nothing is left in the table: a caller that awaits a reply which
    /// can never arrive would hang.
    pub fn disconnect(&mut self) -> (r: Vec<Delivery>)
        requires
            old(self).wf(),
        ensures
            final(self).wf(),
            final(self)@ == old(self)@.ended(),
            delivery_views(r@) == fates(old(self)@.calls),
            lists_fates(old(self)@.calls, delivery_views(r@)),
            r@.len() == old(self)@.calls.dom().len(),
    {
        let ghost calls = self@.calls;
        let ghost all = self.pending.listed();
        let mut out: Vec<Delivery> = Vec::new();
        proof {
            self.pending.lemma_listed();
            assert(calls.dom() =~= self.pending.view().dom());
        }
        let mut left: usize = self.pending.len();
        while left > 0
            invariant
                self.pending.wf(),
                self.epoch == old(self).epoch,
                self.prefix == old(self).prefix,
                self.next_id == old(self).next_id,
                left <= all.len(),
                self.pending.listed() == all.take(left as int),
                out@.len() + left == all.len(),
                forall|i: int|
                    0 <= i < out@.len() ==> (#[trigger] out@[i])@ == fate(
                        all[all.len() - 1 - i].0@,
                        all[all.len() - 1 - i].1@,
                    ),
            decreases left,
        {
            match self.pending.pop() {
                Some((id, pending)) => {
                    let ghost n = left - 1;
                    proof {
                        assert(all.take(left as int).last() == all[n]);
                        assert(all.take(left as int).drop_last() =~= all.take(n));
                    }
                    let error = if pending.sent {
                        CallError::Abandoned { id: id.clone() }
                    } else {
                        CallError::NotSent
                    };
                    out.push(Delivery { id, to: pending.reply, reply: Err(error) });
                    left -= 1;
                },
                None => {},
            }
        }
        self.epoch = self.epoch.next();
        proof {
            let list = delivery_views(out@);
            let count = all.len() as int;
            assert(self@.calls =~= Map::<Seq<char>, CallModel>::empty()) by {
                self.pending.lemma_listed();
            }
            assert forall|i: int| 0 <= i < list.len() implies #[trigger] list[i] == fate(
                all[count - 1 - i].0@,
                all[count - 1 - i].1@,
            ) by {
                assert(list[i] == out@[i]@);
            }
            assert forall|i: int, j: int| 0 <= i < j < list.len() implies before(
                (#[trigger] list[j]).id,
                (#[trigger] list[i]).id,
            ) by {
                assert(before(all[count - 1 - j].0@, all[count - 1 - i].0@));
            }
            assert forall|i: int| 0 <= i < list.len() implies calls.dom().contains(
                (#[trigger] list[i]).id,
            ) && list[i] == fate(list[i].id, calls[list[i].id]) by {
                let entry = all[count - 1 - i];
                assert(old(self).pending.view().dom().contains(entry.0@));
            }
            assert forall|id: Seq<char>| #[trigger] calls.dom().contains(id) implies exists|i: int|
                0 <= i < list.len() && (#[trigger] list[i]).id == id by {
                assert(old(self).pending.view().dom().contains(id));
                let k = choose|k: int| 0 <= k < all.len() && (#[trigger] all[k]).0@ == id;
                assert(list[count - 1 - k].id == id);
            }
            lemma_fates(calls, list);
        }
        out
    }
}

/// When a connection ends, every caller that waits is told one thing: that the call was
/// abandoned, with its own id, where its frame was written, and that it was not sent otherwise.
pub proof fn law_every_waiter_is_told_its_fate(
    table: CorrelatorModel,
    list: Seq<DeliveryModel>,
    id: Seq<char>,
)
    requires
        lists_fates(table.calls, list),
        table.calls.dom().contains(id),
    ensures
        exists|i: int|
            0 <= i < list.len() && (#[trigger] list[i]).id == id && list[i].to
                == table.calls[id].reply && list[i].told == (if table.calls[id].sent {
                Told::Abandoned(id)
            } else {
                Told::NotSent
            }),
        forall|i: int, j: int|
            0 <= i < list.len() && 0 <= j < list.len() && (#[trigger] list[i]).id == id && (
            #[trigger] list[j]).id == id ==> i == j,
{
    let i = choose|i: int| 0 <= i < list.len() && (#[trigger] list[i]).id == id;
    assert(list[i] == fate(list[i].id, table.calls[list[i].id]));
    lemma_before_irreflexive(id);
}

/// A caller keeps its channel from registering to the end: whatever other calls are registered,
/// written or answered meanwhile, its own is told on the channel that it was given.
pub proof fn law_a_channel_stays_with_its_call(
    table: CorrelatorModel,
    id: Seq<char>,
    other: Seq<char>,
    reply: oneshot::Sender<Reply>,
)
    requires
        table.calls.dom().contains(id),
        id != other,
        id != table.next_id(),
    ensures
        table.registered(reply).calls.dom().contains(id),
        table.registered(reply).calls[id] == table.calls[id],
        table.marked(id).calls[id].reply == table.calls[id].reply,
        table.marked(other).calls.dom().contains(id),
        table.marked(other).calls[id] == table.calls[id],
        table.forgotten(other).calls.dom().contains(id),
        table.forgotten(other).calls[id] == table.calls[id],
{
}

/// Two calls never get the same id, as long as the numbers do not start over.
pub proof fn law_ids_are_unique(prefix: Seq<char>, a: nat, b: nat)
    requires
        a != b,
    ensures
        prefix + decimal_text(a as int) != prefix + decimal_text(b as int),
{
    lemma_decimal_value(a);
    lemma_decimal_value(b);
    let x = prefix + decimal_text(a as int);
    let y = prefix + decimal_text(b as int);
    if x == y {
        let n = prefix.len() as int;
        assert(x.subrange(n, x.len() as int) =~= decimal_digits(a));
        assert(y.subrange(n, y.len() as int) =~= decimal_digits(b));
    }
}

/// Ids with different one-character prefixes never collide: the id of a call is never that of
/// a subscription.
pub proof fn law_namespaces_are_apart(p: char, q: char, a: nat, b: nat)
    requires
        p != q,
    ensures
        seq![p] + decimal_text(a as int) != seq![q] + decimal_text(b as int),
{
    assert((seq![p] + decimal_text(a as int))[0] == p);
    assert((seq![q] + decimal_text(b as int))[0] == q);
}

/// The table, call by call: a call that is registered waits under the prefix and the next number,
/// unwritten, on this connection and on the channel it was given; one that is written is marked so
/// and nothing else; one that is taken out is gone; and when the connection ends all are.
pub proof fn law_the_table_of_calls(
    table: CorrelatorModel,
    reply: oneshot::Sender<Reply>,
    id: Seq<char>,
    other: Seq<char>,
)
    requires
        table.issued < u64::MAX,
    ensures
        ({
            let next = table.registered(reply);
            let new = table.namespace + decimal_text(table.issued as int);
            &&& next.calls.dom().contains(new)
            &&& next.calls[new] == (CallModel { epoch: table.generation, sent: false, reply })
            &&& next.issued == table.issued + 1
            &&& next.generation == table.generation
            &&& next.namespace == table.namespace
            &&& table.next_id() == new
            &&& other != new ==> (next.calls.dom().contains(other) <==> table.calls.dom().contains(
                other,
            )) && next.calls[other] == table.calls[other]
        }),
        table.calls.dom().contains(id) ==> table.marked(id).calls[id] == (CallModel {
            sent: true,
            ..table.calls[id]
        }),
        table.marked(id).calls.dom() == table.calls.dom(),
        table.marked(id).issued == table.issued,
        !table.forgotten(id).calls.dom().contains(id),
        table.forgotten(id).issued == table.issued,
        table.forgotten(id).generation == table.generation,
        table.ended().calls.dom() == Set::<Seq<char>>::empty(),
        table.ended().issued == table.issued,
        table.ended().namespace == table.namespace,
        table.generation < u64::MAX ==> table.ended().generation == table.generation + 1,
        table.awaits(id) <==> table.calls.dom().contains(id) && table.calls[id].epoch
            == table.generation,
        table.is_stale(id) <==> table.calls.dom().contains(id) && table.calls[id].epoch
            != table.generation,
{
    assert(table.marked(id).calls.dom() =~= table.calls.dom());
    assert(table.ended().calls.dom() =~= Set::<Seq<char>>::empty());
}

/// What a reply tells: the value or the error as they came, and each way of losing a call as
/// itself.
pub proof fn law_what_a_reply_tells(value: Json, error: DdpError, id: String)
    ensures
        told_by(Ok(value)) == Told::Value(value),
        told_by(Err(CallError::Server(error))) == Told::Server(error),
        told_by(Err(CallError::NotSent)) == Told::NotSent,
        told_by(Err(CallError::Abandoned { id })) == Told::Abandoned(id@),
        told_of(Ok(value)) == Told::Value(value),
        told_of(Err(error)) == Told::Server(error),
{
}

} // verus!

//! Waiting inline for a future event.
//!
//! "Post a question, then wait for that user to answer in that room" is awkward to write against
//! a stream of events. A [`Standby`] holds predicates: the application offers it every event, and
//! the first waiter whose predicate holds gets the event. The channels themselves belong to the
//! application, which makes them, sees whether they are closed, and sends on them.
use crate::realtime::client::ClientEvent;
use tokio::sync::oneshot;
use vstd::prelude::*;
use vstd::string::*;

verus! {

/// Why a wait ended without an event.
#[derive(Debug, Clone, Copy, PartialEq, Eq, Structural)]
pub enum Canceled {
    /// The registry was dropped, or the connection ended, before anything matched.
    Dropped,
}

impl Canceled {
    /// The reason for a log line.
    pub fn to_text(&self) -> (r: &'static str)
        ensures
            r@ == "no matching event arrived before the stream ended"@,
    {
        "no matching event arrived before the stream ended"
    }
}

/// What a wait ends in: an event, or nothing where its sender is gone.
pub fn wait_outcome(received: Option<ClientEvent>) -> (r: Result<ClientEvent, Canceled>)
    ensures
        r == (match received {
            Some(event) => Ok::<ClientEvent, Canceled>(event),
            None => Err(Canceled::Dropped),
        }),
{
    match received {
        Some(event) => Ok(event),
        None => Err(Canceled::Dropped),
    }
}

/// Someone who waits for an event.
pub struct Waiter<F> {
    /// Whether an event is the one.
    pub predicate: F,
    /// Where the event goes.
    pub sender: oneshot::Sender<ClientEvent>,
}

/// The predicates that wait for an event, in the order in which they were registered.
pub struct Standby<F> {
    waiters: Vec<Waiter<F>>,
}

/// Those who wait, without the ones that are gone.
pub open spec fn staying<F>(waiters: Seq<Waiter<F>>, gone: Seq<bool>) -> Seq<Waiter<F>>
    decreases waiters.len(),
{
    if waiters.len() == 0 {
        waiters
    } else if gone[waiters.len() - 1] {
        staying(waiters.drop_last(), gone)
    } else {
        staying(waiters.drop_last(), gone).push(waiters.last())
    }
}

/// Whether every predicate can be asked about an event.
pub open spec fn askable<F: Fn(&ClientEvent) -> bool>(
    waiters: Seq<Waiter<F>>,
    event: &ClientEvent,
) -> bool {
    forall|i: int|
        0 <= i < waiters.len() ==> call_requires((#[trigger] waiters[i]).predicate, (event,))
}

/// Whether the first `n` who wait said no to an event.
pub open spec fn declined<F: Fn(&ClientEvent) -> bool>(
    waiters: Seq<Waiter<F>>,
    event: &ClientEvent,
    n: int,
) -> bool {
    forall|i: int|
        0 <= i < n ==> call_ensures((#[trigger] waiters[i]).predicate, (event,), false)
}

/// Whether the waiter at a position is the first that an event is for.
pub open spec fn wins<F: Fn(&ClientEvent) -> bool>(
    waiters: Seq<Waiter<F>>,
    event: &ClientEvent,
    at: int,
) -> bool {
    &&& 0 <= at < waiters.len()
    &&& call_ensures(waiters[at].predicate, (event,), true)
    &&& declined(waiters, event, at)
}

impl<F: Fn(&ClientEvent) -> bool> Standby<F> {
    /// Those who wait, in order.
    pub closed spec fn waiting(&self) -> Seq<Waiter<F>> {
        self.waiters@
    }

    /// An empty registry.
    pub fn new() -> (r: Standby<F>)
        ensures
            r.waiting().len() == 0,
    {
        Standby { waiters: Vec::new() }
    }

    /// How many wait.
    pub fn pending(&self) -> (r: usize)
        ensures
            r == self.waiting().len(),
    {
        self.waiters.len()
    }

    /// Registers a predicate after all others, with where its event goes.
    pub fn wait_for(&mut self, predicate: F, sender: oneshot::Sender<ClientEvent>)
        ensures
            final(self).waiting() == old(self).waiting().push(Waiter { predicate, sender }),
    {
        self.waiters.push(Waiter { predicate, sender });
    }

    /// Where the event of someone who waits goes.
    pub fn sender(&self, at: usize) -> (r: &oneshot::Sender<ClientEvent>)
        requires
            at < self.waiting().len(),
        ensures
            *r == self.waiting()[at as int].sender,
    {
        &self.waiters[at].sender
    }

    /// Drops those who are gone. The others keep their order.
    pub fn retain(&mut self, gone: &Vec<bool>)
        requires
            gone@.len() == old(self).waiting().len(),
        ensures
            final(self).waiting() == staying(old(self).waiting(), gone@),
    {
        let mut before: Vec<Waiter<F>> = Vec::new();
        core::mem::swap(&mut before, &mut self.waiters);
        let ghost all = before@;
        let mut i: usize = before.len();
        let mut kept: Vec<Waiter<F>> = Vec::new();
        // Taken from the back, so that nothing is shifted; turned round afterwards.
        while i > 0
            invariant
                i == before@.len(),
                i <= all.len(),
                before@ == all.take(i as int),
                gone@.len() == all.len(),
                staying(all, gone@) == staying(before@, gone@) + kept@.reverse(),
            decreases i,
        {
            let ghost rest = before@;
            let ghost was = kept@;
            match before.pop() {
                Some(waiter) => {
                    i -= 1;
                    proof {
                        assert(before@ =~= rest.drop_last());
                        assert(before@ =~= all.take(i as int));
                    }
                    if !gone[i] {
                        kept.push(waiter);
                        proof {
                            assert(kept@.reverse() =~= seq![waiter] + was.reverse());
                            assert(staying(before@, gone@).push(waiter) + was.reverse()
                                =~= staying(before@, gone@) + kept@.reverse());
                        }
                    }
                },
                None => {},
            }
        }
        proof {
            assert(before@.len() == 0);
            assert(staying(all, gone@) =~= kept@.reverse());
        }
        let ghost turned = kept@;
        while kept.len() > 0
            invariant
                self.waiters@ + kept@.reverse() == turned.reverse(),
            decreases kept@.len(),
        {
            let ghost left = kept@;
            let ghost put = self.waiters@;
            match kept.pop() {
                Some(waiter) => {
                    self.waiters.push(waiter);
                    proof {
                        assert(left.reverse() =~= seq![waiter] + kept@.reverse());
                        assert(put + left.reverse() =~= self.waiters@ + kept@.reverse());
                    }
                },
                None => {},
            }
        }
        proof {
            assert(self.waiters@ =~= turned.reverse());
        }
    }

    /// Takes out the first who waits for an event, in the order of registration. The others
    /// keep their order: which one wins must not depend on unrelated events.
    pub fn claim(&mut self, event: &ClientEvent) -> (r: Option<oneshot::Sender<ClientEvent>>)
        requires
            askable(old(self).waiting(), event),
        ensures
            match r {
                Some(sender) => exists|at: int| #[trigger]
                    wins(old(self).waiting(), event, at) && sender == old(
                        self,
                    ).waiting()[at].sender && final(self).waiting() == old(
                        self,
                    ).waiting().remove(at),
                None => declined(
                    old(self).waiting(),
                    event,
                    old(self).waiting().len() as int,
                ) && final(self).waiting() == old(self).waiting(),
            },
    {
        let mut i: usize = 0;
        while i < self.waiters.len()
            invariant
                i <= self.waiters@.len(),
                self.waiters@ == old(self).waiters@,
                askable(self.waiters@, event),
                declined(self.waiters@, event, i as int),
            decreases self.waiters@.len() - i,
        {
            assert(call_requires(self.waiters@[i as int].predicate, (event,)));
            if (self.waiters[i].predicate)(event) {
                let waiter = self.waiters.remove(i);
                assert(wins(old(self).waiting(), event, i as int));
                return Some(waiter.sender);
            }
            i += 1;
        }
        None
    }

    /// Offers an event to those who wait, saying who is handed it, if anyone. Those whose caller
    /// went away are dropped first.
    pub fn offer(&mut self, event: ClientEvent, gone: &Vec<bool>) -> (r: Option<
        (oneshot::Sender<ClientEvent>, ClientEvent),
    >)
        requires
            gone@.len() == old(self).waiting().len(),
            askable(old(self).waiting(), &event),
        ensures
            match r {
                Some((to, e)) => e == event && exists|at: int| #[trigger]
                    wins(staying(old(self).waiting(), gone@), &event, at) && to == staying(
                        old(self).waiting(),
                        gone@,
                    )[at].sender && final(self).waiting() == staying(
                        old(self).waiting(),
                        gone@,
                    ).remove(at),
                None => declined(
                    staying(old(self).waiting(), gone@),
                    &event,
                    staying(old(self).waiting(), gone@).len() as int,
                ) && final(self).waiting() == staying(old(self).waiting(), gone@),
            },
    {
        self.retain(gone);
        proof {
            lemma_staying_askable(old(self).waiting(), gone@, &event);
        }
        match self.claim(&event) {
            Some(to) => Some((to, event)),
            None => None,
        }
    }
}

proof fn lemma_staying_askable<F: Fn(&ClientEvent) -> bool>(
    waiters: Seq<Waiter<F>>,
    gone: Seq<bool>,
    event: &ClientEvent,
)
    requires
        askable(waiters, event),
    ensures
        askable(staying(waiters, gone), event),
    decreases waiters.len(),
{
    if waiters.len() > 0 {
        let rest = waiters.drop_last();
        assert forall|i: int| 0 <= i < rest.len() implies call_requires(
            (#[trigger] rest[i]).predicate,
            (event,),
        ) by {
            assert(rest[i] == waiters[i]);
        }
        lemma_staying_askable(rest, gone, event);
        let kept = staying(rest, gone);
        assert forall|i: int| 0 <= i < staying(waiters, gone).len() implies call_requires(
            (#[trigger] staying(waiters, gone)[i]).predicate,
            (event,),
        ) by {
            if i < kept.len() {
                assert(staying(waiters, gone)[i] == kept[i]);
            } else {
                assert(staying(waiters, gone)[i] == waiters[waiters.len() - 1]);
            }
        }
    }
}

/// Only the first match wins: where every predicate is decided, an event is for one waiter and no
/// other.
pub proof fn law_only_the_first_match_wins<F: Fn(&ClientEvent) -> bool>(
    waiters: Seq<Waiter<F>>,
    event: &ClientEvent,
    a: int,
    b: int,
)
    requires
        forall|i: int|
            0 <= i < waiters.len() ==> !(call_ensures(
                (#[trigger] waiters[i]).predicate,
                (event,),
                true,
            ) && call_ensures(waiters[i].predicate, (event,), false)),
        wins(waiters, event, a),
        wins(waiters, event, b),
    ensures
        a == b,
{
    if a < b {
        assert(call_ensures(waiters[a].predicate, (event,), false));
    }
    if b < a {
        assert(call_ensures(waiters[b].predicate, (event,), false));
    }
}

/// Those who stay are those who are not gone, in their order.
pub proof fn law_those_who_stay_keep_their_order<F>(
    waiters: Seq<Waiter<F>>,
    last: Waiter<F>,
    gone: Seq<bool>,
)
    requires
        gone.len() > waiters.len(),
    ensures
        staying(Seq::<Waiter<F>>::empty(), gone) == Seq::<Waiter<F>>::empty(),
        gone[waiters.len() as int] ==> staying(waiters.push(last), gone) == staying(waiters, gone),
        !gone[waiters.len() as int] ==> staying(waiters.push(last), gone) == staying(
            waiters,
            gone,
        ).push(last),
{
    assert(waiters.push(last).drop_last() =~= waiters);
}

/// The winner said yes, and everyone before it said no.
pub proof fn law_who_wins<F: Fn(&ClientEvent) -> bool>(
    waiters: Seq<Waiter<F>>,
    event: &ClientEvent,
    at: int,
    before: int,
)
    requires
        wins(waiters, event, at),
    ensures
        0 <= at < waiters.len(),
        call_ensures(waiters[at].predicate, (event,), true),
        0 <= before < at ==> call_ensures(waiters[before].predicate, (event,), false),
{
    if 0 <= before < at {
        assert(call_ensures((waiters[before]).predicate, (event,), false));
    }
}

} // verus!

//! When a silent connection is probed, and when it is given up.
//!
//! The keepalive of the protocol is a `ping` and a `pong` inside text frames. A ping of the
//! socket layer says nothing of the server above it.
use crate::realtime::clock::{
    duration_nanos, expressible, from_secs, instant_nanos, later_by, nanos_of, since,
};
use core::time::Duration;
use std::time::Instant;
use vstd::prelude::*;

verus! {

/// What the policy wants next.
#[derive(Debug, Clone, Copy, PartialEq, Eq, Structural)]
pub enum Liveness {
    /// The connection has been active recently enough.
    Healthy,
    /// Silent long enough to be worth probing: send a `ping`.
    SendPing,
    /// Silent past the deadline: tear the connection down and reconnect.
    Dead,
}

/// Tracks how long a connection has been silent.
#[derive(Debug, Clone, Copy)]
pub struct LivenessPolicy {
    idle_before_ping: Duration,
    idle_before_dead: Duration,
    last_seen: Instant,
    ping_in_flight: bool,
}

/// What a [`LivenessPolicy`] is; times in nanoseconds.
pub struct LivenessModel {
    /// The silence after which the connection is probed.
    pub ping_after: nat,
    /// The silence after which it is given up.
    pub dead_after: nat,
    /// When traffic was last seen.
    pub last_seen: int,
    /// Whether a probe is unanswered.
    pub probed: bool,
}

impl LivenessModel {
    /// How long the connection has been silent.
    pub open spec fn idle(self, now: int) -> nat {
        if now >= self.last_seen {
            (now - self.last_seen) as nat
        } else {
            0
        }
    }

    /// What a poll answers. Death wins over a probe, and a silent stretch is probed once.
    pub open spec fn answer(self, now: int) -> Liveness {
        if self.idle(now) >= self.dead_after {
            Liveness::Dead
        } else if self.idle(now) >= self.ping_after && !self.probed {
            Liveness::SendPing
        } else {
            Liveness::Healthy
        }
    }

    /// The silence at which a poll could change its answer: the coming threshold, or the
    /// silence so far where that is longer.
    pub open spec fn patience(self, now: int) -> nat {
        let target = if self.probed {
            self.dead_after
        } else {
            self.ping_after
        };
        if target >= self.idle(now) {
            target
        } else {
            self.idle(now)
        }
    }

    /// When the next poll could change the answer.
    pub open spec fn due(self, now: int) -> int {
        self.last_seen + self.patience(now)
    }

    /// The state after a poll.
    pub open spec fn polled(self, now: int) -> LivenessModel {
        LivenessModel { probed: self.probed || self.answer(now) == Liveness::SendPing, ..self }
    }
}

/// The silence after which a connection is probed, unless set otherwise.
pub fn default_ping_after() -> (r: Duration)
    ensures
        duration_nanos(r) == 25_000_000_000,
{
    from_secs(25)
}

/// The silence after which a connection is given up, unless set otherwise.
pub fn default_dead_after() -> (r: Duration)
    ensures
        duration_nanos(r) == 45_000_000_000,
{
    from_secs(45)
}

impl View for LivenessPolicy {
    type V = LivenessModel;

    closed spec fn view(&self) -> LivenessModel {
        LivenessModel {
            ping_after: duration_nanos(self.idle_before_ping),
            dead_after: duration_nanos(self.idle_before_dead),
            last_seen: instant_nanos(self.last_seen),
            probed: self.ping_in_flight,
        }
    }
}

impl LivenessPolicy {
    /// The deadline leaves time for a probe to be answered.
    #[verifier::type_invariant]
    closed spec fn ordered(self) -> bool {
        duration_nanos(self.idle_before_dead) > duration_nanos(self.idle_before_ping)
    }

    /// A policy with the default thresholds, starting from `now`.
    pub fn new(now: Instant) -> (r: LivenessPolicy)
        ensures
            r@ == (LivenessModel {
                ping_after: 25_000_000_000,
                dead_after: 45_000_000_000,
                last_seen: instant_nanos(now),
                probed: false,
            }),
    {
        LivenessPolicy::with_thresholds(default_ping_after(), default_dead_after(), now)
    }

    /// A policy with explicit thresholds. The deadline must leave time for a probe to be
    /// answered, or every connection would be declared dead.
    pub fn with_thresholds(
        idle_before_ping: Duration,
        idle_before_dead: Duration,
        now: Instant,
    ) -> (r: LivenessPolicy)
        requires
            duration_nanos(idle_before_dead) > duration_nanos(idle_before_ping),
        ensures
            r@ == (LivenessModel {
                ping_after: duration_nanos(idle_before_ping),
                dead_after: duration_nanos(idle_before_dead),
                last_seen: instant_nanos(now),
                probed: false,
            }),
    {
        LivenessPolicy { idle_before_ping, idle_before_dead, last_seen: now, ping_in_flight: false }
    }

    /// A policy with explicit thresholds; none where the deadline leaves no time for a probe
    /// to be answered.
    pub fn try_with_thresholds(
        idle_before_ping: Duration,
        idle_before_dead: Duration,
        now: Instant,
    ) -> (r: Option<LivenessPolicy>)
        ensures
            r is Some <==> duration_nanos(idle_before_dead) > duration_nanos(idle_before_ping),
            r matches Some(p) ==> p@ == (LivenessModel {
                ping_after: duration_nanos(idle_before_ping),
                dead_after: duration_nanos(idle_before_dead),
                last_seen: instant_nanos(now),
                probed: false,
            }),
    {
        if nanos_of(idle_before_dead) > nanos_of(idle_before_ping) {
            Some(LivenessPolicy::with_thresholds(idle_before_ping, idle_before_dead, now))
        } else {
            None
        }
    }

    /// Records inbound traffic. Every frame counts, not just a `pong`.
    pub fn saw_traffic(&mut self, now: Instant)
        ensures
            final(self)@ == (LivenessModel {
                last_seen: instant_nanos(now),
                probed: false,
                ..old(self)@
            }),
    {
        proof {
            use_type_invariant(&*self);
        }
        self.last_seen = now;
        self.ping_in_flight = false;
    }

    /// How long the connection has been silent.
    pub fn idle_for(&self, now: Instant) -> (r: Duration)
        ensures
            duration_nanos(r) == self@.idle(instant_nanos(now)),
    {
        since(now, self.last_seen)
    }

    /// Classifies the connection, and marks a probe as sent when it asks for one.
    pub fn poll(&mut self, now: Instant) -> (r: Liveness)
        ensures
            r == old(self)@.answer(instant_nanos(now)),
            final(self)@ == old(self)@.polled(instant_nanos(now)),
    {
        proof {
            use_type_invariant(&*self);
        }
        let idle: u128 = nanos_of(self.idle_for(now));
        if idle >= nanos_of(self.idle_before_dead) {
            return Liveness::Dead;
        }
        if idle >= nanos_of(self.idle_before_ping) && !self.ping_in_flight {
            self.ping_in_flight = true;
            return Liveness::SendPing;
        }
        Liveness::Healthy
    }

    /// The silence at which the next poll could change the answer.
    pub fn patience(&self, now: Instant) -> (r: Duration)
        ensures
            duration_nanos(r) == self@.patience(instant_nanos(now)),
    {
        let target = if self.ping_in_flight {
            self.idle_before_dead
        } else {
            self.idle_before_ping
        };
        let idle = self.idle_for(now);
        if nanos_of(target) >= nanos_of(idle) {
            target
        } else {
            idle
        }
    }

    /// When the next poll could change the answer: `now` where the connection is already past
    /// the threshold. None exactly where the clock cannot express that point.
    pub fn next_deadline(&self, now: Instant) -> (r: Option<Instant>)
        ensures
            r is Some <==> expressible(self@.due(instant_nanos(now))),
            self@.due(instant_nanos(now)) == instant_nanos(now) ==> r is Some,
            r matches Some(at) ==> instant_nanos(at) == self@.due(instant_nanos(now)),
            r matches Some(at) ==> self@.probed || self@.ping_after > 0 || instant_nanos(now)
                >= self@.last_seen ==> is_earliest(self@, instant_nanos(now), instant_nanos(at)),
    {
        proof {
            use_type_invariant(self);
            if self@.probed || self@.ping_after > 0 || instant_nanos(now) >= self@.last_seen {
                law_the_deadline_is_the_earliest(self@, instant_nanos(now));
            }
        }
        later_by(self.last_seen, self.patience(now))
    }
}

/// Whether a time is the earliest, from `now` on, at which a poll has something to report.
pub open spec fn is_earliest(policy: LivenessModel, now: int, at: int) -> bool {
    &&& at >= now
    &&& forall|u: int| now <= u < at ==> #[trigger] policy.answer(u) == Liveness::Healthy
    &&& policy.answer(at) != Liveness::Healthy
}

/// The deadline is the earliest time from now on at which a poll has something to report, and it
/// is now where the connection is already overdue. A connection that is probed after no silence
/// at all is overdue even before its last traffic.
pub proof fn law_the_deadline_is_the_earliest(policy: LivenessModel, now: int)
    requires
        policy.ping_after < policy.dead_after,
        policy.probed || policy.ping_after > 0 || now >= policy.last_seen,
    ensures
        is_earliest(policy, now, policy.due(now)),
{
}

/// A silent stretch is probed at most once: after a poll that asked for a probe, no later poll
/// asks for another until traffic is seen.
pub proof fn law_one_probe_per_silence(policy: LivenessModel, first: int, later: int)
    requires
        policy.answer(first) == Liveness::SendPing,
    ensures
        policy.polled(first).answer(later) != Liveness::SendPing,
        policy.polled(first).polled(later).probed,
{
}

/// Death wins over a probe: past the deadline the answer is `Dead`, probed or not.
pub proof fn law_death_wins(policy: LivenessModel, now: int)
    requires
        policy.idle(now) >= policy.dead_after,
    ensures
        policy.answer(now) == Liveness::Dead,
        policy.polled(now) == policy,
{
}

/// Traffic rearms the probe: a connection that falls silent again is probed again.
pub proof fn law_traffic_rearms(policy: LivenessModel, seen: int, now: int)
    requires
        policy.ping_after <= now - seen < policy.dead_after,
    ensures
        (LivenessModel { last_seen: seen, probed: false, ..policy }).answer(now)
            == Liveness::SendPing,
{
}

/// What a poll answers, by how long the connection has been silent.
pub proof fn law_what_a_poll_answers(policy: LivenessModel, now: int)
    requires
        now >= policy.last_seen,
        policy.ping_after < policy.dead_after,
    ensures
        policy.answer(now) == Liveness::Dead <==> now - policy.last_seen >= policy.dead_after,
        policy.answer(now) == Liveness::SendPing <==> policy.ping_after <= now - policy.last_seen
            < policy.dead_after && !policy.probed,
        policy.answer(now) == Liveness::Healthy <==> now - policy.last_seen < policy.ping_after || (
        now - policy.last_seen < policy.dead_after && policy.probed),
        policy.idle(now) == now - policy.last_seen,
        policy.polled(now).last_seen == policy.last_seen,
        policy.polled(now).ping_after == policy.ping_after,
        policy.polled(now).dead_after == policy.dead_after,
{
}

/// A clock that runs backwards counts as no silence.
pub proof fn law_no_silence_before_the_last_traffic(policy: LivenessModel, now: int)
    requires
        now <= policy.last_seen,
    ensures
        policy.idle(now) == 0,
{
}

/// The next deadline is the coming threshold after the last traffic, or now where that has passed.
pub proof fn law_where_the_deadline_lies(policy: LivenessModel, now: int)
    requires
        now >= policy.last_seen,
    ensures
        policy.probed ==> policy.due(now) == (if now <= policy.last_seen + policy.dead_after {
            policy.last_seen + policy.dead_after
        } else {
            now
        }),
        !policy.probed ==> policy.due(now) == (if now <= policy.last_seen + policy.ping_after {
            policy.last_seen + policy.ping_after
        } else {
            now
        }),
{
}

} // verus!

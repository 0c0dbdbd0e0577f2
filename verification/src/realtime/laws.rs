//! What holds of a connection from the outside: what is written and in which order, who is told
//! what, and how a connection begins and ends.
use crate::model::json::{array_view, Json, JsonView};
use crate::model::protocol::{DdpError, ServerMessage};
use crate::model::wire::{with, with_some};
use crate::realtime::connection::{
    all_marked, closing_text, credential_text, is_delay, is_moved, is_new, is_resumed, is_taken,
    login_params, outcome_of, state_of, Ask, Command, Config, ConnectionState, Credential, Event,
    Frame, Mark, MarkModel, Move, Notice, NoticeModel, OutboundModel, Outcome, OutcomeModel,
    Progress, Request, RequestModel, RunnerModel, Step,
};
use crate::realtime::backoff::{drawn, law_window_is_capped, window_of, BackoffModel};
use crate::realtime::clock::{duration_nanos, expressible};
use crate::realtime::correlate::{fates, sender_of, CorrelatorModel, DeliveryModel, Reply, Told};
use crate::realtime::liveness::{Liveness, LivenessModel};
use crate::realtime::session::{Fatal, FatalModel, Phase};
use crate::text::{debug_quoted, decimal_text};
use tokio::sync::oneshot;
use vstd::prelude::*;
use vstd::string::*;

verus! {

/// The frames of callers are written first in, first out. A frame that joins the lane comes after
/// every frame that can be written already, and comes next where there is none.
pub proof fn law_callers_are_served_in_order(
    m: RunnerModel,
    frame: JsonView,
    mark: Option<MarkModel>,
)
    ensures
        m.can_write() ==> m.queued(frame, mark).can_write() && m.queued(frame, mark).next_frame()
            == m.next_frame() && m.queued(frame, mark).taken() == m.taken().queued(frame, mark),
        m.session.phase == Phase::Ready && m.priority.len() == 0 && m.app.len() == 0
            ==> m.queued(frame, mark).can_write() && m.queued(frame, mark).next_frame() == (
        OutboundModel { frame, mark }) && m.queued(frame, mark).taken() == m,
{
    if m.can_write() {
        if m.priority.len() == 0 {
            assert(m.queued(frame, mark).taken().app =~= m.taken().queued(frame, mark).app);
        }
    } else if m.priority.len() == 0 && m.app.len() == 0 {
        assert(m.queued(frame, mark).taken().app =~= m.app);
    }
}

/// Two calls go out in the order in which they were made.
pub proof fn law_the_earlier_call_goes_out_first(
    m: RunnerModel,
    a: JsonView,
    first: Option<MarkModel>,
    b: JsonView,
    second: Option<MarkModel>,
)
    requires
        m.session.phase == Phase::Ready,
        m.priority.len() == 0,
        m.app.len() == 0,
    ensures
        m.queued(a, first).queued(b, second).next_frame() == (OutboundModel {
            frame: a,
            mark: first,
        }),
        m.queued(a, first).queued(b, second).taken().next_frame() == (OutboundModel {
            frame: b,
            mark: second,
        }),
        m.queued(a, first).queued(b, second).taken().taken() == m,
{
    law_callers_are_served_in_order(m, a, first);
    law_callers_are_served_in_order(m.queued(a, first), b, second);
    law_callers_are_served_in_order(m, b, second);
}

/// The frames of the protocol are written first in, first out, and before every caller's: one
/// that joins the lane comes after those of the protocol that wait, and comes next where none
/// does, whoever else waits and in every phase.
pub proof fn law_the_protocol_is_served_first(
    m: RunnerModel,
    frame: JsonView,
    mark: Option<MarkModel>,
)
    ensures
        m.first(frame, mark).can_write(),
        m.priority.len() > 0 ==> m.first(frame, mark).next_frame() == m.next_frame() && m.first(
            frame,
            mark,
        ).taken() == m.taken().first(frame, mark),
        m.priority.len() == 0 ==> m.first(frame, mark).next_frame() == (OutboundModel {
            frame,
            mark,
        }) && m.first(frame, mark).taken() == m,
{
    if m.priority.len() > 0 {
        assert(m.first(frame, mark).taken().priority =~= m.taken().first(frame, mark).priority);
    } else {
        assert(m.first(frame, mark).taken().priority =~= m.priority);
    }
}

/// A caller's frame is held back until the login succeeded, and not longer.
pub proof fn law_callers_wait_for_the_login(m: RunnerModel)
    requires
        m.priority.len() == 0,
    ensures
        m.can_write() <==> m.session.phase == Phase::Ready && m.app.len() > 0,
{
}

/// A call whose caller heard its id is written as a method frame with that id, the method and the
/// parameters, after those that wait; nothing else changes.
pub proof fn law_a_call_is_written_as_it_was_made(
    m: RunnerModel,
    id: Seq<char>,
    method: Seq<char>,
    params: Seq<JsonView>,
)
    ensures
        ({
            let next = m.acknowledged(RequestModel::Call { id, method, params }, true);
            let frame = OutboundModel {
                frame: JsonView::Object(
                    if params.len() > 0 {
                        map![
                            "msg"@ => JsonView::String("method"@),
                            "id"@ => JsonView::String(id),
                            "method"@ => JsonView::String(method),
                            "params"@ => JsonView::Array(params),
                        ]
                    } else {
                        map![
                            "msg"@ => JsonView::String("method"@),
                            "id"@ => JsonView::String(id),
                            "method"@ => JsonView::String(method),
                        ]
                    },
                ),
                mark: Some(MarkModel::Method(id)),
            };
            next == (RunnerModel { app: m.app.push(frame), ..m })
        }),
{
}

/// A subscription whose caller heard its id is written as a subscription frame with that id, the
/// publication and the parameters, after those that wait; nothing else changes.
pub proof fn law_a_subscription_is_written_as_it_was_made(
    m: RunnerModel,
    id: Seq<char>,
    name: Seq<char>,
    params: Seq<JsonView>,
)
    ensures
        ({
            let next = m.acknowledged(RequestModel::Subscribe { id, name, params }, true);
            let frame = OutboundModel {
                frame: JsonView::Object(
                    if params.len() > 0 {
                        map![
                            "msg"@ => JsonView::String("sub"@),
                            "id"@ => JsonView::String(id),
                            "name"@ => JsonView::String(name),
                            "params"@ => JsonView::Array(params),
                        ]
                    } else {
                        map![
                            "msg"@ => JsonView::String("sub"@),
                            "id"@ => JsonView::String(id),
                            "name"@ => JsonView::String(name),
                        ]
                    },
                ),
                mark: Some(MarkModel::Sub(id)),
            };
            next == (RunnerModel { app: m.app.push(frame), ..m })
        }),
{
}

/// A request whose caller is gone leaves nothing behind: no frame is queued, and no other call is
/// touched.
pub proof fn law_an_unheard_request_leaves_nothing(
    m: RunnerModel,
    request: RequestModel,
    other: Seq<char>,
)
    ensures
        ({
            let next = m.acknowledged(request, false);
            let (id, table, left) = match request {
                RequestModel::Call { id, .. } => (id, m.methods.calls, next.methods.calls),
                RequestModel::Subscribe { id, .. } => (id, m.subs.calls, next.subs.calls),
            };
            &&& !left.dom().contains(id)
            &&& other != id ==> (left.dom().contains(other) <==> table.dom().contains(other))
                && left[other] == table[other]
            &&& request is Call ==> next.subs == m.subs
            &&& request is Subscribe ==> next.methods == m.methods
            &&& next.app == m.app
            &&& next.priority == m.priority
            &&& next.replies == m.replies
            &&& next.notices == m.notices
            &&& next.acks == m.acks
        }),
{
}

/// A caller's request is handed back with an id that is the table's prefix and its next number,
/// for the caller that asked, and says what the caller asked for.
pub proof fn law_a_command_is_acknowledged_as_it_was_given(
    m: RunnerModel,
    command: Command,
    line: oneshot::Receiver<Reply>,
)
    ensures
        ({
            let next = m.commanded(command, line);
            match command {
                Command::Call { method, params, ack } => {
                    &&& next.acks.len() == m.acks.len() + 1
                    &&& next.acks.last().to == ack
                    &&& next.acks.last().reply == line
                    &&& next.acks.last().request == (RequestModel::Call {
                        id: next.acks.last().id,
                        method: method@,
                        params: array_view(params@),
                    })
                    &&& next.methods.generation == m.methods.generation
                    &&& next.methods.calls[next.acks.last().id].epoch == m.methods.generation
                    &&& next.subs == m.subs
                    &&& next.shutdown == m.shutdown
                    &&& next.session == m.session
                },
                Command::Subscribe { name, params, ack } => {
                    &&& next.acks.len() == m.acks.len() + 1
                    &&& next.acks.last().to == ack
                    &&& next.acks.last().reply == line
                    &&& next.acks.last().request == (RequestModel::Subscribe {
                        id: next.acks.last().id,
                        name: name@,
                        params: array_view(params@),
                    })
                    &&& next.subs.generation == m.subs.generation
                    &&& next.subs.calls[next.acks.last().id].epoch == m.subs.generation
                    &&& next.methods == m.methods
                    &&& next.shutdown == m.shutdown
                    &&& next.session == m.session
                },
                Command::Unsubscribe { id } => next == (RunnerModel {
                    app: m.app.push(
                        OutboundModel {
                            frame: JsonView::Object(
                                map![
                                    "msg"@ => JsonView::String("unsub"@),
                                    "id"@ => JsonView::String(id@),
                                ],
                            ),
                            mark: None,
                        },
                    ),
                    ..m
                }),
                Command::Shutdown => next == (RunnerModel { shutdown: true, ..m }),
            }
        }),
{
    reveal(with);
    if let Command::Unsubscribe { id } = command {
        let frame = m.commanded(command, line).app.last().frame;
        assert(frame->Object_0 =~= map![
            "msg"@ => JsonView::String("unsub"@),
            "id"@ => JsonView::String(id@),
        ]);
    }
}

/// What the login carries: the token to resume, or the user's name and password.
pub proof fn law_login_carries_the_credential(credential: Credential)
    ensures
        login_params(credential).len() == 1,
        login_params(credential)[0] == (match credential {
            Credential::Resume(token) => JsonView::Object(
                map!["resume"@ => JsonView::String(token@)],
            ),
            Credential::Password { user, password } => JsonView::Object(
                map![
                    "user"@ => JsonView::Object(map!["username"@ => JsonView::String(user@)]),
                    "password"@ => JsonView::String(password@),
                ],
            ),
        }),
{
}

/// When the server accepts the handshake the login goes out, before every caller's frame, under an
/// id of its own that is then awaited; the listeners are told of the session.
pub proof fn law_an_accepted_handshake_logs_in(
    m: RunnerModel,
    session: String,
    line: oneshot::Receiver<Reply>,
)
    ensures
        ({
            let next = m.received(ServerMessage::Connected { session }, line);
            let id = m.methods.next_id();
            &&& next.session.phase == Phase::Authenticating
            &&& next.session.session_id == Some(session@)
            &&& next.session.login_call == Some(id)
            &&& next.session.version == m.session.version
            &&& next.priority == m.priority.push(
                OutboundModel {
                    frame: JsonView::Object(
                        map![
                            "msg"@ => JsonView::String("method"@),
                            "id"@ => JsonView::String(id),
                            "method"@ => JsonView::String("login"@),
                            "params"@ => JsonView::Array(login_params(m.config.credential)),
                        ],
                    ),
                    mark: Some(MarkModel::Method(id)),
                },
            )
            &&& next.methods.calls.dom().contains(id)
            &&& next.methods.calls[id].reply == sender_of(line)
            &&& !next.methods.calls[id].sent
            &&& next.notices == m.notices.push(NoticeModel::Connected(session@))
            &&& next.app == m.app
            &&& next.replies == m.replies
            &&& next.subs == m.subs
            &&& next.fatal == m.fatal
            &&& next.backoff == m.backoff
        }),
{
}

/// A version that the server refuses ends it for good, saying what was proposed and what was
/// offered.
pub proof fn law_a_refused_version_is_fatal(
    m: RunnerModel,
    version: String,
    line: oneshot::Receiver<Reply>,
)
    ensures
        ({
            let next = m.received(ServerMessage::Failed { version }, line);
            &&& next.fatal == Some(
                FatalModel::VersionMismatch { version: m.session.version, offered: version@ },
            )
            &&& next.session.phase == Phase::FatallyClosed
            &&& next.priority == m.priority
            &&& next.app == m.app
            &&& next.methods == m.methods
            &&& next.subs == m.subs
        }),
{
}

/// A login that the server refuses ends it for good, and no subscription is issued again.
pub proof fn law_a_refused_login_is_fatal(
    m: RunnerModel,
    id: String,
    result: Option<Json>,
    error: DdpError,
    line: oneshot::Receiver<Reply>,
)
    requires
        m.session.login_call == Some(id@),
        m.methods.awaits(id@),
    ensures
        ({
            let next = m.received(ServerMessage::Result { id, result, error: Some(error) }, line);
            &&& next.fatal matches Some(why) && (why is SessionExpired || why is LoginRejected)
            &&& next.session.phase == Phase::FatallyClosed
            &&& next.session.login_call is None
            &&& next.notices == m.notices
            &&& next.backoff == m.backoff
        }),
{
}

/// A change of a document is passed on to the listeners as it came, and changes nothing else.
pub proof fn law_documents_are_passed_on(
    m: RunnerModel,
    message: ServerMessage,
    line: oneshot::Receiver<Reply>,
)
    requires
        message is Added || message is Changed || message is Removed || message is AddedBefore
            || message is MovedBefore || message is Error,
    ensures
        m.received(message, line) == (RunnerModel {
            notices: m.notices.push(NoticeModel::Frame(message)),
            ..m
        }),
{
}

/// A frame that asks for nothing changes nothing; one whose payload does not fit its tag is only
/// told of.
pub proof fn law_idle_frames_change_nothing(
    m: RunnerModel,
    message: ServerMessage,
    line: oneshot::Receiver<Reply>,
)
    requires
        message is Pong || message is Updated || message is Unknown,
    ensures
        !message.malformed() ==> m.received(message, line) == m,
        message.malformed() ==> m.received(message, line) == (RunnerModel {
            notices: m.notices.push(
                NoticeModel::Violation(Some(message->Unknown_0.msg->0@)),
            ),
            ..m
        }),
{
}

/// An answer to a subscription reaches the caller that waits for it: that it was refused, with the
/// server's error, or that it is over. It is then no longer waited for, and the others still are.
pub proof fn law_a_refused_subscription_reaches_its_caller(
    m: RunnerModel,
    id: String,
    error: Option<DdpError>,
    other: Seq<char>,
    line: oneshot::Receiver<Reply>,
)
    requires
        m.subs.calls.dom().contains(id@),
        m.subs.calls[id@].epoch == m.subs.generation,
    ensures
        ({
            let next = m.received(ServerMessage::Nosub { id, error }, line);
            &&& next.replies == m.replies.push(
                DeliveryModel {
                    id: id@,
                    to: m.subs.calls[id@].reply,
                    told: match error {
                        Some(error) => Told::Server(error),
                        None => Told::Value(Json::Null),
                    },
                },
            )
            &&& !next.subs.calls.dom().contains(id@)
            &&& other != id@ ==> (next.subs.calls.dom().contains(other)
                <==> m.subs.calls.dom().contains(other)) && next.subs.calls[other]
                == m.subs.calls[other]
            &&& next.methods == m.methods
            &&& next.notices == m.notices
            &&& next.session == m.session
        }),
{
}

/// A result settles its own call and no other.
pub proof fn law_a_result_settles_one_call(
    m: RunnerModel,
    id: String,
    result: Option<Json>,
    error: Option<DdpError>,
    other: Seq<char>,
    line: oneshot::Receiver<Reply>,
)
    ensures
        ({
            let next = m.received(ServerMessage::Result { id, result, error }, line);
            &&& !next.methods.calls.dom().contains(id@)
            &&& other != id@ ==> (next.methods.calls.dom().contains(other)
                <==> m.methods.calls.dom().contains(other)) && next.methods.calls[other]
                == m.methods.calls[other]
            &&& next.subs == m.subs
            &&& next.app == m.app
            &&& next.priority == m.priority
        }),
{
}

/// A reply for a call of an earlier connection is told to nobody.
pub proof fn law_a_late_reply_is_told_to_nobody(
    m: RunnerModel,
    message: ServerMessage,
    line: oneshot::Receiver<Reply>,
)
    requires
        match message {
            ServerMessage::Result { id, .. } => m.methods.calls.dom().contains(id@)
                && m.methods.calls[id@].epoch != m.methods.generation,
            ServerMessage::Nosub { id, .. } => m.subs.calls.dom().contains(id@)
                && m.subs.calls[id@].epoch != m.subs.generation,
            _ => false,
        },
    ensures
        m.received(message, line).replies == m.replies,
{
}

/// A caller whose subscription a `ready` frame does not name still waits.
pub proof fn law_ready_answers_no_other(
    m: RunnerModel,
    subs: Vec<String>,
    id: Seq<char>,
    line: oneshot::Receiver<Reply>,
)
    requires
        forall|i: int| 0 <= i < subs@.len() ==> (#[trigger] subs@[i])@ != id,
    ensures
        ({
            let next = m.received(ServerMessage::Ready { subs }, line);
            &&& next.subs.calls.dom().contains(id) <==> m.subs.calls.dom().contains(id)
            &&& next.subs.calls[id] == m.subs.calls[id]
            &&& next.methods == m.methods
            &&& next.session == m.session
            &&& forall|k: int|
                m.replies.len() <= k < next.replies.len() ==> (#[trigger] next.replies[k]).id != id
        }),
{
    lemma_unnamed(m, subs@, id);
}

proof fn lemma_unnamed(m: RunnerModel, ids: Seq<String>, id: Seq<char>)
    requires
        forall|i: int| 0 <= i < ids.len() ==> (#[trigger] ids[i])@ != id,
    ensures
        ({
            let next = m.established(ids);
            &&& next.subs.calls.dom().contains(id) <==> m.subs.calls.dom().contains(id)
            &&& next.subs.calls[id] == m.subs.calls[id]
            &&& next.methods == m.methods
            &&& next.session == m.session
            &&& next.replies.len() >= m.replies.len()
            &&& forall|k: int|
                m.replies.len() <= k < next.replies.len() ==> (#[trigger] next.replies[k]).id != id
        }),
    decreases ids.len(),
{
    if ids.len() > 0 {
        let rest = ids.drop_last();
        assert forall|i: int| 0 <= i < rest.len() implies (#[trigger] rest[i])@ != id by {
            assert(rest[i] == ids[i]);
        }
        assert(ids.last() == ids[ids.len() - 1]);
        lemma_unnamed(m, rest, id);
        let part = m.established(rest);
        let next = m.established(ids);
        assert forall|k: int| m.replies.len() <= k < next.replies.len() implies (
        #[trigger] next.replies[k]).id != id by {
            if k < part.replies.len() {
                assert(next.replies[k] == part.replies[k]);
            }
        }
    }
}

/// The opening frame proposes the protocol version, before every other frame that joins; the
/// watch over the silence starts anew, with the configured limits.
pub proof fn law_a_session_opens_with_the_handshake(m: RunnerModel, now: int, limit: Option<int>)
    ensures
        ({
            let next = m.opened(now, limit);
            &&& next.priority == m.priority.push(
                OutboundModel {
                    frame: JsonView::Object(
                        map![
                            "msg"@ => JsonView::String("connect"@),
                            "version"@ => JsonView::String("1"@),
                            "support"@ => JsonView::Array(seq![JsonView::String("1"@)]),
                        ],
                    ),
                    mark: None,
                },
            )
            &&& next.session.phase == Phase::Handshaking
            &&& next.session.session_id is None
            &&& next.session.login_call is None
            &&& next.state == ConnectionState::Handshaking
            &&& next.handshake_deadline == limit
            &&& next.liveness == (LivenessModel {
                ping_after: duration_nanos(m.config.ping_after),
                dead_after: duration_nanos(m.config.dead_after),
                last_seen: now,
                probed: false,
            })
            &&& next.app == m.app
            &&& next.methods == m.methods
            &&& next.subs == m.subs
            &&& next.backoff == m.backoff
        }),
{
}

/// An attempt is announced with how many have failed before it.
pub proof fn law_an_attempt_is_announced(m: RunnerModel)
    ensures
        m.attempting().state == ConnectionState::Connecting,
        m.attempting().notices.len() > 0,
        m.backoff.failures > 0 ==> m.attempting().notices.last() == NoticeModel::Connecting(
            (m.backoff.failures - 1) as u32,
        ),
        m.backoff.failures == 0 ==> m.attempting().notices.last() == NoticeModel::Connecting(0),
        m.attempting().backoff == m.backoff,
{
}

/// A connection that is lost is announced with the reason, and leaves the runner ready for the
/// next one; a failure for good stays one.
pub proof fn law_a_lost_connection_is_announced(m: RunnerModel, reason: Seq<char>)
    ensures
        ({
            let next = m.ended(OutcomeModel::Closed(reason));
            &&& next.state == ConnectionState::Disconnected
            &&& next.notices.len() > 0
            &&& next.notices.last() == NoticeModel::Disconnected(reason)
            &&& m.session.phase != Phase::FatallyClosed ==> next.session.phase
                == Phase::Disconnected
            &&& m.session.phase == Phase::FatallyClosed ==> next.session.phase
                == Phase::FatallyClosed
            &&& next.session.session_id is None
            &&& next.session.login_call is None
            &&& next.handshake_deadline is None
            &&& !next.needs_flush
            &&& next.backoff == m.backoff
            &&& next.config == m.config
            &&& next.acks == m.acks
        }),
{
}

/// A failure for good is the last thing that the listeners hear of.
pub proof fn law_a_failure_is_the_last_event(m: RunnerModel, fatal: FatalModel)
    ensures
        ({
            let next = m.ended(OutcomeModel::Fatal(fatal)).finished();
            &&& next.state == ConnectionState::Fatal
            &&& next.notices.len() > 0
            &&& next.notices.last() == NoticeModel::Fatal(fatal)
        }),
{
}

/// Ids are not used again on the next connection.
pub proof fn law_ids_go_on(m: RunnerModel, outcome: OutcomeModel)
    ensures
        m.ended(outcome).methods.issued == m.methods.issued,
        m.ended(outcome).subs.issued == m.subs.issued,
        m.ended(outcome).methods.namespace == m.methods.namespace,
        m.ended(outcome).subs.namespace == m.subs.namespace,
{
}

/// The state that is shown goes with the phase.
pub proof fn law_the_state_shows_the_phase(phase: Phase)
    ensures
        state_of(phase) == ConnectionState::Disconnected <==> phase == Phase::Disconnected,
        state_of(phase) == ConnectionState::Handshaking <==> phase == Phase::Handshaking,
        state_of(phase) == ConnectionState::Authenticating <==> phase == Phase::Authenticating,
        state_of(phase) == ConnectionState::Ready <==> phase == Phase::Ready,
        state_of(phase) == ConnectionState::Fatal <==> phase == Phase::FatallyClosed,
{
}

/// Every step leaves the state that goes with the phase, and only a change of it is announced.
pub proof fn law_the_state_follows_the_phase(m: RunnerModel, outcome: Option<OutcomeModel>)
    ensures
        m.concluded(outcome).0.state == state_of(m.session.phase),
        m.state == state_of(m.session.phase) ==> m.concluded(outcome).0.notices == m.notices,
        m.state != state_of(m.session.phase) ==> m.concluded(outcome).0.notices == m.notices.push(
            NoticeModel::State(state_of(m.session.phase)),
        ),
{
}

/// What ends a connection: a failure for good before a shutdown, and a shutdown before anything
/// else that came up.
pub proof fn law_what_ends_a_connection(m: RunnerModel, outcome: Option<OutcomeModel>)
    ensures
        m.fatal matches Some(fatal) ==> m.concluded(outcome).1 == Some(
            OutcomeModel::Fatal(fatal),
        ),
        m.fatal is None && m.shutdown ==> m.concluded(outcome).1 == Some(OutcomeModel::Shutdown),
        m.fatal is None && !m.shutdown ==> m.concluded(outcome).1 == outcome,
{
}

/// The timer probes a silent connection with one ping, and closes a dead one.
pub proof fn law_the_timer_probes_and_closes(m: RunnerModel, now: int)
    requires
        m.session.phase == Phase::Ready || (m.handshake_deadline matches Some(at) ==> now < at),
    ensures
        ({
            let (next, outcome) = m.timed(now);
            let silence = now - m.liveness.last_seen;
            &&& silence >= m.liveness.dead_after && silence >= 0 ==> outcome is Some && outcome->0
                is Closed
            &&& 0 <= silence < m.liveness.dead_after ==> outcome is None
            &&& m.liveness.ping_after <= silence < m.liveness.dead_after && !m.liveness.probed
                ==> next.priority == m.priority.push(
                OutboundModel {
                    frame: JsonView::Object(map!["msg"@ => JsonView::String("ping"@)]),
                    mark: None,
                },
            ) && next.liveness.probed
            &&& m.liveness.probed || (0 <= silence < m.liveness.ping_after) ==> next.priority
                == m.priority
            &&& next.app == m.app
            &&& next.methods == m.methods
            &&& next.subs == m.subs
        }),
{
    reveal(with);
    reveal(with_some);
    let next = m.timed(now).0;
    if m.liveness.answer(now) == Liveness::SendPing {
        assert(next.priority.last().frame->Object_0 =~= map![
            "msg"@ => JsonView::String("ping"@),
        ]);
    }
}

/// Every frame counts as traffic, whatever it carries: the silence starts over, and a probe is
/// answered.
pub proof fn law_every_frame_is_traffic(
    m: RunnerModel,
    frame: Frame,
    now: int,
    next: RunnerModel,
    outcome: Option<OutcomeModel>,
)
    requires
        is_moved(m, Step::Frame(frame), now, next, outcome),
        frame is Close || frame is Other,
    ensures
        next == (RunnerModel {
            liveness: LivenessModel { last_seen: now, probed: false, ..m.liveness },
            ..m
        }),
        frame is Close ==> outcome is Some && outcome->0 is Closed,
        frame is Other ==> outcome is None,
{
}

/// A text that is no frame is only told of; the connection goes on.
pub proof fn law_an_unreadable_text_is_only_told_of(
    m: RunnerModel,
    text: String,
    now: int,
    next: RunnerModel,
    outcome: Option<OutcomeModel>,
)
    requires
        is_moved(m, Step::Frame(Frame::Text(text)), now, next, outcome),
        !ServerMessage::readable(text@),
    ensures
        outcome is None,
        next == (RunnerModel {
            liveness: LivenessModel { last_seen: now, probed: false, ..m.liveness },
            notices: m.notices.push(NoticeModel::Undecodable(text@)),
            ..m
        }),
{
}

/// A text that is a frame is taken as one that it spells.
pub proof fn law_a_readable_text_is_taken_as_its_frame(
    m: RunnerModel,
    text: String,
    now: int,
    next: RunnerModel,
    outcome: Option<OutcomeModel>,
)
    requires
        is_moved(m, Step::Frame(Frame::Text(text)), now, next, outcome),
        ServerMessage::readable(text@),
    ensures
        outcome is None,
        exists|message: ServerMessage| #[trigger]
            message.spelled_by(text@) && next == (RunnerModel {
                liveness: LivenessModel { last_seen: now, probed: false, ..m.liveness },
                ..m
            }).received(message, next.login_reply->0),
{
}

/// A socket that ends, fails or is closed closes the connection, and so does nobody being left to
/// use it; nothing else changes.
pub proof fn law_the_socket_ends_the_connection(
    m: RunnerModel,
    step: Step,
    now: int,
    next: RunnerModel,
    outcome: Option<OutcomeModel>,
)
    requires
        is_moved(m, step, now, next, outcome),
        step is Eof || step is Failed || step is HandlesDropped,
    ensures
        next == m,
        step is Eof ==> outcome == Some(OutcomeModel::Closed("the server closed the socket"@)),
        step matches Step::Failed(error) ==> outcome == Some(
            OutcomeModel::Closed("socket error: "@ + error@),
        ),
        step is HandlesDropped ==> outcome == Some(OutcomeModel::Shutdown),
{
}

/// A command never ends the connection by itself.
pub proof fn law_a_command_is_taken(
    m: RunnerModel,
    command: Command,
    now: int,
    next: RunnerModel,
    outcome: Option<OutcomeModel>,
)
    requires
        is_moved(m, Step::Command(command), now, next, outcome),
    ensures
        outcome is None,
        next == m.commanded(command, next.acks.last().reply),
{
}

/// A step is concluded: what it brought is weighed against a failure and a shutdown.
pub proof fn law_a_step_is_concluded(
    m: RunnerModel,
    step: Step,
    now: int,
    next: RunnerModel,
    outcome: Option<OutcomeModel>,
)
    requires
        is_taken(m, step, now, next, outcome),
    ensures
        exists|moved: RunnerModel, cause: Option<OutcomeModel>| #[trigger]
            is_moved(m, step, now, moved, cause) && next.state == state_of(moved.session.phase)
                && next.app == moved.app && next.priority == moved.priority && next.replies
                == moved.replies && next.acks == moved.acks && next.methods == moved.methods
                && next.subs == moved.subs && next.session == moved.session && outcome == (
            match moved.fatal {
                Some(fatal) => Some(OutcomeModel::Fatal(fatal)),
                None => if moved.shutdown {
                    Some(OutcomeModel::Shutdown)
                } else {
                    cause
                },
            }),
{
    let (moved, cause) = choose|moved: RunnerModel, cause: Option<OutcomeModel>| #[trigger]
        is_moved(m, step, now, moved, cause) && (next, outcome) == moved.concluded(cause);
    assert(is_moved(m, step, now, moved, cause));
}

/// Within a poll, writing comes first and flushing next; then every source is asked once, the timer
/// last; only then does the poll rest.
pub proof fn law_a_poll_asks_in_order(m: RunnerModel, progress: Progress)
    ensures
        ({
            let ask = m.next_ask(progress).2;
            let writes = !progress.turned && !progress.blocked && m.can_write();
            let flushes = !progress.turned && !progress.flush_asked && m.needs_flush;
            &&& ask == Ask::Write <==> writes
            &&& ask == Ask::Flush <==> !writes && flushes
            &&& ask == Ask::Rest <==> !writes && !flushes && progress.read_asked
                && progress.timer_asked && (progress.commands_asked || !m.accepts())
            &&& ask == Ask::Timer <==> !writes && !flushes && progress.read_asked
                && !progress.timer_asked && (progress.commands_asked || !m.accepts())
            &&& ask == Ask::Read ==> !progress.read_asked
            &&& ask == Ask::Commands ==> !progress.commands_asked && m.accepts()
        }),
        m.accepts() <==> m.app.len() < m.config.outbox_capacity,
{
}

/// Between connections the runner stops where it was asked to, opens the socket at once where there
/// is no delay, and waits for the delay otherwise; each attempt counts as one more failure until a
/// login succeeds.
pub proof fn law_between_connections(m: RunnerModel, next: RunnerModel, step: Move)
    requires
        is_resumed(m, next, step),
    ensures
        m.shutdown <==> step is Stop,
        step is Open ==> next.state == ConnectionState::Connecting,
        step is Sleep ==> next.state == ConnectionState::Disconnected,
        !m.shutdown && m.backoff.failures == 0 ==> step is Open,
        !m.shutdown && m.backoff.failures < u32::MAX ==> next.backoff.failures
            == m.backoff.failures + 1,
        next.backoff.base == m.backoff.base,
        next.backoff.cap == m.backoff.cap,
        step matches Move::Sleep(span) ==> 0 < duration_nanos(span) <= m.backoff.cap,
        !m.shutdown ==> next.app == m.app && next.methods == m.methods && next.subs == m.subs,
{
    if !m.shutdown {
        let (backoff, delay) = choose|backoff: BackoffModel, delay: nat| #[trigger]
            is_delay(m.backoff, backoff, delay) && (if delay == 0 {
                step is Open && next == m.delayed(backoff, delay).attempting()
            } else {
                step matches Move::Sleep(span) && duration_nanos(span) == delay && next
                    == m.delayed(backoff, delay)
            });
        law_window_is_capped(
            m.backoff.base,
            m.backoff.cap,
            m.backoff.failures as nat,
        );
    }
}

/// A new runner has nothing to do and nobody waiting: calls and subscriptions have ids of their
/// own kind, and the schedule starts at the configured base.
pub proof fn law_a_new_runner_is_idle(m: RunnerModel, config: Config, now: int)
    requires
        is_new(m, config, now),
    ensures
        m.config == config,
        m.session.phase == Phase::Disconnected,
        m.session.version == "1"@,
        m.state == ConnectionState::Disconnected,
        m.methods.namespace == "m"@,
        m.subs.namespace == "s"@,
        m.methods.calls.dom() == Set::<Seq<char>>::empty(),
        m.subs.calls.dom() == Set::<Seq<char>>::empty(),
        !m.can_write(),
        !m.needs_flush,
        !m.shutdown,
        m.fatal is None,
        m.backoff.failures == 0,
        m.backoff.base == duration_nanos(config.backoff_base),
        m.backoff.cap == duration_nanos(config.backoff_cap),
        m.liveness.ping_after == duration_nanos(config.ping_after),
        m.liveness.dead_after == duration_nanos(config.dead_after),
        m.liveness.last_seen == now,
        m.notices.len() == 0,
        m.replies.len() == 0,
        m.acks.len() == 0,
{
}

/// A caller's request is taken only while fewer frames wait than the outbox holds.
pub proof fn law_the_outbox_is_bounded(m: RunnerModel, progress: Progress)
    ensures
        m.accepts() <==> m.app.len() < m.config.outbox_capacity,
        m.app.len() >= m.config.outbox_capacity ==> m.next_ask(progress).2 != Ask::Commands,
{
}

/// The timer is set to the earlier of the handshake's limit and the next change of the liveness,
/// as far as the clock can express them.
pub proof fn law_the_timer_is_the_earlier_of_two(m: RunnerModel, now: int)
    ensures
        m.handshake_deadline is None && expressible(m.liveness.due(now)) ==> m.timer(now) == Some(
            m.liveness.due(now),
        ),
        m.handshake_deadline is None && !expressible(m.liveness.due(now)) ==> m.timer(now) is None,
        m.handshake_deadline matches Some(limit) ==> m.timer(now) == Some(
            if expressible(m.liveness.due(now)) && m.liveness.due(now) < limit {
                m.liveness.due(now)
            } else {
                limit
            },
        ),
{
}

/// A handshake has the time that the configuration gives it, and a connection that is ready has no
/// limit any more.
pub proof fn law_how_long_a_handshake_may_take(m: RunnerModel, now: int)
    ensures
        m.patience(now) matches Some(limit) ==> limit == now + duration_nanos(
            m.config.handshake_timeout,
        ),
        m.patience(now) is None <==> !expressible(
            now + duration_nanos(m.config.handshake_timeout),
        ),
        m.session.phase == Phase::Ready ==> m.handshake_limit() is None,
        m.session.phase != Phase::Ready ==> m.handshake_limit() == m.handshake_deadline,
{
}

/// A reply is the error where there is one, else the result, and `null` where there is neither.
pub proof fn law_what_a_result_comes_to(
    result: Option<Json>,
    error: Option<DdpError>,
)
    ensures
        error matches Some(e) ==> outcome_of(result, error) == Err::<Json, DdpError>(e),
        error is None && result is Some ==> outcome_of(result, error) == Ok::<Json, DdpError>(
            result->0,
        ),
        error is None && result is None ==> outcome_of(result, error) == Ok::<Json, DdpError>(
            Json::Null,
        ),
{
}

/// A credential is shown without its secret.
pub proof fn law_how_a_credential_is_shown(token: String, user: String, password: String)
    ensures
        credential_text(Credential::Resume(token)) == "Credential::Resume(<redacted>)"@,
        credential_text(Credential::Password { user, password })
            == "Credential::Password { user: "@ + debug_quoted(user@) + ", .. }"@,
{
}

/// How the server's closing of the connection is told.
pub proof fn law_how_a_closing_is_told(code: u16, reason: String)
    ensures
        closing_text(None) == "the server sent a close frame"@,
        closing_text(Some((code, reason))) == "the server closed with "@ + decimal_text(
            code as int,
        ) + ": "@ + reason@,
{
}

/// What was waiting when a connection ends is gone: no frame is left to write, no mark, no
/// deadline and no login; the calls are told their fates and both tables start over.
pub proof fn law_nothing_outlives_a_connection(m: RunnerModel)
    ensures
        m.settled().priority.len() == 0,
        m.settled().app.len() == 0,
        m.settled().unflushed.len() == 0,
        !m.settled().needs_flush,
        m.settled().handshake_deadline is None,
        m.settled().login_reply is None,
        m.settled().replies == m.replies + fates(m.methods.calls) + fates(m.subs.calls),
        m.settled().methods == m.methods.ended(),
        m.settled().subs == m.subs.ended(),
        m.settled().notices == m.notices,
        m.settled().backoff == m.backoff,
        m.settled().session == m.session,
        m.cut().session.session_id is None,
        m.cut().session.login_call is None,
        m.session.phase == Phase::FatallyClosed ==> m.cut().session.phase == Phase::FatallyClosed,
        m.session.phase != Phase::FatallyClosed ==> m.cut().session.phase == Phase::Disconnected,
{
}

/// What was flushed is marked as sent in the table that it belongs to.
pub proof fn law_a_mark_goes_to_its_table(
    methods: CorrelatorModel,
    subs: CorrelatorModel,
    marks: Seq<MarkModel>,
    id: Seq<char>,
)
    ensures
        all_marked(methods, subs, Seq::empty()) == (methods, subs),
        all_marked(methods, subs, marks.push(MarkModel::Method(id))) == (
            all_marked(methods, subs, marks).0.marked(id),
            all_marked(methods, subs, marks).1,
        ),
        all_marked(methods, subs, marks.push(MarkModel::Sub(id))) == (
            all_marked(methods, subs, marks).0,
            all_marked(methods, subs, marks).1.marked(id),
        ),
{
    assert(marks.push(MarkModel::Method(id)).drop_last() =~= marks);
    assert(marks.push(MarkModel::Sub(id)).drop_last() =~= marks);
}

/// The first attempt is made at once; every later one waits for a time drawn from the window that
/// its failures give. Each draw counts as one more failure and takes the generator on.
pub proof fn law_a_delay_is_drawn_from_the_window(b: BackoffModel, next: BackoffModel, delay: nat)
    requires
        is_delay(b, next, delay),
    ensures
        b.failures == 0 ==> delay == 0 && next.seed == b.seed,
        window_of(b.base, b.cap, b.failures as nat) > 0 ==> delay == drawn(
            b.seed,
            window_of(b.base, b.cap, b.failures as nat) as u64,
        ).0 * 1_000_000 && next.seed == drawn(
            b.seed,
            window_of(b.base, b.cap, b.failures as nat) as u64,
        ).1,
        b.failures < u32::MAX ==> next.failures == b.failures + 1,
        next.base == b.base,
        next.cap == b.cap,
{
}

/// A model of a notice shows which event it is.
pub proof fn law_notices_are_modelled_as_what_they_are(
    event: Event,
    state: ConnectionState,
    text: String,
    msg: Option<String>,
)
    ensures
        Notice::State(state)@ == NoticeModel::State(state),
        Notice::Event(event)@ == (match event {
            Event::Connecting { attempt } => NoticeModel::Connecting(attempt),
            Event::Connected { session } => NoticeModel::Connected(session@),
            Event::Ready { epoch } => NoticeModel::Ready(epoch.number()),
            Event::Resubscribe { epoch } => NoticeModel::Resubscribe(epoch.number()),
            Event::Frame(message) => NoticeModel::Frame(message),
            Event::Disconnected { reason } => NoticeModel::Disconnected(reason@),
            Event::Fatal(fatal) => NoticeModel::Fatal(fatal@),
            Event::Lagged { missed } => NoticeModel::Lagged(missed),
        }),
        Notice::Undecodable(text)@ == NoticeModel::Undecodable(text@),
        msg is Some ==> Notice::Violation(msg)@ == NoticeModel::Violation(Some(msg->0@)),
{
}

/// A model of an outcome, of a failure, of a mark and of a request shows which it is.
pub proof fn law_outcomes_are_modelled_as_what_they_are(
    a: String,
    b: String,
    fatal: Fatal,
    params: Vec<Json>,
)
    ensures
        Outcome::Closed(a)@ == OutcomeModel::Closed(a@),
        Outcome::Shutdown@ == OutcomeModel::Shutdown,
        Outcome::Fatal(fatal)@ == OutcomeModel::Fatal(fatal@),
        Fatal::SessionExpired(a)@ == FatalModel::SessionExpired(a@),
        Fatal::LoginRejected(a)@ == FatalModel::LoginRejected(a@),
        (Fatal::VersionMismatch { version: a, offered: b })@ == (FatalModel::VersionMismatch {
            version: a@,
            offered: b@,
        }),
        Mark::Method(a)@ == MarkModel::Method(a@),
        Mark::Sub(a)@ == MarkModel::Sub(a@),
        (Request::Call { id: a, method: b, params })@ == (RequestModel::Call {
            id: a@,
            method: b@,
            params: array_view(params@),
        }),
        (Request::Subscribe { id: a, name: b, params })@ == (RequestModel::Subscribe {
            id: a@,
            name: b@,
            params: array_view(params@),
        }),
{
}

} // verus!

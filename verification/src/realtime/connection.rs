//! Driving a connection: what a runner does with each frame, command and deadline.
//!
//! A [`Runner`] owns no socket and no timer. It is told what happened, keeps the frames that
//! wait to be written, and leaves what its listeners are to be told as [`Notice`]s.
use crate::model::entity::parts::opt_chars;
use crate::model::json::{
    array_view, lemma_array_view, Json, JsonMap, JsonView,
};
use crate::model::protocol::{
    ClientMessage, DdpError, ServerMessage, DDP_VERSION,
};
use crate::model::wire::{with, Decode, Encode};
use crate::realtime::backoff::{drawn, window_of, Backoff, BackoffModel};
use crate::realtime::clock::{
    duration_nanos, expressible, from_secs, instant_nanos, later_by, nanos_of, since,
};
use crate::realtime::correlate::{
    delivery_views, fates, lemma_fates_exist, lists_fates, sender_of, Answer, CallError, CallModel, Correlator, CorrelatorModel,
    Delivery, DeliveryModel, Epoch, Reply, Told, told_of,
};
use crate::realtime::liveness::{
    default_dead_after, default_ping_after, law_the_deadline_is_the_earliest, Liveness,
    LivenessModel, LivenessPolicy,
};
use crate::realtime::session::{
    law_step_is_determined, reaction, Action, ActionModel, Fatal, FatalModel, Phase, Session,
    SessionModel,
};
use crate::text::{
    chars_of, concat, debug_quoted, decimal_text, decimal_u64, quote_debug,
};
use crate::utf8::{shortened, truncate};
use core::time::Duration;
use std::collections::VecDeque;
use std::time::Instant;
use tokio::sync::oneshot;
use vstd::prelude::*;
use vstd::string::*;

verus! {

/// What `{:?}` prints of a span of so many nanoseconds.
pub uninterp spec fn debug_span(nanos: nat) -> Seq<char>;

/// `format!` with `{:?}` on a span: its length alone decides what is printed.
#[verifier::external_body]
fn span_debug(span: Duration) -> (r: String)
    ensures
        r@ == debug_span(duration_nanos(span)),
{
    format!("{:?}", span)
}

/// How a connection authenticates.
#[derive(PartialEq, Eq)]
pub enum Credential {
    /// An authentication token. It survives reconnects without another round trip for a
    /// password.
    Resume(String),
    /// A user name and a password.
    Password { user: String, password: String },
}

impl Clone for Credential {
    fn clone(&self) -> (r: Credential)
        ensures
            r == *self,
    {
        match self {
            Credential::Resume(token) => Credential::Resume(token.clone()),
            Credential::Password { user, password } => Credential::Password {
                user: user.clone(),
                password: password.clone(),
            },
        }
    }
}

/// The parameters of the login call.
pub open spec fn login_params(credential: Credential) -> Seq<JsonView> {
    match credential {
        Credential::Resume(token) => seq![
            JsonView::Object(Map::empty().insert("resume"@, JsonView::String(token@))),
        ],
        Credential::Password { user, password } => seq![
            JsonView::Object(
                Map::empty().insert(
                    "user"@,
                    JsonView::Object(Map::empty().insert("username"@, JsonView::String(user@))),
                ).insert("password"@, JsonView::String(password@)),
            ),
        ],
    }
}

/// What a log line shows of a credential.
pub open spec fn credential_text(credential: Credential) -> Seq<char> {
    match credential {
        Credential::Resume(_) => "Credential::Resume(<redacted>)"@,
        Credential::Password { user, .. } => "Credential::Password { user: "@ + debug_quoted(user@)
            + ", .. }"@,
    }
}

impl Credential {
    /// The parameters of the login call.
    pub fn params(&self) -> (r: Vec<Json>)
        ensures
            array_view(r@) == login_params(*self),
    {
        let mut object = JsonMap::new();
        match self {
            Credential::Resume(token) => {
                object.insert("resume".to_owned(), Json::string(token.as_str()));
            },
            Credential::Password { user, password } => {
                let mut named = JsonMap::new();
                named.insert("username".to_owned(), Json::string(user.as_str()));
                object.insert("user".to_owned(), Json::Object(named));
                object.insert("password".to_owned(), Json::string(password.as_str()));
            },
        }
        let mut params: Vec<Json> = Vec::new();
        params.push(Json::Object(object));
        proof {
            lemma_array_view(params@);
            assert(array_view(params@) =~= login_params(*self));
        }
        params
    }

    /// The credential for a log line. The secret is never part of it.
    pub fn debug_text(&self) -> (r: String)
        ensures
            r@ == credential_text(*self),
    {
        match self {
            Credential::Resume(_) => "Credential::Resume(<redacted>)".to_owned(),
            Credential::Password { user, .. } => {
                let mut out = concat(
                    "Credential::Password { user: ",
                    quote_debug(user.as_str()).as_str(),
                );
                out.append(", .. }");
                out
            },
        }
    }
}

/// What a log line shows of a credential does not depend on its secret.
pub proof fn law_credential_text_hides_the_secret(a: Credential, b: Credential)
    requires
        match (a, b) {
            (Credential::Resume(_), Credential::Resume(_)) => true,
            (
                Credential::Password { user: one, .. },
                Credential::Password { user: other, .. },
            ) => one@ == other@,
            _ => false,
        },
    ensures
        credential_text(a) == credential_text(b),
{
}

/// How a connection is made and kept.
pub struct Config {
    /// The socket's address.
    pub url: String,
    /// How to authenticate.
    pub credential: Credential,
    /// How long opening the socket may take.
    pub connect_timeout: Duration,
    /// How long the handshake and the login may take together.
    pub handshake_timeout: Duration,
    /// The silence after which the connection is probed.
    pub ping_after: Duration,
    /// The silence after which it is given up. It must leave time for a probe to be answered.
    pub dead_after: Duration,
    /// How many commands may wait for the runner.
    pub command_capacity: usize,
    /// How many frames may wait for the socket before commands are held back.
    pub outbox_capacity: usize,
    /// How many events a slow listener may fall behind.
    pub event_capacity: usize,
    /// The first window of the reconnect delay.
    pub backoff_base: Duration,
    /// The widest window of the reconnect delay.
    pub backoff_cap: Duration,
}

impl Clone for Config {
    fn clone(&self) -> (r: Config)
        ensures
            r == *self,
    {
        Config {
            url: self.url.clone(),
            credential: self.credential.clone(),
            connect_timeout: self.connect_timeout,
            handshake_timeout: self.handshake_timeout,
            ping_after: self.ping_after,
            dead_after: self.dead_after,
            command_capacity: self.command_capacity,
            outbox_capacity: self.outbox_capacity,
            event_capacity: self.event_capacity,
            backoff_base: self.backoff_base,
            backoff_cap: self.backoff_cap,
        }
    }
}

impl Config {
    /// A configuration with the default limits.
    pub fn new(url: &str, credential: Credential) -> (r: Config)
        ensures
            r.url@ == url@,
            r.credential == credential,
            duration_nanos(r.connect_timeout) == 15_000_000_000,
            duration_nanos(r.handshake_timeout) == 20_000_000_000,
            duration_nanos(r.ping_after) == 25_000_000_000,
            duration_nanos(r.dead_after) == 45_000_000_000,
            r.command_capacity == 64,
            r.outbox_capacity == 256,
            r.event_capacity == 1024,
            duration_nanos(r.backoff_base) == 1_000_000_000,
            duration_nanos(r.backoff_cap) == 64_000_000_000,
    {
        Config {
            url: url.to_owned(),
            credential,
            connect_timeout: from_secs(15),
            handshake_timeout: from_secs(20),
            ping_after: default_ping_after(),
            dead_after: default_dead_after(),
            command_capacity: 64,
            outbox_capacity: 256,
            event_capacity: 1024,
            backoff_base: from_secs(1),
            backoff_cap: from_secs(64),
        }
    }

    /// Whether a probe can be answered before the connection is given up.
    pub open spec fn leaves_time(&self) -> bool {
        duration_nanos(self.dead_after) > duration_nanos(self.ping_after)
    }

    /// Whether a probe can be answered before the connection is given up.
    pub fn is_usable(&self) -> (r: bool)
        ensures
            r == self.leaves_time(),
    {
        nanos_of(self.dead_after) > nanos_of(self.ping_after)
    }
}

/// What a connection is doing.
#[derive(Debug, Clone, Copy, PartialEq, Eq, Structural)]
pub enum ConnectionState {
    /// No socket; waiting to retry.
    Disconnected,
    /// Opening the socket.
    Connecting,
    /// The socket is open; the handshake is in progress.
    Handshaking,
    /// The session is established; the login is in progress.
    Authenticating,
    /// Logged in.
    Ready,
    /// Shut down on request.
    Closed,
    /// Failed for good.
    Fatal,
}

/// Something that happened on a connection.
#[derive(Debug, Clone)]
pub enum Event {
    /// A connection attempt is starting; the number counts the failures before it.
    Connecting { attempt: u32 },
    /// The handshake completed.
    Connected { session: String },
    /// The login succeeded.
    Ready { epoch: Epoch },
    /// Every remembered subscription must be issued again.
    Resubscribe { epoch: Epoch },
    /// A frame that is not part of the connection's own business.
    Frame(ServerMessage),
    /// The connection ended and will be retried.
    Disconnected { reason: String },
    /// The connection failed for good.
    Fatal(Fatal),
    /// The listener fell behind and missed so many events.
    Lagged { missed: u64 },
}

/// Something to tell.
#[derive(Debug, Clone)]
pub enum Notice {
    /// The state is now this.
    State(ConnectionState),
    /// For the listeners.
    Event(Event),
    /// For the log: a frame that could not be read.
    Undecodable(String),
    /// For the log: a reply that nobody waits for, with its tag, or one for a call of an earlier
    /// connection.
    Stray { id: String, tag: &'static str, stale: bool },
    /// For the log: a frame whose payload does not fit its tag.
    Violation(Option<String>),
}

/// What a [`Notice`] is.
pub enum NoticeModel {
    State(ConnectionState),
    Connecting(u32),
    Connected(Seq<char>),
    Ready(u64),
    Resubscribe(u64),
    Frame(ServerMessage),
    Disconnected(Seq<char>),
    Fatal(FatalModel),
    Lagged(u64),
    Undecodable(Seq<char>),
    Stray { id: Seq<char>, tag: Seq<char>, stale: bool },
    Violation(Option<Seq<char>>),
}

impl View for Notice {
    type V = NoticeModel;

    open spec fn view(&self) -> NoticeModel {
        match *self {
            Notice::State(state) => NoticeModel::State(state),
            Notice::Event(event) => match event {
                Event::Connecting { attempt } => NoticeModel::Connecting(attempt),
                Event::Connected { session } => NoticeModel::Connected(session@),
                Event::Ready { epoch } => NoticeModel::Ready(epoch.number()),
                Event::Resubscribe { epoch } => NoticeModel::Resubscribe(epoch.number()),
                Event::Frame(message) => NoticeModel::Frame(message),
                Event::Disconnected { reason } => NoticeModel::Disconnected(reason@),
                Event::Fatal(fatal) => NoticeModel::Fatal(fatal@),
                Event::Lagged { missed } => NoticeModel::Lagged(missed),
            },
            Notice::Undecodable(text) => NoticeModel::Undecodable(text@),
            Notice::Stray { id, tag, stale } => NoticeModel::Stray { id: id@, tag: tag@, stale },
            Notice::Violation(msg) => NoticeModel::Violation(opt_chars(msg)),
        }
    }
}

/// Which call a frame belongs to, so that it can be marked once it is written.
#[derive(Debug, Clone, PartialEq, Eq)]
pub enum Mark {
    Method(String),
    Sub(String),
}

/// What a [`Mark`] is.
pub enum MarkModel {
    Method(Seq<char>),
    Sub(Seq<char>),
}

impl View for Mark {
    type V = MarkModel;

    open spec fn view(&self) -> MarkModel {
        match *self {
            Mark::Method(id) => MarkModel::Method(id@),
            Mark::Sub(id) => MarkModel::Sub(id@),
        }
    }
}

/// A frame that waits for the socket.
#[derive(Debug)]
pub struct Outbound {
    /// The frame.
    pub frame: ClientMessage,
    /// The call to mark once it is written.
    pub mark: Option<Mark>,
}

/// What an [`Outbound`] is.
pub struct OutboundModel {
    pub frame: JsonView,
    pub mark: Option<MarkModel>,
}

/// What a mark is, where there is one.
pub open spec fn opt_mark(mark: Option<Mark>) -> Option<MarkModel> {
    match mark {
        Some(mark) => Some(mark@),
        None => None,
    }
}

impl View for Outbound {
    type V = OutboundModel;

    open spec fn view(&self) -> OutboundModel {
        OutboundModel { frame: self.frame.doc(), mark: opt_mark(self.mark) }
    }
}

/// A call that was registered, for the caller that waits.
#[derive(Debug)]
pub struct Registered {
    /// The id of the call.
    pub id: String,
    /// Where its reply arrives.
    pub reply: oneshot::Receiver<Reply>,
}

/// What a caller asked for, waiting to be queued until the caller has heard its id.
#[derive(Debug)]
pub enum Request {
    /// A method call.
    Call { id: String, method: String, params: Vec<Json> },
    /// A subscription.
    Subscribe { id: String, name: String, params: Vec<Json> },
}

/// What a [`Request`] is.
pub enum RequestModel {
    Call { id: Seq<char>, method: Seq<char>, params: Seq<JsonView> },
    Subscribe { id: Seq<char>, name: Seq<char>, params: Seq<JsonView> },
}

impl View for Request {
    type V = RequestModel;

    open spec fn view(&self) -> RequestModel {
        match *self {
            Request::Call { id, method, params } => RequestModel::Call {
                id: id@,
                method: method@,
                params: array_view(params@),
            },
            Request::Subscribe { id, name, params } => RequestModel::Subscribe {
                id: id@,
                name: name@,
                params: array_view(params@),
            },
        }
    }
}

/// An acknowledgement on its way to a caller. Whoever holds it sends it, and reports whether the
/// caller was still there.
#[derive(Debug)]
pub struct Ack {
    /// Where it goes.
    pub to: oneshot::Sender<Registered>,
    /// What the caller is handed.
    pub registered: Registered,
    /// What the caller asked for.
    pub request: Request,
}

/// What an [`Ack`] is.
pub struct AckModel {
    /// Where it goes.
    pub to: oneshot::Sender<Registered>,
    /// The id that the caller is handed.
    pub id: Seq<char>,
    /// Where the caller will hear the reply.
    pub reply: oneshot::Receiver<Reply>,
    /// What the caller asked for.
    pub request: RequestModel,
}

impl View for Ack {
    type V = AckModel;

    open spec fn view(&self) -> AckModel {
        AckModel {
            to: self.to,
            id: self.registered.id@,
            reply: self.registered.reply,
            request: self.request@,
        }
    }
}

/// The views of acknowledgements.
pub open spec fn ack_views(acks: Seq<Ack>) -> Seq<AckModel> {
    acks.map_values(|a: Ack| a@)
}

/// Something that a caller asks of the runner.
#[derive(Debug)]
pub enum Command {
    /// Call a method.
    Call { method: String, params: Vec<Json>, ack: oneshot::Sender<Registered> },
    /// Subscribe to a publication.
    Subscribe { name: String, params: Vec<Json>, ack: oneshot::Sender<Registered> },
    /// Cancel a subscription.
    Unsubscribe { id: String },
    /// Stop.
    Shutdown,
}

/// A frame of the socket.
#[derive(Debug, Clone, PartialEq, Eq)]
pub enum Frame {
    /// A text frame.
    Text(String),
    /// A close frame, with its code and reason where it has them.
    Close(Option<(u16, String)>),
    /// A frame that carries nothing for the protocol: control or binary.
    Other,
}

/// Something that happened to a runner.
#[derive(Debug)]
pub enum Step {
    /// The socket delivered a frame.
    Frame(Frame),
    /// The socket ended.
    Eof,
    /// The socket failed, with this error.
    Failed(String),
    /// A caller asks for something.
    Command(Command),
    /// Every handle is gone.
    HandlesDropped,
    /// The timer fired.
    Deadline,
}

/// Why a connection is over.
#[derive(Debug, Clone, PartialEq)]
pub enum Outcome {
    /// It ended, and is retried.
    Closed(String),
    /// It was shut down.
    Shutdown,
    /// It failed for good.
    Fatal(Fatal),
}

/// What an [`Outcome`] is.
pub enum OutcomeModel {
    Closed(Seq<char>),
    Shutdown,
    Fatal(FatalModel),
}

impl View for Outcome {
    type V = OutcomeModel;

    open spec fn view(&self) -> OutcomeModel {
        match *self {
            Outcome::Closed(reason) => OutcomeModel::Closed(reason@),
            Outcome::Shutdown => OutcomeModel::Shutdown,
            Outcome::Fatal(fatal) => OutcomeModel::Fatal(fatal@),
        }
    }
}

/// What an outcome is, where there is one.
pub open spec fn opt_outcome(outcome: Option<Outcome>) -> Option<OutcomeModel> {
    match outcome {
        Some(outcome) => Some(outcome@),
        None => None,
    }
}

/// How far a poll has come.
#[derive(Debug, Clone, Copy, PartialEq, Eq, Structural)]
pub struct Progress {
    /// Whether the socket can take no more frames now.
    pub blocked: bool,
    /// Whether the socket was asked to flush.
    pub flush_asked: bool,
    /// Whether writing is over, and the socket and the callers have changed places.
    pub turned: bool,
    /// Whether the socket was asked for a frame and had none.
    pub read_asked: bool,
    /// Whether the callers were asked for a command and had none.
    pub commands_asked: bool,
    /// Whether the timer was asked and was not due.
    pub timer_asked: bool,
}

/// What a poll asks next.
#[derive(Debug, Clone, Copy, PartialEq, Eq, Structural)]
pub enum Ask {
    /// Whether the socket takes a frame, and if so write the next one.
    Write,
    /// Whether the socket is flushed.
    Flush,
    /// Whether the socket has a frame.
    Read,
    /// Whether a caller asks for something.
    Commands,
    /// Whether the timer is due.
    Timer,
    /// Nothing: wait until something happens.
    Rest,
}

/// What is done next between connections.
#[derive(Debug, Clone, Copy)]
pub enum Move {
    /// Wait so long, taking commands meanwhile.
    Sleep(Duration),
    /// Open the socket.
    Open,
    /// Serve the open socket until its connection is over.
    Serve,
    /// Stop.
    Stop,
}

/// Drives one connection after another.
pub struct Runner {
    config: Config,
    session: Session,
    methods: Correlator,
    subs: Correlator,
    liveness: LivenessPolicy,
    backoff: Backoff,
    state: ConnectionState,
    notices: Vec<Notice>,
    replies: Vec<Delivery>,
    acks: Vec<Ack>,
    priority: VecDeque<Outbound>,
    app: VecDeque<Outbound>,
    unflushed: Vec<Mark>,
    needs_flush: bool,
    handshake_deadline: Option<Instant>,
    login_reply: Option<oneshot::Receiver<Reply>>,
    fatal: Option<Fatal>,
    shutdown: bool,
    turn: bool,
}

/// What a [`Runner`] is; times in nanoseconds.
pub struct RunnerModel {
    /// The configuration.
    pub config: Config,
    /// The lifecycle.
    pub session: SessionModel,
    /// The method calls that wait.
    pub methods: CorrelatorModel,
    /// The subscriptions that wait.
    pub subs: CorrelatorModel,
    /// How long the connection has been silent.
    pub liveness: LivenessModel,
    /// The pace of reconnecting.
    pub backoff: BackoffModel,
    /// The state that was last told.
    pub state: ConnectionState,
    /// What is still to be told.
    pub notices: Seq<NoticeModel>,
    /// What callers are still to be told.
    pub replies: Seq<DeliveryModel>,
    /// What callers are still to be handed.
    pub acks: Seq<AckModel>,
    /// The protocol's own frames that wait for the socket.
    pub priority: Seq<OutboundModel>,
    /// The callers' frames that wait for the socket.
    pub app: Seq<OutboundModel>,
    /// The calls whose frames the socket holds, not yet flushed.
    pub unflushed: Seq<MarkModel>,
    /// Whether the socket holds frames that are not flushed.
    pub needs_flush: bool,
    /// When the handshake is given up.
    pub handshake_deadline: Option<int>,
    /// Where the reply to a login is awaited.
    pub login_reply: Option<oneshot::Receiver<Reply>>,
    /// Why the connection failed for good.
    pub fatal: Option<FatalModel>,
    /// Whether a shutdown was asked for.
    pub shutdown: bool,
    /// Whether the socket was read first the last time.
    pub turn: bool,
}

/// The views of notices.
pub open spec fn notice_views(notices: Seq<Notice>) -> Seq<NoticeModel> {
    notices.map_values(|n: Notice| n@)
}

/// The views of frames.
pub open spec fn outbound_views(frames: Seq<Outbound>) -> Seq<OutboundModel> {
    frames.map_values(|o: Outbound| o@)
}

/// The views of marks.
pub open spec fn mark_views(marks: Seq<Mark>) -> Seq<MarkModel> {
    marks.map_values(|m: Mark| m@)
}

/// The state that goes with a phase.
pub open spec fn state_of(phase: Phase) -> ConnectionState {
    match phase {
        Phase::Disconnected => ConnectionState::Disconnected,
        Phase::Handshaking => ConnectionState::Handshaking,
        Phase::Authenticating => ConnectionState::Authenticating,
        Phase::Ready => ConnectionState::Ready,
        Phase::FatallyClosed => ConnectionState::Fatal,
    }
}

/// A method call as it goes over the wire.
pub open spec fn call_doc(
    tag: Seq<char>,
    id: Seq<char>,
    member: Seq<char>,
    name: Seq<char>,
    params: Seq<JsonView>,
) -> JsonView {
    let m = Map::<Seq<char>, JsonView>::empty().insert("msg"@, JsonView::String(tag)).insert(
        "id"@,
        JsonView::String(id),
    ).insert(member, JsonView::String(name));
    JsonView::Object(
        if params.len() > 0 {
            m.insert("params"@, JsonView::Array(params))
        } else {
            m
        },
    )
}

/// The opening frame as it goes over the wire.
pub open spec fn connect_doc() -> JsonView {
    JsonView::Object(
        Map::<Seq<char>, JsonView>::empty().insert("msg"@, JsonView::String("connect"@)).insert(
            "version"@,
            JsonView::String("1"@),
        ).insert("support"@, JsonView::Array(seq![JsonView::String("1"@)])),
    )
}

/// The calls of a list, marked as written.
pub open spec fn all_marked(
    methods: CorrelatorModel,
    subs: CorrelatorModel,
    marks: Seq<MarkModel>,
) -> (CorrelatorModel, CorrelatorModel)
    decreases marks.len(),
{
    if marks.len() == 0 {
        (methods, subs)
    } else {
        let (m, s) = all_marked(methods, subs, marks.drop_last());
        match marks.last() {
            MarkModel::Method(id) => (m.marked(id), s),
            MarkModel::Sub(id) => (m, s.marked(id)),
        }
    }
}

impl RunnerModel {
    /// After something is left to be told.
    pub open spec fn told(self, notice: NoticeModel) -> RunnerModel {
        RunnerModel { notices: self.notices.push(notice), ..self }
    }

    /// After the state is set. Only a change is told.
    pub open spec fn in_state(self, state: ConnectionState) -> RunnerModel {
        if self.state == state {
            self
        } else {
            (RunnerModel { state, ..self }).told(NoticeModel::State(state))
        }
    }

    /// After the state is set to the one that goes with the phase.
    pub open spec fn synced(self) -> RunnerModel {
        self.in_state(state_of(self.session.phase))
    }

    /// After a frame of the protocol joins its lane.
    pub open spec fn first(self, frame: JsonView, mark: Option<MarkModel>) -> RunnerModel {
        RunnerModel { priority: self.priority.push(OutboundModel { frame, mark }), ..self }
    }

    /// After a frame of a caller joins its lane.
    pub open spec fn queued(self, frame: JsonView, mark: Option<MarkModel>) -> RunnerModel {
        RunnerModel { app: self.app.push(OutboundModel { frame, mark }), ..self }
    }

    /// After an action of the lifecycle. A login is answered on this line.
    pub open spec fn applied(
        self,
        action: ActionModel,
        line: oneshot::Receiver<Reply>,
    ) -> RunnerModel {
        match action {
            ActionModel::Send(frame) => self.first(frame, None),
            ActionModel::Login => {
                let id = self.methods.next_id();
                (RunnerModel {
                    methods: self.methods.registered(sender_of(line)),
                    session: SessionModel { login_call: Some(id), ..self.session },
                    login_reply: Some(line),
                    ..self
                }).first(
                    call_doc(
                        "method"@,
                        id,
                        "method"@,
                        "login"@,
                        login_params(self.config.credential),
                    ),
                    Some(MarkModel::Method(id)),
                )
            },
            ActionModel::Resubscribe => {
                let generation = self.methods.generation;
                (RunnerModel {
                    handshake_deadline: None,
                    backoff: BackoffModel { failures: 0, ..self.backoff },
                    login_reply: None,
                    ..self
                }).synced().told(NoticeModel::Ready(generation)).told(
                    NoticeModel::Resubscribe(generation),
                )
            },
            ActionModel::Fatal(fatal) => RunnerModel { fatal: Some(fatal), ..self },
            ActionModel::ProtocolViolation(msg) => self.told(NoticeModel::Violation(msg)),
        }
    }

    /// After the lifecycle took a frame.
    pub open spec fn advanced(
        self,
        message: ServerMessage,
        line: oneshot::Receiver<Reply>,
    ) -> RunnerModel {
        let (session, action) = reaction(self.session, message);
        let next = RunnerModel { session, ..self };
        match action {
            Some(action) => next.applied(action, line),
            None => next,
        }
    }

    /// After something is left for a caller.
    pub open spec fn replied(self, delivery: DeliveryModel) -> RunnerModel {
        RunnerModel { replies: self.replies.push(delivery), ..self }
    }

    /// After a method call is answered: its caller, where it waits on this connection, is told.
    pub open spec fn answered(self, id: Seq<char>, told: Told) -> RunnerModel {
        let next = RunnerModel { methods: self.methods.forgotten(id), ..self };
        if self.methods.awaits(id) {
            next.replied(DeliveryModel { id, to: self.methods.calls[id].reply, told })
        } else {
            next.told(
                NoticeModel::Stray { id, tag: "result"@, stale: self.methods.is_stale(id) },
            )
        }
    }

    /// After a subscription is answered: its caller, where it waits on this connection, is told.
    pub open spec fn sub_answered(self, id: Seq<char>, tag: Seq<char>, told: Told) -> RunnerModel {
        let next = RunnerModel { subs: self.subs.forgotten(id), ..self };
        if self.subs.awaits(id) {
            next.replied(DeliveryModel { id, to: self.subs.calls[id].reply, told })
        } else {
            next.told(NoticeModel::Stray { id, tag, stale: self.subs.is_stale(id) })
        }
    }

    /// After a batch of subscriptions is established.
    pub open spec fn established(self, ids: Seq<String>) -> RunnerModel
        decreases ids.len(),
    {
        if ids.len() == 0 {
            self
        } else {
            self.established(ids.drop_last()).sub_answered(
                ids.last()@,
                "ready"@,
                Told::Value(Json::Null),
            )
        }
    }

    /// After the callers that a frame answers have their replies.
    pub open spec fn correlated(self, message: ServerMessage) -> RunnerModel {
        match message {
            ServerMessage::Result { id, result, error } => self.answered(
                id@,
                told_of(outcome_of(result, error)),
            ),
            ServerMessage::Ready { subs } => self.established(subs@),
            ServerMessage::Nosub { id, error } => self.sub_answered(
                id@,
                "nosub"@,
                told_of(outcome_of(None, error)),
            ),
            _ => self,
        }
    }

    /// After the listeners are told of a frame.
    pub open spec fn announced(self, message: ServerMessage) -> RunnerModel {
        match message {
            ServerMessage::Connected { session } => self.told(NoticeModel::Connected(session@)),
            ServerMessage::Added { .. } => self.told(NoticeModel::Frame(message)),
            ServerMessage::Changed { .. } => self.told(NoticeModel::Frame(message)),
            ServerMessage::Removed { .. } => self.told(NoticeModel::Frame(message)),
            ServerMessage::AddedBefore { .. } => self.told(NoticeModel::Frame(message)),
            ServerMessage::MovedBefore { .. } => self.told(NoticeModel::Frame(message)),
            ServerMessage::Error { .. } => self.told(NoticeModel::Frame(message)),
            _ => self,
        }
    }

    /// After a frame of the protocol. A login that it brings about is answered on this line.
    pub open spec fn received(
        self,
        message: ServerMessage,
        line: oneshot::Receiver<Reply>,
    ) -> RunnerModel {
        self.advanced(message, line).correlated(message).announced(message)
    }

    /// After the connection's leftovers are dropped and every waiter is settled: each is told
    /// whether its call was written.
    pub open spec fn settled(self) -> RunnerModel {
        RunnerModel {
            replies: self.replies + fates(self.methods.calls) + fates(self.subs.calls),
            priority: Seq::empty(),
            app: Seq::empty(),
            unflushed: Seq::empty(),
            needs_flush: false,
            login_reply: None,
            handshake_deadline: None,
            methods: self.methods.ended(),
            subs: self.subs.ended(),
            ..self
        }
    }

    /// The lifecycle after the socket is gone.
    pub open spec fn cut(self) -> RunnerModel {
        RunnerModel {
            session: SessionModel {
                phase: if self.session.phase == Phase::FatallyClosed {
                    Phase::FatallyClosed
                } else {
                    Phase::Disconnected
                },
                session_id: None,
                login_call: None,
                ..self.session
            },
            ..self
        }
    }

    /// After the connection is lost, for a reason.
    pub open spec fn lost(self, reason: Seq<char>) -> RunnerModel {
        self.cut().settled().in_state(ConnectionState::Disconnected).told(
            NoticeModel::Disconnected(reason),
        )
    }

    /// After traffic is seen.
    pub open spec fn alive(self, now: int) -> RunnerModel {
        RunnerModel {
            liveness: LivenessModel { last_seen: now, probed: false, ..self.liveness },
            ..self
        }
    }

    /// After a call that was registered is either queued or, where its caller is gone,
    /// forgotten.
    pub open spec fn called(
        self,
        id: Seq<char>,
        method: Seq<char>,
        params: Seq<JsonView>,
        heard: bool,
    ) -> RunnerModel {
        if heard {
            self.queued(
                call_doc("method"@, id, "method"@, method, params),
                Some(MarkModel::Method(id)),
            )
        } else {
            RunnerModel { methods: self.methods.forgotten(id), ..self }
        }
    }

    /// After a subscription that was registered is either queued or, where its caller is gone,
    /// forgotten.
    pub open spec fn subscribed(
        self,
        id: Seq<char>,
        name: Seq<char>,
        params: Seq<JsonView>,
        heard: bool,
    ) -> RunnerModel {
        if heard {
            self.queued(call_doc("sub"@, id, "name"@, name, params), Some(MarkModel::Sub(id)))
        } else {
            RunnerModel { subs: self.subs.forgotten(id), ..self }
        }
    }

    /// After a request is either queued or, where its caller is gone, forgotten.
    pub open spec fn acknowledged(self, request: RequestModel, heard: bool) -> RunnerModel {
        match request {
            RequestModel::Call { id, method, params } => self.called(id, method, params, heard),
            RequestModel::Subscribe { id, name, params } => self.subscribed(
                id,
                name,
                params,
                heard,
            ),
        }
    }

    /// After a command. A call or a subscription is registered, to be answered on this line, and
    /// its caller is to be handed the id and the line.
    pub open spec fn commanded(
        self,
        command: Command,
        line: oneshot::Receiver<Reply>,
    ) -> RunnerModel {
        match command {
            Command::Call { method, params, ack } => {
                let id = self.methods.next_id();
                RunnerModel {
                    methods: self.methods.registered(sender_of(line)),
                    acks: self.acks.push(
                        AckModel {
                            to: ack,
                            id,
                            reply: line,
                            request: RequestModel::Call {
                                id,
                                method: method@,
                                params: array_view(params@),
                            },
                        },
                    ),
                    ..self
                }
            },
            Command::Subscribe { name, params, ack } => {
                let id = self.subs.next_id();
                RunnerModel {
                    subs: self.subs.registered(sender_of(line)),
                    acks: self.acks.push(
                        AckModel {
                            to: ack,
                            id,
                            reply: line,
                            request: RequestModel::Subscribe {
                                id,
                                name: name@,
                                params: array_view(params@),
                            },
                        },
                    ),
                    ..self
                }
            },
            Command::Unsubscribe { id } => self.queued((ClientMessage::Unsub { id }).doc(), None),
            Command::Shutdown => RunnerModel { shutdown: true, ..self },
        }
    }

    /// The time at which the handshake is given up, unless the login has succeeded.
    pub open spec fn handshake_limit(self) -> Option<int> {
        if self.session.phase == Phase::Ready {
            None
        } else {
            self.handshake_deadline
        }
    }

    /// After the timer fired.
    pub open spec fn timed(self, now: int) -> (RunnerModel, Option<OutcomeModel>) {
        let next = RunnerModel { handshake_deadline: self.handshake_limit(), ..self };
        let late = match next.handshake_deadline {
            Some(at) => now >= at,
            None => false,
        };
        if late {
            (
                next,
                Some(
                    OutcomeModel::Closed(
                        "the handshake did not complete within "@ + debug_span(
                            duration_nanos(self.config.handshake_timeout),
                        ),
                    ),
                ),
            )
        } else {
            let polled = RunnerModel { liveness: self.liveness.polled(now), ..next };
            match self.liveness.answer(now) {
                Liveness::Healthy => (polled, None),
                Liveness::SendPing => (
                    polled.first((ClientMessage::Ping { id: None }).doc(), None),
                    None,
                ),
                Liveness::Dead => (
                    polled,
                    Some(
                        OutcomeModel::Closed(
                            "no traffic for "@ + debug_span(duration_nanos(self.config.dead_after))
                                + "; assuming the connection is dead"@,
                        ),
                    ),
                ),
            }
        }
    }

    /// After a step is over: a failure for good counts before a shutdown, and that before
    /// whatever else ended the connection.
    pub open spec fn concluded(self, outcome: Option<OutcomeModel>) -> (
        RunnerModel,
        Option<OutcomeModel>,
    ) {
        let synced = self.synced();
        match synced.fatal {
            Some(fatal) => (
                RunnerModel { fatal: None, ..synced },
                Some(OutcomeModel::Fatal(fatal)),
            ),
            None => if synced.shutdown {
                (synced, Some(OutcomeModel::Shutdown))
            } else {
                (synced, outcome)
            },
        }
    }

    /// After the delay of the coming attempt is drawn: the backoff as it then is.
    pub open spec fn delayed(self, backoff: BackoffModel, delay: nat) -> RunnerModel {
        let next = RunnerModel { backoff, ..self };
        if delay == 0 {
            next
        } else {
            next.in_state(ConnectionState::Disconnected)
        }
    }

    /// After an attempt starts. The first delay counts one failure before anything has failed.
    pub open spec fn attempting(self) -> RunnerModel {
        self.in_state(ConnectionState::Connecting).told(
            NoticeModel::Connecting(
                if self.backoff.failures == 0 {
                    0
                } else {
                    (self.backoff.failures - 1) as u32
                },
            ),
        )
    }

    /// After the socket is open: a fresh watch over its silence, and the opening frame.
    pub open spec fn opened(self, now: int, limit: Option<int>) -> RunnerModel {
        (RunnerModel {
            liveness: LivenessModel {
                ping_after: duration_nanos(self.config.ping_after),
                dead_after: duration_nanos(self.config.dead_after),
                last_seen: now,
                probed: false,
            },
            handshake_deadline: limit,
            session: SessionModel {
                phase: Phase::Handshaking,
                session_id: None,
                login_call: None,
                ..self.session
            },
            ..self
        }).first(connect_doc(), None).synced()
    }

    /// After a connection is over.
    pub open spec fn ended(self, outcome: OutcomeModel) -> RunnerModel {
        match outcome {
            OutcomeModel::Closed(reason) => self.lost(reason),
            OutcomeModel::Shutdown => self.settled().cut().in_state(ConnectionState::Closed),
            OutcomeModel::Fatal(fatal) => self.settled().in_state(ConnectionState::Fatal).told(
                NoticeModel::Fatal(fatal),
            ),
        }
    }

    /// After the runner stops.
    pub open spec fn finished(self) -> RunnerModel {
        if self.state == ConnectionState::Fatal || self.state == ConnectionState::Closed {
            self.settled()
        } else {
            self.in_state(ConnectionState::Closed).settled()
        }
    }

    /// Whether a frame can be written now. Those of callers wait for the login.
    pub open spec fn can_write(self) -> bool {
        self.priority.len() > 0 || (self.session.phase == Phase::Ready && self.app.len() > 0)
    }

    /// When the timer is due: at the earlier of the handshake's limit and the next change of the
    /// liveness, where the clock can express that.
    pub open spec fn timer(self, now: int) -> Option<int> {
        let live = self.liveness.due(now);
        match self.handshake_deadline {
            Some(limit) => Some(
                if expressible(live) && live < limit {
                    live
                } else {
                    limit
                },
            ),
            None => if expressible(live) {
                Some(live)
            } else {
                None
            },
        }
    }

    /// When a handshake that begins now is given up, where the clock can express that.
    pub open spec fn patience(self, now: int) -> Option<int> {
        let limit = now + duration_nanos(self.config.handshake_timeout);
        if expressible(limit) {
            Some(limit)
        } else {
            None
        }
    }

    /// Whether another command may be taken: not while too many frames wait.
    pub open spec fn accepts(self) -> bool {
        self.app.len() < self.config.outbox_capacity
    }

    /// What is asked next in a poll: writes first, then the socket and the callers, who change
    /// places once writing is over, and the timer last.
    pub open spec fn next_ask(self, progress: Progress) -> (RunnerModel, Progress, Ask) {
        if !progress.turned && !progress.blocked && self.can_write() {
            (self, progress, Ask::Write)
        } else if !progress.turned && !progress.flush_asked && self.needs_flush {
            (self, progress, Ask::Flush)
        } else {
            let turned = if progress.turned {
                self
            } else {
                RunnerModel { turn: !self.turn, ..self }
            };
            (turned, Progress { turned: true, ..progress }, turned.next_source(progress))
        }
    }

    /// What is asked next once writing is over.
    pub open spec fn next_source(self, progress: Progress) -> Ask {
        if !progress.read_asked && (self.turn || progress.commands_asked || !self.accepts()) {
            Ask::Read
        } else if !progress.commands_asked && self.accepts() {
            Ask::Commands
        } else if !progress.timer_asked {
            Ask::Timer
        } else {
            Ask::Rest
        }
    }

    /// The frame that is written next.
    pub open spec fn next_frame(self) -> OutboundModel {
        if self.priority.len() > 0 {
            self.priority[0]
        } else {
            self.app[0]
        }
    }

    /// After the next frame leaves its lane.
    pub open spec fn taken(self) -> RunnerModel {
        if self.priority.len() > 0 {
            RunnerModel { priority: self.priority.skip(1), ..self }
        } else {
            RunnerModel { app: self.app.skip(1), ..self }
        }
    }
}

/// The outcome of a call that a frame reports.
pub open spec fn outcome_of(result: Option<Json>, error: Option<DdpError>) -> Result<
    Json,
    DdpError,
> {
    match error {
        Some(error) => Err(error),
        None => Ok(
            match result {
                Some(value) => value,
                None => Json::Null,
            },
        ),
    }
}

/// The outcome of a call that a `result` frame reports. The server leaves out a result that is
/// falsy, so its absence means null rather than no answer.
pub fn call_outcome(result: Option<Json>, error: Option<DdpError>) -> (r: Result<Json, DdpError>)
    ensures
        r == outcome_of(result, error),
{
    match error {
        Some(error) => Err(error),
        None => match result {
            Some(value) => Ok(value),
            None => Ok(Json::Null),
        },
    }
}

/// A method call is written with its tag, id, method and parameters.
proof fn lemma_method_doc(id: String, method: String, params: Vec<Json>)
    ensures
        (ClientMessage::Method { id, method, params }).doc() == call_doc(
            "method"@,
            id@,
            "method"@,
            method@,
            array_view(params@),
        ),
{
    reveal(with);
    lemma_array_view(params@);
    assert(params.doc()->Array_0 =~= array_view(params@));
}

/// A subscription is written with its tag, id, name and parameters.
proof fn lemma_sub_doc(id: String, name: String, params: Vec<Json>)
    ensures
        (ClientMessage::Sub { id, name, params }).doc() == call_doc(
            "sub"@,
            id@,
            "name"@,
            name@,
            array_view(params@),
        ),
{
    reveal(with);
    lemma_array_view(params@);
    assert(params.doc()->Array_0 =~= array_view(params@));
}

impl Runner {
    /// Whether the runner is in order.
    pub closed spec fn wf(&self) -> bool {
        self.methods.wf() && self.subs.wf() && self.config.leaves_time()
    }

    /// What the runner is.
    pub closed spec fn view(&self) -> RunnerModel {
        RunnerModel {
            config: self.config,
            session: self.session@,
            methods: self.methods@,
            subs: self.subs@,
            liveness: self.liveness@,
            backoff: self.backoff@,
            state: self.state,
            notices: notice_views(self.notices@),
            replies: delivery_views(self.replies@),
            acks: ack_views(self.acks@),
            priority: outbound_views(self.priority@),
            app: outbound_views(self.app@),
            unflushed: mark_views(self.unflushed@),
            needs_flush: self.needs_flush,
            handshake_deadline: match self.handshake_deadline {
                Some(at) => Some(instant_nanos(at)),
                None => None,
            },
            login_reply: self.login_reply,
            fatal: match self.fatal {
                Some(fatal) => Some(fatal@),
                None => None,
            },
            shutdown: self.shutdown,
            turn: self.turn,
        }
    }

    /// Leaves something to be told.
    fn tell(&mut self, notice: Notice)
        requires
            old(self).wf(),
        ensures
            final(self).wf(),
            final(self)@ == old(self)@.told(notice@),
    {
        self.notices.push(notice);
        proof {
            assert(notice_views(self.notices@) =~= notice_views(old(self).notices@).push(notice@));
        }
    }

    /// Leaves an event for the listeners.
    fn emit(&mut self, event: Event)
        requires
            old(self).wf(),
        ensures
            final(self).wf(),
            final(self)@ == old(self)@.told((Notice::Event(event))@),
    {
        self.tell(Notice::Event(event));
    }

    /// Sets the state. Only a change is told.
    pub fn set_state(&mut self, state: ConnectionState)
        requires
            old(self).wf(),
        ensures
            final(self).wf(),
            final(self)@ == old(self)@.in_state(state),
    {
        if self.state != state {
            self.state = state;
            self.tell(Notice::State(state));
        }
    }

    /// Sets the state to the one that goes with the phase.
    fn sync_state(&mut self)
        requires
            old(self).wf(),
        ensures
            final(self).wf(),
            final(self)@ == old(self)@.synced(),
    {
        let state = match self.session.phase() {
            Phase::Disconnected => ConnectionState::Disconnected,
            Phase::Handshaking => ConnectionState::Handshaking,
            Phase::Authenticating => ConnectionState::Authenticating,
            Phase::Ready => ConnectionState::Ready,
            Phase::FatallyClosed => ConnectionState::Fatal,
        };
        self.set_state(state);
    }

    /// Puts a frame of the protocol on its lane, which goes before every caller's frame.
    fn push_priority(&mut self, frame: ClientMessage, mark: Option<Mark>)
        requires
            old(self).wf(),
        ensures
            final(self).wf(),
            final(self)@ == old(self)@.first(frame.doc(), opt_mark(mark)),
    {
        self.priority.push_back(Outbound { frame, mark });
        proof {
            assert(outbound_views(self.priority@) =~= outbound_views(old(self).priority@).push(
                (Outbound { frame, mark })@,
            ));
        }
    }

    /// Puts a caller's frame on the callers' lane.
    fn push_app(&mut self, frame: ClientMessage, mark: Option<Mark>)
        requires
            old(self).wf(),
        ensures
            final(self).wf(),
            final(self)@ == old(self)@.queued(frame.doc(), opt_mark(mark)),
    {
        self.app.push_back(Outbound { frame, mark });
        proof {
            assert(outbound_views(self.app@) =~= outbound_views(old(self).app@).push(
                (Outbound { frame, mark })@,
            ));
        }
    }

    /// Does what the lifecycle asks for. The login goes on the protocol's lane: it must precede
    /// every caller's frame.
    pub fn apply(&mut self, action: Action)
        requires
            old(self).wf(),
        ensures
            final(self).wf(),
            final(self)@ == old(self)@.applied(action@, final(self)@.login_reply->0),
    {
        match action {
            Action::Send(frame) => self.push_priority(frame, None),
            Action::Login => {
                let (id, reply) = self.methods.register();
                self.session.expect_login(id.as_str());
                self.login_reply = Some(reply);
                let params = self.config.credential.params();
                let mark = Mark::Method(id.clone());
                let frame = ClientMessage::method(id, "login".to_owned(), params);
                proof {
                    lemma_method_doc(frame->Method_id, frame->Method_method, frame->Method_params);
                }
                self.push_priority(frame, Some(mark));
            },
            Action::Resubscribe => {
                let epoch = self.methods.epoch();
                self.handshake_deadline = None;
                self.backoff.reset();
                self.login_reply = None;
                self.sync_state();
                self.emit(Event::Ready { epoch });
                self.emit(Event::Resubscribe { epoch });
            },
            Action::Fatal(fatal) => {
                self.fatal = Some(fatal);
            },
            Action::ProtocolViolation { msg } => self.tell(Notice::Violation(msg)),
        }
    }

    /// Leaves a reply for its caller, or, where nobody waits for it, a note for the log.
    fn report(&mut self, id: String, tag: &'static str, answer: Answer)
        requires
            old(self).wf(),
        ensures
            final(self).wf(),
            final(self)@ == (match answer {
                Answer::Unknown => old(self)@.told(
                    NoticeModel::Stray { id: id@, tag: tag@, stale: false },
                ),
                Answer::Stale => old(self)@.told(
                    NoticeModel::Stray { id: id@, tag: tag@, stale: true },
                ),
                Answer::Deliver(delivery) => old(self)@.replied(delivery@),
            }),
    {
        match answer {
            Answer::Unknown => self.tell(Notice::Stray { id, tag, stale: false }),
            Answer::Stale => self.tell(Notice::Stray { id, tag, stale: true }),
            Answer::Deliver(delivery) => {
                self.replies.push(delivery);
                proof {
                    assert(delivery_views(self.replies@) =~= delivery_views(
                        old(self).replies@,
                    ).push(delivery@));
                }
            },
        }
    }

    /// Tells every caller that a frame answers. A reply that nobody waits for is not an error.
    fn correlate(&mut self, message: ServerMessage)
        requires
            old(self).wf(),
        ensures
            final(self).wf(),
            final(self)@ == old(self)@.correlated(message),
    {
        match message {
            ServerMessage::Result { id, result, error } => {
                let answer = self.methods.resolve(id.as_str(), call_outcome(result, error));
                self.report(id, "result", answer);
            },
            ServerMessage::Ready { subs } => self.establish(&subs),
            ServerMessage::Nosub { id, error } => {
                let answer = self.subs.resolve(id.as_str(), call_outcome(None, error));
                self.report(id, "nosub", answer);
            },
            _ => {},
        }
    }

    /// Tells the callers of a whole batch that their subscriptions are established.
    fn establish(&mut self, ids: &Vec<String>)
        requires
            old(self).wf(),
        ensures
            final(self).wf(),
            final(self)@ == old(self)@.established(ids@),
    {
        let mut i: usize = 0;
        proof {
            assert(ids@.subrange(0, 0) =~= Seq::<String>::empty());
        }
        while i < ids.len()
            invariant
                self.wf(),
                i <= ids@.len(),
                self@ == old(self)@.established(ids@.subrange(0, i as int)),
            decreases ids@.len() - i,
        {
            let answer = self.subs.resolve(ids[i].as_str(), Ok(Json::Null));
            self.report(ids[i].clone(), "ready", answer);
            i += 1;
            proof {
                assert(ids@.subrange(0, i as int).drop_last() =~= ids@.subrange(0, i - 1));
            }
        }
        proof {
            assert(ids@.subrange(0, ids@.len() as int) =~= ids@);
        }
    }

    /// Takes one frame of the protocol.
    pub fn on_message(&mut self, message: ServerMessage)
        requires
            old(self).wf(),
        ensures
            final(self).wf(),
            final(self)@ == old(self)@.received(message, final(self)@.login_reply->0),
    {
        let ghost before = self.session@;
        let mut actions = self.session.handle(&message);
        proof {
            law_step_is_determined(before, message, self.session@, actions@);
        }
        match actions.pop() {
            Some(action) => self.apply(action),
            None => {},
        }
        match message {
            ServerMessage::Connected { session } => self.emit(Event::Connected { session }),
            ServerMessage::Result { .. } => self.correlate(message),
            ServerMessage::Ready { .. } => self.correlate(message),
            ServerMessage::Nosub { .. } => self.correlate(message),
            ServerMessage::Added { .. } => self.emit(Event::Frame(message)),
            ServerMessage::Changed { .. } => self.emit(Event::Frame(message)),
            ServerMessage::Removed { .. } => self.emit(Event::Frame(message)),
            ServerMessage::AddedBefore { .. } => self.emit(Event::Frame(message)),
            ServerMessage::MovedBefore { .. } => self.emit(Event::Frame(message)),
            ServerMessage::Error { .. } => self.emit(Event::Frame(message)),
            _ => {},
        }
    }

    /// Takes the text of a frame. One that is not a frame of the protocol is only logged.
    pub fn on_text(&mut self, text: &str)
        requires
            old(self).wf(),
        ensures
            final(self).wf(),
            is_read(old(self)@, text@, final(self)@),
    {
        match ServerMessage::parse(text) {
            Some(message) => self.on_message(message),
            None => self.tell(Notice::Undecodable(text.to_owned())),
        }
    }
}

/// Whether a text moves the runner from one state to the next.
pub open spec fn is_read(m: RunnerModel, text: Seq<char>, next: RunnerModel) -> bool {
    if ServerMessage::readable(text) {
        exists|message: ServerMessage| #[trigger]
            message.spelled_by(text) && next == m.received(message, next.login_reply->0)
    } else {
        next == m.told(NoticeModel::Undecodable(text))
    }
}

/// A frame as a log line shows it: cut short.
pub fn frame_excerpt(text: &str) -> (r: String)
    ensures
        r@ == shortened(text@, 256),
{
    truncate(&chars_of(text), 256)
}

/// The earlier of two points, or the only one there is.
pub fn earlier(a: Option<Instant>, b: Option<Instant>) -> (r: Option<Instant>)
    ensures
        r == (match (a, b) {
            (Some(x), Some(y)) => if instant_nanos(x) <= instant_nanos(y) {
                a
            } else {
                b
            },
            (Some(_), None) => a,
            (None, _) => b,
        }),
{
    match (a, b) {
        (Some(x), Some(y)) => if nanos_of(since(x, y)) == 0 {
            Some(x)
        } else {
            Some(y)
        },
        (Some(x), None) => Some(x),
        (None, _) => b,
    }
}

impl Runner {
    /// Queues a call that was registered; where its caller is gone, forgets it rather than
    /// leaving it to be abandoned when the connection ends.
    pub fn enqueue_call(&mut self, id: String, method: String, params: Vec<Json>, heard: bool)
        requires
            old(self).wf(),
        ensures
            final(self).wf(),
            final(self)@ == old(self)@.called(id@, method@, array_view(params@), heard),
    {
        if !heard {
            self.methods.cancel(id.as_str());
            return;
        }
        proof {
            lemma_method_doc(id, method, params);
        }
        let mark = Mark::Method(id.clone());
        self.push_app(ClientMessage::method(id, method, params), Some(mark));
    }

    /// Queues a subscription that was registered; where its caller is gone, forgets it.
    pub fn enqueue_sub(&mut self, id: String, name: String, params: Vec<Json>, heard: bool)
        requires
            old(self).wf(),
        ensures
            final(self).wf(),
            final(self)@ == old(self)@.subscribed(id@, name@, array_view(params@), heard),
    {
        if !heard {
            self.subs.cancel(id.as_str());
            return;
        }
        proof {
            lemma_sub_doc(id, name, params);
        }
        let mark = Mark::Sub(id.clone());
        self.push_app(ClientMessage::sub(id, name, params), Some(mark));
    }

    /// Takes a command. A call is registered, and its caller is to be handed its id and where its
    /// reply will arrive; its frame is queued once the caller has heard, and not before.
    pub fn handle_command(&mut self, command: Command)
        requires
            old(self).wf(),
        ensures
            final(self).wf(),
            final(self)@ == old(self)@.commanded(command, final(self)@.acks.last().reply),
    {
        match command {
            Command::Call { method, params, ack } => {
                let (id, reply) = self.methods.register();
                let request = Request::Call { id: id.clone(), method, params };
                self.acknowledge(Ack { to: ack, registered: Registered { id, reply }, request });
            },
            Command::Subscribe { name, params, ack } => {
                let (id, reply) = self.subs.register();
                let request = Request::Subscribe { id: id.clone(), name, params };
                self.acknowledge(Ack { to: ack, registered: Registered { id, reply }, request });
            },
            Command::Unsubscribe { id } => self.push_app(ClientMessage::Unsub { id }, None),
            Command::Shutdown => {
                self.shutdown = true;
            },
        }
    }

    /// Leaves an acknowledgement for a caller.
    fn acknowledge(&mut self, ack: Ack)
        requires
            old(self).wf(),
        ensures
            final(self).wf(),
            final(self)@ == (RunnerModel { acks: old(self)@.acks.push(ack@), ..old(self)@ }),
    {
        self.acks.push(ack);
        proof {
            assert(ack_views(self.acks@) =~= ack_views(old(self).acks@).push(ack@));
        }
    }

    /// Goes on with a request, given whether its caller was still there to hear its id.
    pub fn acknowledged(&mut self, request: Request, heard: bool)
        requires
            old(self).wf(),
        ensures
            final(self).wf(),
            final(self)@ == old(self)@.acknowledged(request@, heard),
    {
        match request {
            Request::Call { id, method, params } => self.enqueue_call(id, method, params, heard),
            Request::Subscribe { id, name, params } => self.enqueue_sub(id, name, params, heard),
        }
    }

    /// Takes what callers are to be handed, in order.
    pub fn take_acks(&mut self) -> (r: Vec<Ack>)
        requires
            old(self).wf(),
        ensures
            final(self).wf(),
            ack_views(r@) == old(self)@.acks,
            final(self)@ == (RunnerModel { acks: Seq::empty(), ..old(self)@ }),
    {
        let mut out: Vec<Ack> = Vec::new();
        core::mem::swap(&mut out, &mut self.acks);
        proof {
            assert(ack_views(self.acks@) =~= Seq::<AckModel>::empty());
        }
        out
    }

    /// Takes what callers are to be told, in order.
    pub fn take_replies(&mut self) -> (r: Vec<Delivery>)
        requires
            old(self).wf(),
        ensures
            final(self).wf(),
            delivery_views(r@) == old(self)@.replies,
            final(self)@ == (RunnerModel { replies: Seq::empty(), ..old(self)@ }),
    {
        let mut out: Vec<Delivery> = Vec::new();
        core::mem::swap(&mut out, &mut self.replies);
        proof {
            assert(delivery_views(self.replies@) =~= Seq::<DeliveryModel>::empty());
        }
        out
    }

    /// Takes the timer's call: gives up a handshake that takes too long, probes a silent
    /// connection, and gives up a dead one.
    pub fn on_deadline(&mut self, now: Instant) -> (r: Option<Outcome>)
        requires
            old(self).wf(),
        ensures
            final(self).wf(),
            (final(self)@, opt_outcome(r)) == old(self)@.timed(instant_nanos(now)),
    {
        match self.session.phase() {
            Phase::Ready => {
                self.handshake_deadline = None;
            },
            _ => {},
        }
        let late = match self.handshake_deadline {
            Some(at) => nanos_of(since(at, now)) == 0,
            None => false,
        };
        if late {
            let reason = concat(
                "the handshake did not complete within ",
                span_debug(self.config.handshake_timeout).as_str(),
            );
            return Some(Outcome::Closed(reason));
        }
        match self.liveness.poll(now) {
            Liveness::Healthy => None,
            Liveness::SendPing => {
                self.push_priority(ClientMessage::Ping { id: None }, None);
                None
            },
            Liveness::Dead => {
                let mut reason = concat(
                    "no traffic for ",
                    span_debug(self.config.dead_after).as_str(),
                );
                reason.append("; assuming the connection is dead");
                Some(Outcome::Closed(reason))
            },
        }
    }

    /// When the timer is due: the earlier of the two points at which a poll could change
    /// something. A point that the clock cannot express does not count, and there is none where
    /// that leaves nothing.
    pub fn due(&self, now: Instant) -> (r: Option<Instant>)
        requires
            self.wf(),
        ensures
            match r {
                Some(at) => self@.timer(instant_nanos(now)) == Some(instant_nanos(at)),
                None => self@.timer(instant_nanos(now)) is None,
            },
    {
        earlier(self.liveness.next_deadline(now), self.handshake_deadline)
    }
}

/// The reason that a connection is closed with by the socket.
pub open spec fn closing_text(close: Option<(u16, String)>) -> Seq<char> {
    match close {
        None => "the server sent a close frame"@,
        Some((code, reason)) => "the server closed with "@ + decimal_text(code as int) + ": "@
            + reason@,
    }
}

/// Whether a step moves the runner from one state to the next, before its conclusion.
pub open spec fn is_moved(
    m: RunnerModel,
    step: Step,
    now: int,
    next: RunnerModel,
    outcome: Option<OutcomeModel>,
) -> bool {
    match step {
        Step::Frame(Frame::Text(text)) => is_read(m.alive(now), text@, next) && outcome is None,
        Step::Frame(Frame::Close(close)) => next == m.alive(now) && outcome == Some(
            OutcomeModel::Closed(closing_text(close)),
        ),
        Step::Frame(Frame::Other) => next == m.alive(now) && outcome is None,
        Step::Eof => next == m && outcome == Some(
            OutcomeModel::Closed("the server closed the socket"@),
        ),
        Step::Failed(error) => next == m && outcome == Some(
            OutcomeModel::Closed("socket error: "@ + error@),
        ),
        Step::Command(command) => next == m.commanded(command, next.acks.last().reply)
            && outcome is None,
        Step::HandlesDropped => next == m && outcome == Some(OutcomeModel::Shutdown),
        Step::Deadline => (next, outcome) == m.timed(now),
    }
}

/// Whether a step moves the runner from one state to the next, with what ends the connection.
pub open spec fn is_taken(
    m: RunnerModel,
    step: Step,
    now: int,
    next: RunnerModel,
    outcome: Option<OutcomeModel>,
) -> bool {
    exists|moved: RunnerModel, cause: Option<OutcomeModel>| #[trigger]
        is_moved(m, step, now, moved, cause) && (next, outcome) == moved.concluded(cause)
}

impl Runner {
    /// Takes a frame of the socket. Every one is evidence of life, whatever it carries.
    pub fn on_frame(&mut self, frame: Frame, now: Instant) -> (r: Option<Outcome>)
        requires
            old(self).wf(),
        ensures
            final(self).wf(),
            is_moved(
                old(self)@,
                Step::Frame(frame),
                instant_nanos(now),
                final(self)@,
                opt_outcome(r),
            ),
    {
        self.liveness.saw_traffic(now);
        match frame {
            Frame::Text(text) => {
                self.on_text(text.as_str());
                None
            },
            Frame::Close(None) => Some(
                Outcome::Closed("the server sent a close frame".to_owned()),
            ),
            Frame::Close(Some((code, reason))) => {
                let mut out = concat(
                    "the server closed with ",
                    decimal_u64(code as u64).as_str(),
                );
                out.append(": ");
                out.append(reason.as_str());
                Some(Outcome::Closed(out))
            },
            Frame::Other => None,
        }
    }

    /// Concludes a step: says what ends the connection, if anything does.
    pub fn conclude(&mut self, outcome: Option<Outcome>) -> (r: Option<Outcome>)
        requires
            old(self).wf(),
        ensures
            final(self).wf(),
            (final(self)@, opt_outcome(r)) == old(self)@.concluded(opt_outcome(outcome)),
    {
        self.sync_state();
        let mut fatal: Option<Fatal> = None;
        core::mem::swap(&mut fatal, &mut self.fatal);
        match fatal {
            Some(fatal) => Some(Outcome::Fatal(fatal)),
            None => if self.shutdown {
                Some(Outcome::Shutdown)
            } else {
                outcome
            },
        }
    }

    /// Takes one step. The connection goes on where nothing is returned.
    pub fn step(&mut self, step: Step, now: Instant) -> (r: Option<Outcome>)
        requires
            old(self).wf(),
        ensures
            final(self).wf(),
            is_taken(old(self)@, step, instant_nanos(now), final(self)@, opt_outcome(r)),
    {
        let ghost given = step;
        let outcome = match step {
            Step::Frame(frame) => self.on_frame(frame, now),
            Step::Eof => Some(Outcome::Closed("the server closed the socket".to_owned())),
            Step::Failed(error) => Some(Outcome::Closed(concat("socket error: ", error.as_str()))),
            Step::Command(command) => {
                self.handle_command(command);
                None
            },
            Step::HandlesDropped => Some(Outcome::Shutdown),
            Step::Deadline => self.on_deadline(now),
        };
        proof {
            assert(is_moved(
                old(self)@,
                given,
                instant_nanos(now),
                self@,
                opt_outcome(outcome),
            ));
        }
        self.conclude(outcome)
    }

    /// Whether a frame can be written now. Those of callers wait for the login.
    pub fn has_write(&self) -> (r: bool)
        requires
            self.wf(),
        ensures
            r == self@.can_write(),
    {
        let ready = match self.session.phase() {
            Phase::Ready => true,
            _ => false,
        };
        self.priority.len() > 0 || (ready && self.app.len() > 0)
    }

    /// Takes the next frame to be written, where there is one that can be.
    pub fn next_write(&mut self) -> (r: Option<Outbound>)
        requires
            old(self).wf(),
        ensures
            final(self).wf(),
            match r {
                Some(outbound) => old(self)@.can_write() && outbound@ == old(self)@.next_frame()
                    && final(self)@ == old(self)@.taken(),
                None => !old(self)@.can_write() && final(self)@ == old(self)@,
            },
    {
        if !self.has_write() {
            return None;
        }
        match self.priority.pop_front() {
            Some(outbound) => {
                proof {
                    assert(outbound_views(self.priority@) =~= outbound_views(
                        old(self).priority@,
                    ).skip(1));
                }
                Some(outbound)
            },
            None => {
                let next = self.app.pop_front();
                proof {
                    assert(outbound_views(self.app@) =~= outbound_views(old(self).app@).skip(1));
                }
                next
            },
        }
    }

    /// Notes that the socket took a frame. Its call is not sent yet: the socket may hold the
    /// frame until it is flushed.
    pub fn wrote(&mut self, mark: Option<Mark>)
        requires
            old(self).wf(),
        ensures
            final(self).wf(),
            final(self)@ == (RunnerModel {
                needs_flush: true,
                unflushed: match mark {
                    Some(mark) => old(self)@.unflushed.push(mark@),
                    None => old(self)@.unflushed,
                },
                ..old(self)@
            }),
    {
        match mark {
            Some(mark) => {
                self.unflushed.push(mark);
                proof {
                    assert(mark_views(self.unflushed@) =~= mark_views(old(self).unflushed@).push(
                        mark@,
                    ));
                }
            },
            None => {},
        }
        self.needs_flush = true;
    }

    /// Whether the socket must be flushed.
    pub fn needs_flush(&self) -> (r: bool)
        ensures
            r == self@.needs_flush,
    {
        self.needs_flush
    }

    /// Notes that the socket was flushed: only now the calls count as sent. A frame that was
    /// still held when the socket died never reached the server.
    pub fn flushed(&mut self)
        requires
            old(self).wf(),
        ensures
            final(self).wf(),
            ({
                let (methods, subs) = all_marked(
                    old(self)@.methods,
                    old(self)@.subs,
                    old(self)@.unflushed,
                );
                final(self)@ == (RunnerModel {
                    needs_flush: false,
                    unflushed: Seq::empty(),
                    methods,
                    subs,
                    ..old(self)@
                })
            }),
    {
        let mut marks: Vec<Mark> = Vec::new();
        core::mem::swap(&mut marks, &mut self.unflushed);
        self.needs_flush = false;
        let ghost start = self@;
        proof {
            assert(mark_views(self.unflushed@) =~= Seq::<MarkModel>::empty());
        }
        let mut i: usize = 0;
        while i < marks.len()
            invariant
                self.wf(),
                i <= marks@.len(),
                ({
                    let (methods, subs) = all_marked(
                        start.methods,
                        start.subs,
                        mark_views(marks@).subrange(0, i as int),
                    );
                    self@ == (RunnerModel { methods, subs, ..start })
                }),
            decreases marks@.len() - i,
        {
            proof {
                let done = mark_views(marks@).subrange(0, i + 1);
                assert(done.drop_last() =~= mark_views(marks@).subrange(0, i as int));
                assert(done.last() == marks@[i as int]@);
            }
            match &marks[i] {
                Mark::Method(id) => self.methods.mark_sent(id.as_str()),
                Mark::Sub(id) => self.subs.mark_sent(id.as_str()),
            }
            i += 1;
        }
        proof {
            assert(mark_views(marks@).subrange(0, marks@.len() as int) =~= mark_views(marks@));
        }
    }

    /// Whether another command may be taken: not while too many frames wait.
    pub fn accepts_commands(&self) -> (r: bool)
        requires
            self.wf(),
        ensures
            r == self@.accepts(),
    {
        self.app.len() < self.config.outbox_capacity
    }

    /// What to ask next in a poll. Once writing is over, the socket and the callers change
    /// places, so that neither starves the other.
    pub fn ask(&mut self, progress: &mut Progress) -> (r: Ask)
        requires
            old(self).wf(),
        ensures
            final(self).wf(),
            (final(self)@, *final(progress), r) == old(self)@.next_ask(*old(progress)),
    {
        if !progress.turned {
            if !progress.blocked && self.has_write() {
                return Ask::Write;
            }
            if !progress.flush_asked && self.needs_flush {
                return Ask::Flush;
            }
            progress.turned = true;
            self.turn = !self.turn;
        }
        if !progress.read_asked && (self.turn || progress.commands_asked
            || !self.accepts_commands()) {
            Ask::Read
        } else if !progress.commands_asked && self.accepts_commands() {
            Ask::Commands
        } else if !progress.timer_asked {
            Ask::Timer
        } else {
            Ask::Rest
        }
    }
}

impl Progress {
    /// The start of a poll.
    pub fn new() -> (r: Progress)
        ensures
            r == (Progress {
                blocked: false,
                flush_asked: false,
                turned: false,
                read_asked: false,
                commands_asked: false,
                timer_asked: false,
            }),
    {
        Progress {
            blocked: false,
            flush_asked: false,
            turned: false,
            read_asked: false,
            commands_asked: false,
            timer_asked: false,
        }
    }
}

impl Runner {
    /// A runner that has not connected yet. The configuration must leave time for a probe to be
    /// answered.
    pub fn new(config: Config, now: Instant) -> (r: Runner)
        requires
            config.leaves_time(),
        ensures
            r.wf(),
            is_new(r@, config, instant_nanos(now)),
    {
        let liveness = LivenessPolicy::with_thresholds(config.ping_after, config.dead_after, now);
        let backoff = Backoff::with_limits(config.backoff_base, config.backoff_cap);
        let runner = Runner {
            session: Session::new(DDP_VERSION),
            methods: Correlator::new("m"),
            subs: Correlator::new("s"),
            liveness,
            backoff,
            config,
            state: ConnectionState::Disconnected,
            notices: Vec::new(),
            replies: Vec::new(),
            acks: Vec::new(),
            priority: VecDeque::new(),
            app: VecDeque::new(),
            unflushed: Vec::new(),
            needs_flush: false,
            handshake_deadline: None,
            login_reply: None,
            fatal: None,
            shutdown: false,
            turn: false,
        };
        proof {
            assert(runner@.notices =~= Seq::<NoticeModel>::empty());
            assert(runner@.replies =~= Seq::<DeliveryModel>::empty());
            assert(runner@.acks =~= Seq::<AckModel>::empty());
            assert(runner@.priority =~= Seq::<OutboundModel>::empty());
            assert(runner@.app =~= Seq::<OutboundModel>::empty());
            assert(runner@.unflushed =~= Seq::<MarkModel>::empty());
        }
        runner
    }

    /// A runner that has not connected yet; none where the configuration leaves no time for a
    /// probe to be answered.
    pub fn try_new(config: Config, now: Instant) -> (r: Option<Runner>)
        ensures
            match r {
                Some(runner) => config.leaves_time() && runner.wf() && is_new(
                    runner@,
                    config,
                    instant_nanos(now),
                ),
                None => !config.leaves_time(),
            },
    {
        if config.is_usable() {
            Some(Runner::new(config, now))
        } else {
            None
        }
    }

    /// The configuration.
    pub fn config(&self) -> (r: &Config)
        ensures
            *r == self@.config,
    {
        &self.config
    }

    /// The state that was last told.
    pub fn state(&self) -> (r: ConnectionState)
        ensures
            r == self@.state,
    {
        self.state
    }

    /// Whether a shutdown was asked for.
    pub fn is_shutdown(&self) -> (r: bool)
        ensures
            r == self@.shutdown,
    {
        self.shutdown
    }

    /// Takes what is to be told, in order.
    pub fn take_notices(&mut self) -> (r: Vec<Notice>)
        requires
            old(self).wf(),
        ensures
            final(self).wf(),
            notice_views(r@) == old(self)@.notices,
            final(self)@ == (RunnerModel { notices: Seq::empty(), ..old(self)@ }),
    {
        let mut out: Vec<Notice> = Vec::new();
        core::mem::swap(&mut out, &mut self.notices);
        proof {
            assert(notice_views(self.notices@) =~= Seq::<NoticeModel>::empty());
        }
        out
    }

    /// Ends the current connection: drops the frames that were not written and settles every
    /// waiter.
    fn settle(&mut self)
        requires
            old(self).wf(),
        ensures
            final(self).wf(),
            final(self)@ == old(self)@.settled(),
    {
        self.priority.clear();
        self.app.clear();
        self.unflushed.clear();
        self.needs_flush = false;
        self.login_reply = None;
        self.handshake_deadline = None;
        let mut calls = self.methods.disconnect();
        let mut subs = self.subs.disconnect();
        let ghost before = self.replies@;
        let ghost lists = (calls@, subs@);
        self.replies.append(&mut calls);
        self.replies.append(&mut subs);
        proof {
            assert(self.replies@ =~= before + lists.0 + lists.1);
            assert(delivery_views(self.replies@) =~= delivery_views(before) + delivery_views(
                lists.0,
            ) + delivery_views(lists.1));
            assert(self@.priority =~= Seq::<OutboundModel>::empty());
            assert(self@.app =~= Seq::<OutboundModel>::empty());
            assert(self@.unflushed =~= Seq::<MarkModel>::empty());
        }
    }

    /// Notes that the connection is lost, or could not be made.
    pub fn disconnected(&mut self, reason: &str)
        requires
            old(self).wf(),
        ensures
            final(self).wf(),
            final(self)@ == old(self)@.lost(reason@),
    {
        self.session.disconnected();
        self.settle();
        self.set_state(ConnectionState::Disconnected);
        self.emit(Event::Disconnected { reason: reason.to_owned() });
    }

    /// Begins the wait before an attempt, returning how long it is. Where there is none, the
    /// state stays as it is.
    pub fn begin_wait(&mut self) -> (r: Duration)
        requires
            old(self).wf(),
        ensures
            final(self).wf(),
            final(self)@ == old(self)@.delayed(final(self)@.backoff, duration_nanos(r)),
            is_delay(old(self)@.backoff, final(self)@.backoff, duration_nanos(r)),
    {
        let delay = self.backoff.next_delay();
        if nanos_of(delay) > 0 {
            self.set_state(ConnectionState::Disconnected);
        }
        delay
    }

    /// Begins an attempt to open the socket.
    pub fn begin_attempt(&mut self)
        requires
            old(self).wf(),
        ensures
            final(self).wf(),
            final(self)@ == old(self)@.attempting(),
    {
        self.set_state(ConnectionState::Connecting);
        let failures: u32 = self.backoff.attempt();
        let attempt: u32 = if failures == 0 {
            0
        } else {
            failures - 1
        };
        self.emit(Event::Connecting { attempt });
    }

    /// Begins a session on an open socket, given when its handshake is given up.
    pub fn begin_session_until(&mut self, now: Instant, limit: Option<Instant>)
        requires
            old(self).wf(),
        ensures
            final(self).wf(),
            final(self)@ == old(self)@.opened(
                instant_nanos(now),
                match limit {
                    Some(at) => Some(instant_nanos(at)),
                    None => None,
                },
            ),
    {
        self.liveness =
        LivenessPolicy::with_thresholds(self.config.ping_after, self.config.dead_after, now);
        self.handshake_deadline = limit;
        let action = self.session.connect();
        proof {
            reveal(with);
            let frame = action->Send_0;
            let support = frame->Connect_support;
            assert(support.doc()->Array_0 =~= seq![JsonView::String("1"@)]);
            assert(action@ == ActionModel::Send(connect_doc()));
        }
        self.apply(action);
        self.sync_state();
    }

    /// Begins a session on an open socket. Its handshake is given up after the configured time;
    /// only where the clock cannot express that point is there none.
    pub fn begin_session(&mut self, now: Instant)
        requires
            old(self).wf(),
        ensures
            final(self).wf(),
            final(self)@ == old(self)@.opened(
                instant_nanos(now),
                old(self)@.patience(instant_nanos(now)),
            ),
    {
        let limit = later_by(now, self.config.handshake_timeout);
        self.begin_session_until(now, limit);
    }

    /// Ends a connection, saying whether another is to be tried. A failure for good is the last
    /// event that anyone sees.
    pub fn end(&mut self, outcome: Outcome) -> (r: bool)
        requires
            old(self).wf(),
        ensures
            final(self).wf(),
            final(self)@ == old(self)@.ended(outcome@),
            r == (outcome is Closed),
    {
        match outcome {
            Outcome::Closed(reason) => {
                self.disconnected(reason.as_str());
                true
            },
            Outcome::Shutdown => {
                self.settle();
                self.session.disconnected();
                self.set_state(ConnectionState::Closed);
                false
            },
            Outcome::Fatal(fatal) => {
                self.settle();
                self.set_state(ConnectionState::Fatal);
                self.emit(Event::Fatal(fatal));
                false
            },
        }
    }

    /// Stops: settles whatever still waits. The state stays where it says why.
    pub fn finish(&mut self)
        requires
            old(self).wf(),
        ensures
            final(self).wf(),
            final(self)@ == old(self)@.finished(),
    {
        match self.state {
            ConnectionState::Fatal => {},
            ConnectionState::Closed => {},
            _ => self.set_state(ConnectionState::Closed),
        }
        self.settle();
    }

    /// Notes, between connections, that every handle is gone.
    pub fn handles_dropped(&mut self)
        requires
            old(self).wf(),
        ensures
            final(self).wf(),
            final(self)@ == (RunnerModel { shutdown: true, ..old(self)@ }),
    {
        self.shutdown = true;
    }
}

impl Outcome {
    /// Whether the socket is closed with a farewell: not where it is already gone.
    pub fn says_goodbye(&self) -> (r: bool)
        ensures
            r == !(*self is Closed),
    {
        match self {
            Outcome::Closed(_) => false,
            _ => true,
        }
    }
}

/// Whether a runner that is not connected goes on as it should: it stops where a shutdown was
/// asked for, waits where the delay is not zero, and else opens the socket.
pub open spec fn is_resumed(m: RunnerModel, next: RunnerModel, step: Move) -> bool {
    if m.shutdown {
        step is Stop && next == m.finished()
    } else {
        exists|backoff: BackoffModel, delay: nat| #[trigger]
            is_delay(m.backoff, backoff, delay) && (if delay == 0 {
                step is Open && next == m.delayed(backoff, delay).attempting()
            } else {
                step matches Move::Sleep(span) && duration_nanos(span) == delay && next
                    == m.delayed(backoff, delay)
            })
    }
}

impl Runner {
    /// Goes on while not connected.
    pub fn resume(&mut self) -> (r: Move)
        requires
            old(self).wf(),
        ensures
            final(self).wf(),
            is_resumed(old(self)@, final(self)@, r),
    {
        if self.shutdown {
            self.finish();
            return Move::Stop;
        }
        let delay = self.begin_wait();
        proof {
            assert(is_delay(old(self)@.backoff, self@.backoff, duration_nanos(delay)));
        }
        if nanos_of(delay) > 0 {
            return Move::Sleep(delay);
        }
        self.begin_attempt();
        Move::Open
    }

    /// Goes on after a wait.
    pub fn waited(&mut self) -> (r: Move)
        requires
            old(self).wf(),
        ensures
            final(self).wf(),
            if old(self)@.shutdown {
                r is Stop && final(self)@ == old(self)@.finished()
            } else {
                r is Open && final(self)@ == old(self)@.attempting()
            },
    {
        if self.shutdown {
            self.finish();
            return Move::Stop;
        }
        self.begin_attempt();
        Move::Open
    }

    /// Goes on after the socket could not be opened, for a reason.
    pub fn open_failed(&mut self, reason: &str) -> (r: Move)
        requires
            old(self).wf(),
        ensures
            final(self).wf(),
            is_resumed(old(self)@.lost(reason@), final(self)@, r),
    {
        self.disconnected(reason);
        self.resume()
    }

    /// Goes on after the socket was opened.
    pub fn opened(&mut self, now: Instant) -> (r: Move)
        requires
            old(self).wf(),
        ensures
            final(self).wf(),
            r is Serve,
            final(self)@ == old(self)@.opened(
                instant_nanos(now),
                old(self)@.patience(instant_nanos(now)),
            ),
    {
        self.begin_session(now);
        Move::Serve
    }

    /// Goes on after a connection is over: a lost one is retried, and nothing else is.
    pub fn served(&mut self, outcome: Outcome) -> (r: Move)
        requires
            old(self).wf(),
        ensures
            final(self).wf(),
            if outcome is Closed {
                is_resumed(old(self)@.ended(outcome@), final(self)@, r)
            } else {
                r is Stop && final(self)@ == old(self)@.ended(outcome@).finished()
            },
    {
        if self.end(outcome) {
            self.resume()
        } else {
            self.finish();
            Move::Stop
        }
    }
}

/// The timer misses nothing: where the clock can express when the liveness next changes, the timer
/// is due, no later than that and no later than the handshake's limit, and before it is due there
/// is nothing for it to do.
pub proof fn law_the_timer_misses_nothing(m: RunnerModel, now: int, u: int)
    requires
        m.liveness.ping_after < m.liveness.dead_after,
        m.liveness.probed || m.liveness.ping_after > 0 || now >= m.liveness.last_seen,
        expressible(m.liveness.due(now)),
    ensures
        m.timer(now) matches Some(at) && at <= m.liveness.due(now) && (m.handshake_deadline matches
            Some(limit) ==> at <= limit),
        now <= u < m.timer(now)->0 ==> m.timed(u).1 is None && m.liveness.answer(u)
            == Liveness::Healthy,
{
    law_the_deadline_is_the_earliest(m.liveness, now);
}

/// A handshake that takes too long is given up, where the clock can express when that is: from
/// then on the timer closes the connection.
pub proof fn law_a_silent_handshake_is_given_up(m: RunnerModel, began: int, now: int)
    requires
        expressible(began + duration_nanos(m.config.handshake_timeout)),
        now >= began + duration_nanos(m.config.handshake_timeout),
    ensures
        m.opened(began, m.patience(began)).timed(now).1 matches Some(outcome)
            && outcome is Closed,
{
}

/// The timer is asked only where neither the socket nor a caller had anything: a deadline never
/// preempts traffic.
pub proof fn law_timer_comes_last(m: RunnerModel, progress: Progress)
    requires
        m.next_ask(progress).2 == Ask::Timer,
    ensures
        progress.turned || progress.blocked || !m.can_write(),
        progress.turned || progress.flush_asked || !m.needs_flush,
        progress.read_asked,
        progress.commands_asked || !m.accepts(),
{
}

/// The socket and the callers take turns at being asked first: they change places with every
/// poll that gets as far as asking one of them, and with no other.
pub proof fn law_reading_and_commands_take_turns(m: RunnerModel, progress: Progress)
    requires
        !progress.turned,
        m.accepts(),
        !progress.read_asked,
        !progress.commands_asked,
    ensures
        ({
            let (next, _, ask) = m.next_ask(progress);
            if ask == Ask::Write || ask == Ask::Flush {
                next.turn == m.turn
            } else {
                next.turn == !m.turn && ask == (if next.turn {
                    Ask::Read
                } else {
                    Ask::Commands
                })
            }
        }),
{
}

/// A failure for good, or a shutdown, is never retried, and the state afterwards says which it
/// was.
pub proof fn law_the_end_is_final(m: RunnerModel, outcome: OutcomeModel)
    requires
        !(outcome is Closed),
    ensures
        m.ended(outcome).finished().state == (if outcome is Fatal {
            ConnectionState::Fatal
        } else {
            ConnectionState::Closed
        }),
{
}

/// The reply that a caller gets. Every waiter is settled when a connection ends, so a reply that
/// never comes means that the runner is gone.
pub fn reply_or_lost(reply: Option<Reply>) -> (r: Reply)
    ensures
        r == (match reply {
            Some(reply) => reply,
            None => Err(CallError::NotSent),
        }),
{
    match reply {
        Some(reply) => reply,
        None => Err(CallError::NotSent),
    }
}

/// What a subscription ends in: its id, once the server acknowledged it.
pub fn subscription_outcome(id: String, reply: Option<Reply>) -> (r: Result<String, CallError>)
    ensures
        r == (match reply {
            Some(Ok(_)) => Ok::<String, CallError>(id),
            Some(Err(error)) => Err(error),
            None => Err(CallError::NotSent),
        }),
{
    match reply {
        Some(Ok(_)) => Ok(id),
        Some(Err(error)) => Err(error),
        None => Err(CallError::NotSent),
    }
}

/// Why the socket could not be opened: what the error says, or that it took too long.
pub fn open_failure(error: Option<&str>) -> (r: String)
    ensures
        r@ == (match error {
            Some(error) => "websocket handshake failed: "@ + error@,
            None => "websocket handshake timed out"@,
        }),
{
    match error {
        Some(error) => concat("websocket handshake failed: ", error),
        None => "websocket handshake timed out".to_owned(),
    }
}

/// Whether a runner has done nothing yet.
pub open spec fn is_new(m: RunnerModel, config: Config, now: int) -> bool {
    m == (RunnerModel {
        config,
        session: SessionModel {
            phase: Phase::Disconnected,
            version: DDP_VERSION@,
            session_id: None,
            login_call: None,
        },
        methods: CorrelatorModel {
            generation: 0,
            issued: 0,
            namespace: "m"@,
            calls: Map::empty(),
        },
        subs: CorrelatorModel { generation: 0, issued: 0, namespace: "s"@, calls: Map::empty() },
        liveness: LivenessModel {
            ping_after: duration_nanos(config.ping_after),
            dead_after: duration_nanos(config.dead_after),
            last_seen: now,
            probed: false,
        },
        backoff: BackoffModel {
            base: duration_nanos(config.backoff_base),
            cap: duration_nanos(config.backoff_cap),
            failures: 0,
            seed: m.backoff.seed,
        },
        state: ConnectionState::Disconnected,
        notices: Seq::empty(),
        replies: Seq::empty(),
        acks: Seq::empty(),
        priority: Seq::empty(),
        app: Seq::empty(),
        unflushed: Seq::empty(),
        needs_flush: false,
        handshake_deadline: None,
        login_reply: None,
        fatal: None,
        shutdown: false,
        turn: false,
    })
}

/// Whether a delay, in nanoseconds, is drawn from the window, leaving the backoff as it is.
pub open spec fn is_delay(b: BackoffModel, next: BackoffModel, delay: nat) -> bool {
    let window = window_of(b.base, b.cap, b.failures as nat);
    let (millis, seed) = if window == 0 {
        (0u64, b.seed)
    } else {
        drawn(b.seed, window as u64)
    };
    &&& delay == millis * 1_000_000
    &&& delay <= window * 1_000_000
    &&& next == (BackoffModel {
        failures: if b.failures < u32::MAX {
            (b.failures + 1) as u32
        } else {
            u32::MAX
        },
        seed,
        ..b
    })
}

/// Every caller that waits when a connection ends is told, whatever ended it: that its call was
/// not sent where its frame was never flushed, and that it was abandoned otherwise.
pub proof fn law_the_end_tells_every_waiter(m: RunnerModel, outcome: OutcomeModel)
    requires
        m.methods.calls.dom().finite(),
        m.subs.calls.dom().finite(),
    ensures
        m.ended(outcome).replies == m.replies + fates(m.methods.calls) + fates(m.subs.calls),
        lists_fates(m.methods.calls, fates(m.methods.calls)),
        lists_fates(m.subs.calls, fates(m.subs.calls)),
{
    lemma_fates_exist(m.methods.calls);
    lemma_fates_exist(m.subs.calls);
}

/// Nothing is left waiting when a connection ends, whatever ended it: no caller, no frame.
pub proof fn law_nothing_waits_after_the_end(m: RunnerModel, outcome: OutcomeModel)
    ensures
        m.ended(outcome).methods.calls == Map::<Seq<char>, CallModel>::empty(),
        m.ended(outcome).subs.calls == Map::<Seq<char>, CallModel>::empty(),
        m.ended(outcome).priority.len() == 0,
        m.ended(outcome).app.len() == 0,
        m.ended(outcome).unflushed.len() == 0,
{
}

/// The next connection has another generation, so that a late reply settles no new call.
pub proof fn law_every_connection_has_its_generation(m: RunnerModel, outcome: OutcomeModel)
    ensures
        m.ended(outcome).methods.generation != m.methods.generation,
        m.ended(outcome).subs.generation != m.subs.generation,
{
}

/// A caller's frame is written only after the login, and only where no frame of the protocol
/// waits: the login precedes every caller's frame.
pub proof fn law_login_goes_first(m: RunnerModel)
    requires
        m.can_write(),
        m.taken().app != m.app,
    ensures
        m.session.phase == Phase::Ready,
        m.priority.len() == 0,
{
}

/// A ping of the server is answered on the protocol's lane in every phase, with its own id, and
/// nothing else changes.
pub proof fn law_ping_is_answered_at_once(
    m: RunnerModel,
    id: Option<String>,
    line: oneshot::Receiver<Reply>,
)
    ensures
        m.received(ServerMessage::Ping { id }, line) == m.first(
            (ClientMessage::Pong { id }).doc(),
            None,
        ),
{
}

/// A reply that nobody waits for changes nothing but the log, unless it answers the login: it
/// never ends the connection, and nobody is told anything.
pub proof fn law_stray_reply_is_harmless(
    m: RunnerModel,
    message: ServerMessage,
    line: oneshot::Receiver<Reply>,
)
    requires
        match message {
            ServerMessage::Result { id, .. } => !m.methods.calls.dom().contains(id@)
                && m.session.login_call != Some(id@),
            ServerMessage::Nosub { id, .. } => !m.subs.calls.dom().contains(id@),
            _ => false,
        },
    ensures
        m.received(message, line) == (match message {
            ServerMessage::Result { id, .. } => m.told(
                NoticeModel::Stray { id: id@, tag: "result"@, stale: false },
            ),
            ServerMessage::Nosub { id, .. } => m.told(
                NoticeModel::Stray { id: id@, tag: "nosub"@, stale: false },
            ),
            _ => m,
        }),
{
    match message {
        ServerMessage::Result { id, .. } => {
            assert(m.methods.calls.remove(id@) =~= m.methods.calls);
        },
        ServerMessage::Nosub { id, .. } => {
            assert(m.subs.calls.remove(id@) =~= m.subs.calls);
        },
        _ => {},
    }
}

/// A result reaches the caller that waits for it, on the channel that it was given, and says what
/// the server said.
pub proof fn law_a_result_reaches_its_caller(
    m: RunnerModel,
    id: String,
    result: Option<Json>,
    error: Option<DdpError>,
    line: oneshot::Receiver<Reply>,
)
    requires
        m.methods.awaits(id@),
    ensures
        m.received(ServerMessage::Result { id, result, error }, line).replies == m.replies.push(
            DeliveryModel {
                id: id@,
                to: m.methods.calls[id@].reply,
                told: match error {
                    Some(error) => Told::Server(error),
                    None => Told::Value(
                        match result {
                            Some(value) => value,
                            None => Json::Null,
                        },
                    ),
                },
            },
        ),
{
}

/// Every subscription that a `ready` frame names is answered, not just the first: its caller,
/// where it waits, is told.
pub proof fn law_ready_answers_the_whole_batch(
    m: RunnerModel,
    subs: Vec<String>,
    i: int,
    line: oneshot::Receiver<Reply>,
)
    requires
        0 <= i < subs@.len(),
    ensures
        ({
            let next = m.received(ServerMessage::Ready { subs }, line);
            let id = subs@[i]@;
            &&& !next.subs.calls.dom().contains(id)
            &&& m.subs.awaits(id) ==> next.replies.contains(
                DeliveryModel {
                    id,
                    to: m.subs.calls[id].reply,
                    told: Told::Value(Json::Null),
                },
            )
        }),
{
    lemma_established(m, subs@, subs@[i]@);
}

/// What a batch leaves of one subscription.
proof fn lemma_established(m: RunnerModel, ids: Seq<String>, id: Seq<char>)
    ensures
        ({
            let next = m.established(ids);
            let named = exists|i: int| 0 <= i < ids.len() && (#[trigger] ids[i])@ == id;
            &&& next.subs.generation == m.subs.generation
            &&& named ==> !next.subs.calls.dom().contains(id)
            &&& named && m.subs.awaits(id) ==> next.replies.contains(
                DeliveryModel {
                    id,
                    to: m.subs.calls[id].reply,
                    told: Told::Value(Json::Null),
                },
            )
            &&& !named ==> (next.subs.calls.dom().contains(id) <==> m.subs.calls.dom().contains(
                id,
            )) && next.subs.calls[id] == m.subs.calls[id]
        }),
    decreases ids.len(),
{
    if ids.len() > 0 {
        let rest = ids.drop_last();
        lemma_established(m, rest, id);
        let part = m.established(rest);
        let next = m.established(ids);
        let last = ids[ids.len() - 1]@;
        assert(ids.last() == ids[ids.len() - 1]);
        let earlier = exists|i: int| 0 <= i < rest.len() && (#[trigger] rest[i])@ == id;
        let delivery = DeliveryModel {
            id,
            to: m.subs.calls[id].reply,
            told: Told::Value(Json::Null),
        };
        if earlier {
            let i = choose|i: int| 0 <= i < rest.len() && (#[trigger] rest[i])@ == id;
            assert(ids[i]@ == id);
            if m.subs.awaits(id) {
                let k = choose|k: int| 0 <= k < part.replies.len() && part.replies[k] == delivery;
                assert(next.replies[k] == delivery);
            }
        } else if last == id {
            if m.subs.awaits(id) {
                assert(next.replies[next.replies.len() - 1] == delivery);
            }
        } else {
            assert forall|i: int| 0 <= i < ids.len() implies (#[trigger] ids[i])@ != id by {
                if i < rest.len() {
                    assert(rest[i]@ != id);
                }
            }
        }
    }
}

/// A caller is handed the id under which its call goes out, and the channel on which it is
/// answered.
pub proof fn law_a_caller_is_handed_its_call(
    m: RunnerModel,
    command: Command,
    line: oneshot::Receiver<Reply>,
)
    requires
        command is Call || command is Subscribe,
    ensures
        ({
            let next = m.commanded(command, line);
            let handed = next.acks.last();
            let calls = if command is Call {
                next.methods.calls
            } else {
                next.subs.calls
            };
            &&& next.acks.drop_last() == m.acks
            &&& calls.dom().contains(handed.id)
            &&& calls[handed.id].reply == sender_of(handed.reply)
            &&& !calls[handed.id].sent
            &&& next.app == m.app
            &&& match handed.request {
                RequestModel::Call { id, .. } => id == handed.id,
                RequestModel::Subscribe { id, .. } => id == handed.id,
            }
        }),
{
    assert(m.commanded(command, line).acks.drop_last() =~= m.acks);
}

/// The accumulated failures are cleared by a login that succeeded, and by no other frame: a
/// server that accepts a socket and refuses the login is not hammered.
pub proof fn law_only_a_login_clears_the_failures(
    m: RunnerModel,
    message: ServerMessage,
    line: oneshot::Receiver<Reply>,
)
    ensures
        m.received(message, line).backoff == m.backoff || (m.received(
            message,
            line,
        ).session.phase == Phase::Ready && message is Result && m.received(
            message,
            line,
        ).backoff.failures == 0),
{
    if let ServerMessage::Ready { subs } = message {
        lemma_established_elsewhere(m.advanced(message, line), subs@);
    }
}

/// A batch changes nothing but the subscriptions and what is to be told.
proof fn lemma_established_elsewhere(m: RunnerModel, ids: Seq<String>)
    ensures
        ({
            let next = m.established(ids);
            next == (RunnerModel {
                subs: next.subs,
                replies: next.replies,
                notices: next.notices,
                ..m
            })
        }),
    decreases ids.len(),
{
    if ids.len() > 0 {
        lemma_established_elsewhere(m, ids.drop_last());
    }
}

/// A login that succeeded announces its generation to the listeners, who then issue their
/// subscriptions again.
pub proof fn law_login_announces_the_replay(
    m: RunnerModel,
    message: ServerMessage,
    line: oneshot::Receiver<Reply>,
)
    requires
        message matches ServerMessage::Result { id, error: None, .. } && m.session.login_call
            == Some(id@) && m.methods.awaits(id@),
    ensures
        ({
            let next = m.received(message, line);
            let n = next.notices.len();
            &&& next.session.phase == Phase::Ready
            &&& next.state == ConnectionState::Ready
            &&& next.handshake_deadline is None
            &&& n >= 2
            &&& next.notices[n - 2] == NoticeModel::Ready(m.methods.generation)
            &&& next.notices[n - 1] == NoticeModel::Resubscribe(m.methods.generation)
        }),
{
}

/// A failure for good ends the connection whatever else the step brought, and is not retried.
pub proof fn law_fatal_wins(m: RunnerModel, outcome: Option<OutcomeModel>)
    requires
        m.fatal is Some,
    ensures
        m.concluded(outcome).1 == Some(OutcomeModel::Fatal(m.fatal->0)),
{
}

/// Flushing the socket counts exactly those calls as sent whose frames it held: a frame that was
/// never flushed never reached the server.
pub proof fn law_flush_decides_what_was_sent(
    methods: CorrelatorModel,
    subs: CorrelatorModel,
    marks: Seq<MarkModel>,
    id: Seq<char>,
)
    requires
        methods.calls.dom().contains(id),
    ensures
        ({
            let next = all_marked(methods, subs, marks).0;
            &&& next.calls.dom() == methods.calls.dom()
            &&& next.calls[id].epoch == methods.calls[id].epoch
            &&& next.calls[id].sent == (methods.calls[id].sent || marks.contains(
                MarkModel::Method(id),
            ))
        }),
    decreases marks.len(),
{
    if marks.len() > 0 {
        let rest = marks.drop_last();
        law_flush_decides_what_was_sent(methods, subs, rest, id);
        let before = all_marked(methods, subs, rest).0;
        let next = all_marked(methods, subs, marks).0;
        assert(marks =~= rest.push(marks.last()));
        assert(marks.contains(MarkModel::Method(id)) <==> rest.contains(MarkModel::Method(id))
            || marks.last() == MarkModel::Method(id)) by {
            if rest.contains(MarkModel::Method(id)) {
                let i = choose|i: int| 0 <= i < rest.len() && rest[i] == MarkModel::Method(id);
                assert(marks[i] == rest[i]);
            }
            if marks.last() == MarkModel::Method(id) {
                assert(marks[marks.len() - 1] == marks.last());
            }
            if marks.contains(MarkModel::Method(id)) {
                let i = choose|i: int| 0 <= i < marks.len() && marks[i] == MarkModel::Method(id);
                if i < rest.len() {
                    assert(rest[i] == marks[i]);
                }
            }
        }
        match marks.last() {
            MarkModel::Method(other) => {
                if before.calls.dom().contains(other) {
                    assert(before.calls.dom().insert(other) =~= before.calls.dom());
                }
            },
            MarkModel::Sub(_) => {},
        }
    }
}

} // verus!

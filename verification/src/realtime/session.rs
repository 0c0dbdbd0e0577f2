//! The connection lifecycle, as a state machine.
//!
//! It takes frames and returns what a runner should do. It owns no socket and no timer.
use crate::model::entity::parts::{opt_chars, opt_str};
use crate::model::json::JsonView;
use crate::model::wire::Encode;
use crate::model::protocol::{says_expired, ClientMessage, DdpError, ServerMessage};
use crate::text::{concat, str_eq};
use vstd::prelude::*;
use vstd::string::*;

verus! {

/// Where a connection is in its lifecycle.
#[derive(Debug, Clone, Copy, PartialEq, Eq, Structural)]
pub enum Phase {
    /// No socket, or the socket is gone.
    Disconnected,
    /// The opening frame has been sent.
    Handshaking,
    /// Connected, not yet logged in.
    Authenticating,
    /// Logged in.
    Ready,
    /// Failed for good: retrying cannot help.
    FatallyClosed,
}

/// Why a connection can never succeed as configured. Retrying any of these is a hot loop
/// against the server.
#[derive(Debug, Clone, PartialEq)]
pub enum Fatal {
    /// The server refused the proposed protocol version and offered another.
    VersionMismatch { version: String, offered: String },
    /// The stored resume token is dead.
    SessionExpired(String),
    /// The login failed for another reason.
    LoginRejected(String),
}

impl Fatal {
    /// The failure for a log line.
    pub fn to_text(&self) -> (r: String)
        ensures
            r@ == (match *self {
                Fatal::VersionMismatch { version, offered } =>
                    "server does not support DDP version "@ + version@ + ", it offered "@
                    + offered@,
                Fatal::SessionExpired(why) => "session expired or revoked: "@ + why@,
                Fatal::LoginRejected(why) => "login rejected: "@ + why@,
            }),
    {
        match self {
            Fatal::VersionMismatch { version, offered } => {
                let mut out = concat("server does not support DDP version ", version.as_str());
                out.append(", it offered ");
                out.append(offered.as_str());
                out
            },
            Fatal::SessionExpired(why) => concat("session expired or revoked: ", why.as_str()),
            Fatal::LoginRejected(why) => concat("login rejected: ", why.as_str()),
        }
    }
}

/// Something a runner should do.
#[derive(Debug, Clone, PartialEq)]
pub enum Action {
    /// Write this frame to the socket.
    Send(ClientMessage),
    /// Log in now, and report the id of the call back.
    Login,
    /// The login succeeded: issue every remembered subscription again.
    Resubscribe,
    /// Stop: reconnecting cannot fix this.
    Fatal(Fatal),
    /// The server sent a frame whose payload does not fit its tag. Log it.
    ProtocolViolation { msg: Option<String> },
}

/// What a [`Fatal`] is.
pub enum FatalModel {
    VersionMismatch { version: Seq<char>, offered: Seq<char> },
    SessionExpired(Seq<char>),
    LoginRejected(Seq<char>),
}

impl View for Fatal {
    type V = FatalModel;

    open spec fn view(&self) -> FatalModel {
        match *self {
            Fatal::VersionMismatch { version, offered } => FatalModel::VersionMismatch {
                version: version@,
                offered: offered@,
            },
            Fatal::SessionExpired(why) => FatalModel::SessionExpired(why@),
            Fatal::LoginRejected(why) => FatalModel::LoginRejected(why@),
        }
    }
}

/// What an [`Action`] is.
pub enum ActionModel {
    Send(JsonView),
    Login,
    Resubscribe,
    Fatal(FatalModel),
    ProtocolViolation(Option<Seq<char>>),
}

impl View for Action {
    type V = ActionModel;

    open spec fn view(&self) -> ActionModel {
        match *self {
            Action::Send(frame) => ActionModel::Send(frame.doc()),
            Action::Login => ActionModel::Login,
            Action::Resubscribe => ActionModel::Resubscribe,
            Action::Fatal(fatal) => ActionModel::Fatal(fatal@),
            Action::ProtocolViolation { msg } => ActionModel::ProtocolViolation(opt_chars(msg)),
        }
    }
}

/// The connection lifecycle state machine.
#[derive(Debug, Clone)]
pub struct Session {
    phase: Phase,
    proposed_version: String,
    session_id: Option<String>,
    login_call: Option<String>,
}

/// What a [`Session`] is.
pub struct SessionModel {
    /// Where the connection is.
    pub phase: Phase,
    /// The protocol version that is proposed.
    pub version: Seq<char>,
    /// The id that the server gave the session.
    pub session_id: Option<Seq<char>>,
    /// The id of the login call that is outstanding.
    pub login_call: Option<Seq<char>>,
}

impl View for Session {
    type V = SessionModel;

    closed spec fn view(&self) -> SessionModel {
        SessionModel {
            phase: self.phase,
            version: self.proposed_version@,
            session_id: opt_chars(self.session_id),
            login_call: opt_chars(self.login_call),
        }
    }
}

/// The text that a failed login is reported with.
pub open spec fn login_text(error: DdpError) -> Seq<char> {
    match (error.reason, error.message) {
        (Some(reason), _) => reason@,
        (None, Some(message)) => message@,
        (None, None) => error.error.text(),
    }
}

/// Whether this is how a failed login is classified.
pub open spec fn is_login_failure(fatal: Fatal, error: DdpError) -> bool {
    match fatal {
        Fatal::SessionExpired(why) => (says_expired(error.reason) || says_expired(error.message))
            && why@ == login_text(error),
        Fatal::LoginRejected(why) => !(says_expired(error.reason) || says_expired(error.message))
            && why@ == login_text(error),
        Fatal::VersionMismatch { .. } => false,
    }
}

/// Whether a frame answers the outstanding login call.
pub open spec fn answers_login(s: SessionModel, message: ServerMessage) -> bool {
    message matches ServerMessage::Result { id, .. } && s.login_call == Some(id@)
}

/// Whether a frame moves the lifecycle from one state to the next with these actions.
pub open spec fn is_step(
    s: SessionModel,
    message: ServerMessage,
    next: SessionModel,
    actions: Seq<Action>,
) -> bool {
    if message.malformed() {
        &&& next == s
        &&& actions.len() == 1
        &&& actions[0] matches Action::ProtocolViolation { msg } && opt_chars(msg) == opt_chars(
            message->Unknown_0.msg,
        )
    } else {
        match message {
            ServerMessage::Ping { id } => {
                &&& next == s
                &&& actions == seq![Action::Send(ClientMessage::Pong { id })]
            },
            ServerMessage::Connected { session } => {
                &&& next == SessionModel {
                    phase: Phase::Authenticating,
                    session_id: Some(session@),
                    ..s
                }
                &&& actions == seq![Action::Login]
            },
            ServerMessage::Failed { version: offered } => {
                &&& next == SessionModel { phase: Phase::FatallyClosed, ..s }
                &&& actions.len() == 1
                &&& actions[0] matches Action::Fatal(
                    Fatal::VersionMismatch { version, offered: o },
                ) && version@ == s.version && o@ == offered@
            },
            ServerMessage::Result { id, error, .. } => if s.login_call == Some(id@) {
                match error {
                    None => {
                        &&& next == SessionModel { phase: Phase::Ready, login_call: None, ..s }
                        &&& actions == seq![Action::Resubscribe]
                    },
                    Some(error) => {
                        &&& next == SessionModel {
                            phase: Phase::FatallyClosed,
                            login_call: None,
                            ..s
                        }
                        &&& actions.len() == 1
                        &&& actions[0] matches Action::Fatal(fatal) && is_login_failure(
                            fatal,
                            error,
                        )
                    },
                }
            } else {
                next == s && actions.len() == 0
            },
            _ => next == s && actions.len() == 0,
        }
    }
}

/// What a failed login is reported as.
pub open spec fn login_failure(error: DdpError) -> FatalModel {
    if says_expired(error.reason) || says_expired(error.message) {
        FatalModel::SessionExpired(login_text(error))
    } else {
        FatalModel::LoginRejected(login_text(error))
    }
}

/// The state that a frame leaves, and the one thing to do about it, if any.
pub open spec fn reaction(s: SessionModel, message: ServerMessage) -> (
    SessionModel,
    Option<ActionModel>,
) {
    if message.malformed() {
        (s, Some(ActionModel::ProtocolViolation(opt_chars(message->Unknown_0.msg))))
    } else {
        match message {
            ServerMessage::Ping { id } => (
                s,
                Some(ActionModel::Send((ClientMessage::Pong { id }).doc())),
            ),
            ServerMessage::Connected { session } => (
                SessionModel { phase: Phase::Authenticating, session_id: Some(session@), ..s },
                Some(ActionModel::Login),
            ),
            ServerMessage::Failed { version } => (
                SessionModel { phase: Phase::FatallyClosed, ..s },
                Some(
                    ActionModel::Fatal(
                        FatalModel::VersionMismatch { version: s.version, offered: version@ },
                    ),
                ),
            ),
            ServerMessage::Result { id, error, .. } => if s.login_call == Some(id@) {
                match error {
                    None => (
                        SessionModel { phase: Phase::Ready, login_call: None, ..s },
                        Some(ActionModel::Resubscribe),
                    ),
                    Some(error) => (
                        SessionModel { phase: Phase::FatallyClosed, login_call: None, ..s },
                        Some(ActionModel::Fatal(login_failure(error))),
                    ),
                }
            } else {
                (s, None)
            },
            _ => (s, None),
        }
    }
}

/// A frame decides the step: the state that follows, and at most one action.
pub proof fn law_step_is_determined(
    s: SessionModel,
    message: ServerMessage,
    next: SessionModel,
    actions: Seq<Action>,
)
    requires
        is_step(s, message, next, actions),
    ensures
        next == reaction(s, message).0,
        match reaction(s, message).1 {
            Some(action) => actions.len() == 1 && actions[0]@ == action,
            None => actions.len() == 0,
        },
{
}

impl Session {
    /// A new, disconnected session proposing a protocol version.
    pub fn new(proposed_version: &str) -> (r: Session)
        ensures
            r@ == (SessionModel {
                phase: Phase::Disconnected,
                version: proposed_version@,
                session_id: None,
                login_call: None,
            }),
    {
        Session {
            phase: Phase::Disconnected,
            proposed_version: proposed_version.to_owned(),
            session_id: None,
            login_call: None,
        }
    }

    /// The current phase.
    pub fn phase(&self) -> (r: Phase)
        ensures
            r == self@.phase,
    {
        self.phase
    }

    /// The id that the server gave the session, once the handshake has completed.
    pub fn session_id(&self) -> (r: Option<&str>)
        ensures
            opt_str(r) == self@.session_id,
    {
        match &self.session_id {
            Some(id) => Some(id.as_str()),
            None => None,
        }
    }

    /// Whether the connection has failed for good.
    pub fn is_fatal(&self) -> (r: bool)
        ensures
            r == (self@.phase == Phase::FatallyClosed),
    {
        match self.phase {
            Phase::FatallyClosed => true,
            _ => false,
        }
    }

    /// Begins a connection, returning the opening frame.
    pub fn connect(&mut self) -> (r: Action)
        ensures
            final(self)@ == (SessionModel {
                phase: Phase::Handshaking,
                session_id: None,
                login_call: None,
                ..old(self)@
            }),
            r matches Action::Send(ClientMessage::Connect { version, support }) && version@ == "1"@
                && support@.len() == 1 && support@[0]@ == "1"@,
    {
        self.phase = Phase::Handshaking;
        self.session_id = None;
        self.login_call = None;
        Action::Send(ClientMessage::connect())
    }

    /// Records the id of the login call that was just sent.
    pub fn expect_login(&mut self, call_id: &str)
        ensures
            final(self)@ == (SessionModel { login_call: Some(call_id@), ..old(self)@ }),
    {
        self.login_call = Some(call_id.to_owned());
    }

    /// Notes that the socket is gone, so that the next connection starts clean. A failure for
    /// good stays one.
    pub fn disconnected(&mut self)
        ensures
            final(self)@ == (SessionModel {
                phase: if old(self)@.phase == Phase::FatallyClosed {
                    Phase::FatallyClosed
                } else {
                    Phase::Disconnected
                },
                session_id: None,
                login_call: None,
                ..old(self)@
            }),
    {
        if !self.is_fatal() {
            self.phase = Phase::Disconnected;
        }
        self.session_id = None;
        self.login_call = None;
    }

    /// Takes one frame, returning what to do about it. Stream events and the results of other
    /// calls do not move the lifecycle.
    pub fn handle(&mut self, message: &ServerMessage) -> (r: Vec<Action>)
        ensures
            is_step(old(self)@, *message, final(self)@, r@),
    {
        let mut actions: Vec<Action> = Vec::new();
        if message.is_malformed() {
            let msg: Option<String> = match message {
                ServerMessage::Unknown(unknown) => match &unknown.msg {
                    Some(msg) => Some(msg.clone()),
                    None => None,
                },
                _ => None,
            };
            actions.push(Action::ProtocolViolation { msg });
            return actions;
        }
        match message {
            // The id must be echoed where there is one, or the server closes the socket.
            ServerMessage::Ping { id } => {
                let id: Option<String> = match id {
                    Some(id) => Some(id.clone()),
                    None => None,
                };
                actions.push(Action::Send(ClientMessage::Pong { id }));
            },
            ServerMessage::Connected { session } => {
                self.session_id = Some(session.clone());
                self.phase = Phase::Authenticating;
                actions.push(Action::Login);
            },
            ServerMessage::Failed { version } => {
                self.phase = Phase::FatallyClosed;
                actions.push(
                    Action::Fatal(
                        Fatal::VersionMismatch {
                            version: self.proposed_version.clone(),
                            offered: version.clone(),
                        },
                    ),
                );
            },
            ServerMessage::Result { id, error, .. } => {
                let ours = match &self.login_call {
                    Some(call) => str_eq(call.as_str(), id.as_str()),
                    None => false,
                };
                if ours {
                    self.login_call = None;
                    match error {
                        None => {
                            self.phase = Phase::Ready;
                            actions.push(Action::Resubscribe);
                        },
                        Some(error) => {
                            self.phase = Phase::FatallyClosed;
                            actions.push(Action::Fatal(classify_login_failure(error)));
                        },
                    }
                }
            },
            _ => {},
        }
        actions
    }
}

/// Decides whether a failed login means that the token is dead.
fn classify_login_failure(error: &DdpError) -> (r: Fatal)
    ensures
        is_login_failure(r, *error),
{
    let why: String = match (&error.reason, &error.message) {
        (Some(reason), _) => reason.clone(),
        (None, Some(message)) => message.clone(),
        (None, None) => error.error.to_text(),
    };
    if error.is_expired_session() {
        Fatal::SessionExpired(why)
    } else {
        Fatal::LoginRejected(why)
    }
}

/// A ping is answered with its own id in every phase, and moves nothing.
pub proof fn law_ping_is_always_answered(
    s: SessionModel,
    id: Option<String>,
    next: SessionModel,
    actions: Seq<Action>,
)
    requires
        is_step(s, (ServerMessage::Ping { id }), next, actions),
    ensures
        next == s,
        actions == seq![Action::Send(ClientMessage::Pong { id })],
{
}

/// The result of a call other than the outstanding login moves nothing: neither someone else's
/// call nor a login of a connection that is gone.
pub proof fn law_other_results_move_nothing(
    s: SessionModel,
    message: ServerMessage,
    next: SessionModel,
    actions: Seq<Action>,
)
    requires
        message is Result,
        !answers_login(s, message),
        is_step(s, message, next, actions),
    ensures
        next == s,
        actions.len() == 0,
{
}

/// Only a refused version or a refused login fails a connection for good, and then the runner
/// is told to stop.
pub proof fn law_fatal_only_on_refusal(
    s: SessionModel,
    message: ServerMessage,
    next: SessionModel,
    actions: Seq<Action>,
)
    requires
        s.phase != Phase::FatallyClosed,
        next.phase == Phase::FatallyClosed,
        is_step(s, message, next, actions),
    ensures
        message is Failed || (answers_login(s, message) && message->Result_error is Some),
        actions.len() == 1,
        actions[0] is Fatal,
{
}

/// A connection becomes ready only by the answer to its own login, and then every remembered
/// subscription is issued again.
pub proof fn law_ready_only_after_login(
    s: SessionModel,
    message: ServerMessage,
    next: SessionModel,
    actions: Seq<Action>,
)
    requires
        s.phase != Phase::Ready,
        next.phase == Phase::Ready,
        is_step(s, message, next, actions),
    ensures
        answers_login(s, message),
        message->Result_error is None,
        actions == seq![Action::Resubscribe],
{
}

/// A refused login is put in the words of the error's reason, else of its message, else of its
/// code; it is an expired session where the reason or the message says so, and a rejection
/// otherwise.
pub proof fn law_how_a_refused_login_is_told(error: DdpError, fatal: Fatal)
    requires
        is_login_failure(fatal, error),
    ensures
        says_expired(error.reason) || says_expired(error.message) <==> fatal is SessionExpired,
        !(says_expired(error.reason) || says_expired(error.message)) <==> fatal is LoginRejected,
        error.reason matches Some(reason) ==> login_text(error) == reason@,
        error.reason is None && error.message is Some ==> login_text(error)
            == error.message->0@,
        error.reason is None && error.message is None ==> login_text(error)
            == error.error.text(),
        fatal matches Fatal::SessionExpired(why) ==> why@ == login_text(error),
        fatal matches Fatal::LoginRejected(why) ==> why@ == login_text(error),
{
}

/// What a session does about a frame: it answers a ping with its id, logs in when it is connected,
/// gives up when no version is agreed on or the login is refused, and starts over its
/// subscriptions when the login succeeds. Nothing else moves it.
pub proof fn law_what_a_session_does_about_a_frame(
    s: SessionModel,
    message: ServerMessage,
    next: SessionModel,
    actions: Seq<Action>,
)
    requires
        is_step(s, message, next, actions),
        !message.malformed(),
    ensures
        message matches ServerMessage::Ping { id } ==> next == s && actions.len() == 1
            && actions[0] == Action::Send(ClientMessage::Pong { id }),
        message matches ServerMessage::Connected { session } ==> next.phase
            == Phase::Authenticating && next.session_id == Some(session@) && next.version
            == s.version && next.login_call == s.login_call && actions.len() == 1 && actions[0]
            == Action::Login,
        message matches ServerMessage::Failed { version } ==> next.phase == Phase::FatallyClosed
            && actions.len() == 1 && (actions[0] matches Action::Fatal(
            Fatal::VersionMismatch { version: asked, offered },
        ) && asked@ == s.version && offered@ == version@),
        message matches ServerMessage::Result { id, error: None, .. } && s.login_call == Some(id@)
            ==> next.phase == Phase::Ready && next.login_call is None && actions.len() == 1
            && actions[0] == Action::Resubscribe,
        message matches ServerMessage::Result { id, error: Some(error), .. } && s.login_call
            == Some(id@) ==> next.phase == Phase::FatallyClosed && next.login_call is None
            && actions.len() == 1 && actions[0] is Fatal,
        message matches ServerMessage::Result { id, .. } && s.login_call != Some(id@) ==> next == s
            && actions.len() == 0,
        !(message is Ping || message is Connected || message is Failed || message is Result)
            ==> next == s && actions.len() == 0,
{
}

} // verus!

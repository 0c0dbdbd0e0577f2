//! The streams that the server declares, with the shape of each event name and the number of
//! arguments that it promises.
//!
//! This is an index, not a decoder. Arities are a hint and never a rule: they have changed
//! across server releases, and some events carry more than is declared.
use crate::text::{halves, split_once, str_eq, strip_prefix};
use crate::model::event::bare;
use vstd::prelude::*;
use vstd::string::*;

verus! {

/// The server commit that the catalog was read from.
pub const UPSTREAM_COMMIT: &'static str = "ea163f56b53b1dd40d49af39e0406397cbd24939";

/// The server version at that commit.
pub const UPSTREAM_VERSION: &'static str = "8.8.0-develop";

/// How many streams are declared.
pub const STREAM_COUNT: usize = 17;

/// How many events are declared, across all streams.
pub const EVENT_COUNT: usize = 80;

/// One stream. Its collection is this name with a `stream-` prefix.
#[derive(Clone, Debug, PartialEq, Eq)]
pub struct StreamSpec {
    /// The name, without the prefix.
    pub name: &'static str,
    /// The events, in declaration order.
    pub events: Vec<EventSpec>,
}

/// One event of a stream.
#[derive(Clone, Debug, PartialEq, Eq)]
pub struct EventSpec {
    /// The shape of the event names that this entry matches.
    pub key: KeyPattern,
    /// The declared numbers of arguments, ascending.
    pub arities: Vec<usize>,
    /// Whether an alternative is an unbounded list.
    pub variadic: bool,
    /// The declared type of the arguments.
    pub args: &'static str,
}

/// The shape of an event name.
#[derive(Clone, Copy, Debug, PartialEq, Eq)]
pub enum KeyPattern {
    /// A fixed name.
    Literal(&'static str),
    /// An id, a slash, then this suffix.
    Suffix(&'static str),
    /// This prefix, a slash, then free text.
    Prefix(&'static str),
    /// Any name.
    Any,
}

/// What a [`KeyPattern`] is.
pub enum KeyModel {
    Literal(Seq<char>),
    Suffix(Seq<char>),
    Prefix(Seq<char>),
    Any,
}

/// What an [`EventSpec`] is.
#[verifier::ext_equal]
pub struct EventModel {
    pub key: KeyModel,
    pub arities: Seq<usize>,
    pub variadic: bool,
    pub args: Seq<char>,
}

/// What a [`StreamSpec`] is.
pub struct StreamModel {
    pub name: Seq<char>,
    pub events: Seq<EventModel>,
}

impl View for KeyPattern {
    type V = KeyModel;

    open spec fn view(&self) -> KeyModel {
        match *self {
            KeyPattern::Literal(s) => KeyModel::Literal(s@),
            KeyPattern::Suffix(s) => KeyModel::Suffix(s@),
            KeyPattern::Prefix(s) => KeyModel::Prefix(s@),
            KeyPattern::Any => KeyModel::Any,
        }
    }
}

impl View for EventSpec {
    type V = EventModel;

    open spec fn view(&self) -> EventModel {
        EventModel {
            key: self.key@,
            arities: self.arities@,
            variadic: self.variadic,
            args: self.args@,
        }
    }
}

impl View for StreamSpec {
    type V = StreamModel;

    open spec fn view(&self) -> StreamModel {
        StreamModel {
            name: self.name@,
            events: Seq::new(self.events@.len(), |i: int| self.events@[i]@),
        }
    }
}

impl KeyModel {
    /// Whether an event name has this shape. Composite names are split at their first slash.
    pub open spec fn fits(self, key: Seq<char>) -> bool {
        match self {
            KeyModel::Literal(value) => key == value,
            KeyModel::Suffix(suffix) => halves(key, '/') matches Some((head, rest)) && head.len()
                > 0 && rest == suffix,
            KeyModel::Prefix(prefix) => halves(key, '/') matches Some((head, rest)) && head
                == prefix && rest.len() > 0,
            KeyModel::Any => true,
        }
    }
}

impl KeyPattern {
    /// Whether an event name has this shape. Composite names are split at their first slash.
    pub fn matches(&self, key: &str) -> (r: bool)
        ensures
            r == self@.fits(key@),
    {
        match *self {
            KeyPattern::Literal(value) => str_eq(key, value),
            KeyPattern::Suffix(suffix) => match split_once(key, '/') {
                Some((head, rest)) => !head.is_empty() && str_eq(rest, suffix),
                None => false,
            },
            KeyPattern::Prefix(prefix) => match split_once(key, '/') {
                Some((head, rest)) => str_eq(head, prefix) && !rest.is_empty(),
                None => false,
            },
            KeyPattern::Any => true,
        }
    }
}

/// Position of the first event that a name has the shape of, or the number of events.
pub open spec fn first_event(events: Seq<EventModel>, key: Seq<char>, from: int) -> int
    decreases events.len() - from,
{
    if from < 0 || from >= events.len() {
        events.len() as int
    } else if events[from].key.fits(key) {
        from
    } else {
        first_event(events, key, from + 1)
    }
}

/// Position of the first stream with a name, or the number of streams.
pub open spec fn first_stream(streams: Seq<StreamModel>, name: Seq<char>, from: int) -> int
    decreases streams.len() - from,
{
    if from < 0 || from >= streams.len() {
        streams.len() as int
    } else if streams[from].name == name {
        from
    } else {
        first_stream(streams, name, from + 1)
    }
}

impl StreamModel {
    /// The first event, in declaration order, that a name has the shape of.
    pub open spec fn entry(self, key: Seq<char>) -> Option<EventModel> {
        let at = first_event(self.events, key, 0);
        if at < self.events.len() {
            Some(self.events[at])
        } else {
            None
        }
    }
}

proof fn lemma_first_event(events: Seq<EventModel>, key: Seq<char>, from: int)
    requires
        0 <= from <= events.len(),
    ensures
        from <= first_event(events, key, from) <= events.len(),
        first_event(events, key, from) < events.len() ==> events[first_event(
            events,
            key,
            from,
        )].key.fits(key),
        forall|i: int|
            from <= i < first_event(events, key, from) ==> !(#[trigger] events[i]).key.fits(key),
    decreases events.len() - from,
{
    if from < events.len() && !events[from].key.fits(key) {
        lemma_first_event(events, key, from + 1);
    }
}

/// The first entry that a name has the shape of wins, so that a specific name is never taken for
/// one that fits anything and is declared after it; and a name that has the shape of some entry
/// is always found.
pub proof fn law_first_entry_wins(stream: StreamModel, key: Seq<char>, at: int)
    requires
        0 <= at < stream.events.len(),
        stream.events[at].key.fits(key),
    ensures
        stream.entry(key) is Some,
        stream.entry(key)->0.key.fits(key),
        (forall|i: int| 0 <= i < at ==> !(#[trigger] stream.events[i]).key.fits(key))
            ==> stream.entry(key) == Some(stream.events[at]),
{
    lemma_first_event(stream.events, key, 0);
    let first = first_event(stream.events, key, 0);
    if first > at {
        assert(!stream.events[at].key.fits(key));
    }
    if first < at {
        assert(stream.events[first].key.fits(key));
    }
}

impl StreamSpec {
    /// The first event, in declaration order, that a name has the shape of. The order matters:
    /// some streams declare a name that fits anything after their specific ones.
    pub fn event(&self, key: &str) -> (r: Option<&EventSpec>)
        ensures
            match r {
                Some(e) => self@.entry(key@) == Some(e@),
                None => self@.entry(key@) is None,
            },
    {
        let mut i: usize = 0;
        while i < self.events.len()
            invariant
                i <= self.events@.len(),
                first_event(self@.events, key@, 0) == first_event(self@.events, key@, i as int),
            decreases self.events@.len() - i,
        {
            if self.events[i].key.matches(key) {
                return Some(&self.events[i]);
            }
            i += 1;
        }
        None
    }
}

/// The stream with a name, given with or without the collection prefix.
pub open spec fn declared_stream(name: Seq<char>) -> Option<StreamModel> {
    let at = first_stream(declared(), bare(name), 0);
    if at < declared().len() {
        Some(declared()[at])
    } else {
        None
    }
}

/// The stream with a name, given with or without the collection prefix.
pub fn stream(name: &str) -> (r: Option<StreamSpec>)
    ensures
        match r {
            Some(s) => declared_stream(name@) == Some(s@),
            None => declared_stream(name@) is None,
        },
{
    let wanted = match strip_prefix(name, "stream-") {
        Some(rest) => rest,
        None => name,
    };
    let mut all = streams();
    let mut i: usize = 0;
    while i < all.len()
        invariant
            i <= all@.len(),
            wanted@ == bare(name@),
            all@.len() == declared().len(),
            forall|k: int| 0 <= k < all@.len() ==> (#[trigger] all@[k])@ == declared()[k],
            first_stream(declared(), bare(name@), 0) == first_stream(
                declared(),
                bare(name@),
                i as int,
            ),
        decreases all@.len() - i,
    {
        assert(all@[i as int]@ == declared()[i as int]);
        assert(all@[i as int]@.name == all@[i as int].name@);
        if str_eq(all[i].name, wanted) {
            return Some(all.swap_remove(i));
        }
        i += 1;
    }
    None
}

/// The entry that an event name on a stream resolves to.
pub fn event(stream_name: &str, key: &str) -> (r: Option<EventSpec>)
    ensures
        match r {
            Some(e) => declared_stream(stream_name@) matches Some(s) && s.entry(key@) == Some(e@),
            None => declared_stream(stream_name@) matches Some(s) ==> s.entry(key@) is None,
        },
{
    let mut found = match stream(stream_name) {
        Some(found) => found,
        None => {
            return None;
        },
    };
    let ghost model = found@;
    let mut i: usize = 0;
    while i < found.events.len()
        invariant
            found@ == model,
            declared_stream(stream_name@) == Some(model),
            i <= found.events@.len(),
            first_event(model.events, key@, 0) == first_event(model.events, key@, i as int),
        decreases found.events@.len() - i,
    {
        assert(model.events[i as int] == found.events@[i as int]@);
        if found.events[i].key.matches(key) {
            return Some(found.events.swap_remove(i));
        }
        i += 1;
    }
    None
}

fn one(a: usize) -> (r: Vec<usize>)
    ensures
        r@ == seq![a],
{
    let mut list: Vec<usize> = Vec::new();
    list.push(a);
    list
}

fn two(a: usize, b: usize) -> (r: Vec<usize>)
    ensures
        r@ == seq![a, b],
{
    let mut list: Vec<usize> = Vec::new();
    list.push(a);
    list.push(b);
    list
}

fn three(a: usize, b: usize, c: usize) -> (r: Vec<usize>)
    ensures
        r@ == seq![a, b, c],
{
    let mut list: Vec<usize> = Vec::new();
    list.push(a);
    list.push(b);
    list.push(c);
    list
}

fn entry(key: KeyPattern, arities: Vec<usize>, variadic: bool, args: &'static str) -> (r: EventSpec)
    ensures
        r@ == (EventModel { key: key@, arities: arities@, variadic, args: args@ }),
{
    EventSpec { key, arities, variadic, args }
}

/// Every stream, in declaration order.
pub open spec fn declared() -> Seq<StreamModel> {
    seq![
        declared_roles(),
        declared_notify_room(),
        declared_room_messages(),
        declared_notify_all(),
        declared_notify_user(),
        declared_importers(),
        declared_notify_logged(),
        declared_room_data(),
        declared_notify_room_users(),
        declared_livechat_room(),
        declared_user_presence(),
        declared_integration_history(),
        declared_canned_responses(),
        declared_livechat_inquiry_queue_observer(),
        declared_apps(),
        declared_apps_engine(),
        declared_local(),
    ]
}

/// Every stream, in declaration order.
pub fn streams() -> (r: Vec<StreamSpec>)
    ensures
        r@.len() == declared().len(),
        forall|i: int| 0 <= i < r@.len() ==> (#[trigger] r@[i])@ == declared()[i],
{
    let mut all: Vec<StreamSpec> = Vec::new();
    all.push(stream_roles());
    all.push(stream_notify_room());
    all.push(stream_room_messages());
    all.push(stream_notify_all());
    all.push(stream_notify_user());
    all.push(stream_importers());
    all.push(stream_notify_logged());
    all.push(stream_room_data());
    all.push(stream_notify_room_users());
    all.push(stream_livechat_room());
    all.push(stream_user_presence());
    all.push(stream_integration_history());
    all.push(stream_canned_responses());
    all.push(stream_livechat_inquiry_queue_observer());
    all.push(stream_apps());
    all.push(stream_apps_engine());
    all.push(stream_local());
    all
}

/// The events of `roles`.
pub open spec fn declared_roles() -> StreamModel {
    StreamModel {
        name: "roles"@,
        events: seq![
            EventModel {
                key: KeyModel::Literal("roles"@),
                arities: seq![1usize],
                variadic: false,
                args: "[ IRole & { type: 'inserted' | 'updated' | 'removed' | 'changed'; }, ]"@,
            },
        ],
    }
}

fn stream_roles() -> (r: StreamSpec)
    ensures
        r@ == declared_roles(),
{
    let mut events: Vec<EventSpec> = Vec::new();
    events.push(
        entry(
            KeyPattern::Literal("roles"),
            one(1),
            false,
            "[ IRole & { type: 'inserted' | 'updated' | 'removed' | 'changed'; }, ]",
        ),
    );
    let spec = StreamSpec { name: "roles", events };
    proof {
        assert(spec@.events =~~= declared_roles().events);
    }
    spec
}

/// The events of `notify-room`.
pub open spec fn declared_notify_room() -> StreamModel {
    StreamModel {
        name: "notify-room"@,
        events: seq![
            EventModel {
                key: KeyModel::Suffix("user-activity"@),
                arities: seq![2usize],
                variadic: false,
                args: "[username: string, activities: string[]]"@,
            },
            EventModel {
                key: KeyModel::Suffix("typing"@),
                arities: seq![2usize],
                variadic: false,
                args: "[username: string, typing: boolean]"@,
            },
            EventModel {
                key: KeyModel::Suffix("deleteMessageBulk"@),
                arities: seq![1usize],
                variadic: false,
                args: "[ args: { rid: IMessage['rid']; excludePinned: boolean; ignoreDiscussion: boolean; ts: Record<string, Date>; users: string[]; ids?: string[]; showDeletedStatus?: boolean; } & ( | { filesOnly: true; replaceFileAttachmentsWith?: MessageAttachment; } | { filesOnly?: false; } ), ]"@,
            },
            EventModel {
                key: KeyModel::Suffix("deleteMessage"@),
                arities: seq![1usize],
                variadic: false,
                args: "[{ _id: IMessage['_id'] }]"@,
            },
            EventModel {
                key: KeyModel::Suffix("e2e.keyRequest"@),
                arities: seq![1usize],
                variadic: false,
                args: "[unknown]"@,
            },
            EventModel {
                key: KeyModel::Suffix("videoconf"@),
                arities: seq![1usize],
                variadic: false,
                args: "[id: string]"@,
            },
            EventModel {
                key: KeyModel::Suffix("messagesRead"@),
                arities: seq![1usize],
                variadic: false,
                args: "[{ until: Date; tmid?: string }]"@,
            },
            EventModel {
                key: KeyModel::Suffix("messagesImported"@),
                arities: seq![1usize],
                variadic: false,
                args: "[null]"@,
            },
        ],
    }
}

fn stream_notify_room() -> (r: StreamSpec)
    ensures
        r@ == declared_notify_room(),
{
    let mut events: Vec<EventSpec> = Vec::new();
    events.push(
        entry(
            KeyPattern::Suffix("user-activity"),
            one(2),
            false,
            "[username: string, activities: string[]]",
        ),
    );
    events.push(
        entry(
            KeyPattern::Suffix("typing"),
            one(2),
            false,
            "[username: string, typing: boolean]",
        ),
    );
    events.push(
        entry(
            KeyPattern::Suffix("deleteMessageBulk"),
            one(1),
            false,
            "[ args: { rid: IMessage['rid']; excludePinned: boolean; ignoreDiscussion: boolean; ts: Record<string, Date>; users: string[]; ids?: string[]; showDeletedStatus?: boolean; } & ( | { filesOnly: true; replaceFileAttachmentsWith?: MessageAttachment; } | { filesOnly?: false; } ), ]",
        ),
    );
    events.push(
        entry(
            KeyPattern::Suffix("deleteMessage"),
            one(1),
            false,
            "[{ _id: IMessage['_id'] }]",
        ),
    );
    events.push(
        entry(
            KeyPattern::Suffix("e2e.keyRequest"),
            one(1),
            false,
            "[unknown]",
        ),
    );
    events.push(
        entry(
            KeyPattern::Suffix("videoconf"),
            one(1),
            false,
            "[id: string]",
        ),
    );
    events.push(
        entry(
            KeyPattern::Suffix("messagesRead"),
            one(1),
            false,
            "[{ until: Date; tmid?: string }]",
        ),
    );
    events.push(
        entry(
            KeyPattern::Suffix("messagesImported"),
            one(1),
            false,
            "[null]",
        ),
    );
    let spec = StreamSpec { name: "notify-room", events };
    proof {
        assert(spec@.events =~~= declared_notify_room().events);
    }
    spec
}

/// The events of `room-messages`.
pub open spec fn declared_room_messages() -> StreamModel {
    StreamModel {
        name: "room-messages"@,
        events: seq![
            EventModel {
                key: KeyModel::Literal("__my_messages__"@),
                arities: seq![1usize],
                variadic: false,
                args: "[IMessage]"@,
            },
            EventModel {
                key: KeyModel::Any,
                arities: seq![1usize, 2usize, 3usize],
                variadic: false,
                args: "[message: IMessage, user?: IUser, room?: IRoom]"@,
            },
        ],
    }
}

fn stream_room_messages() -> (r: StreamSpec)
    ensures
        r@ == declared_room_messages(),
{
    let mut events: Vec<EventSpec> = Vec::new();
    events.push(
        entry(
            KeyPattern::Literal("__my_messages__"),
            one(1),
            false,
            "[IMessage]",
        ),
    );
    events.push(
        entry(
            KeyPattern::Any,
            three(1, 2, 3),
            false,
            "[message: IMessage, user?: IUser, room?: IRoom]",
        ),
    );
    let spec = StreamSpec { name: "room-messages", events };
    proof {
        assert(spec@.events =~~= declared_room_messages().events);
    }
    spec
}

/// The events of `notify-all`.
pub open spec fn declared_notify_all() -> StreamModel {
    StreamModel {
        name: "notify-all"@,
        events: seq![
            EventModel {
                key: KeyModel::Literal("public-info"@),
                arities: seq![1usize],
                variadic: false,
                args: "[ | [key: 'public-settings-changed', args: ['inserted' | 'updated' | 'removed' | 'changed', ISetting]] | [key: 'deleteCustomSound', args: [{ soundData: ICustomSound }]] | [key: 'updateCustomSound', args: [{ soundData: ICustomSound }]], ]"@,
            },
            EventModel {
                key: KeyModel::Literal("public-settings-changed"@),
                arities: seq![2usize],
                variadic: false,
                args: "['inserted' | 'updated' | 'removed' | 'changed', ISetting]"@,
            },
            EventModel {
                key: KeyModel::Literal("deleteCustomSound"@),
                arities: seq![1usize],
                variadic: false,
                args: "[{ soundData: ICustomSound }]"@,
            },
            EventModel {
                key: KeyModel::Literal("updateCustomSound"@),
                arities: seq![1usize],
                variadic: false,
                args: "[{ soundData: ICustomSound }]"@,
            },
            EventModel {
                key: KeyModel::Literal("license"@),
                arities: seq![0usize, 1usize],
                variadic: false,
                args: "[{ preventedActions: Record<LicenseLimitKind, boolean> }] | []"@,
            },
        ],
    }
}

fn stream_notify_all() -> (r: StreamSpec)
    ensures
        r@ == declared_notify_all(),
{
    let mut events: Vec<EventSpec> = Vec::new();
    events.push(
        entry(
            KeyPattern::Literal("public-info"),
            one(1),
            false,
            "[ | [key: 'public-settings-changed', args: ['inserted' | 'updated' | 'removed' | 'changed', ISetting]] | [key: 'deleteCustomSound', args: [{ soundData: ICustomSound }]] | [key: 'updateCustomSound', args: [{ soundData: ICustomSound }]], ]",
        ),
    );
    events.push(
        entry(
            KeyPattern::Literal("public-settings-changed"),
            one(2),
            false,
            "['inserted' | 'updated' | 'removed' | 'changed', ISetting]",
        ),
    );
    events.push(
        entry(
            KeyPattern::Literal("deleteCustomSound"),
            one(1),
            false,
            "[{ soundData: ICustomSound }]",
        ),
    );
    events.push(
        entry(
            KeyPattern::Literal("updateCustomSound"),
            one(1),
            false,
            "[{ soundData: ICustomSound }]",
        ),
    );
    events.push(
        entry(
            KeyPattern::Literal("license"),
            two(0, 1),
            false,
            "[{ preventedActions: Record<LicenseLimitKind, boolean> }] | []",
        ),
    );
    let spec = StreamSpec { name: "notify-all", events };
    proof {
        assert(spec@.events =~~= declared_notify_all().events);
    }
    spec
}

/// The events of `notify-user`.
pub open spec fn declared_notify_user() -> StreamModel {
    StreamModel {
        name: "notify-user"@,
        events: seq![
            EventModel {
                key: KeyModel::Suffix("rooms-changed"@),
                arities: seq![2usize],
                variadic: false,
                args: "['inserted' | 'updated' | 'removed' | 'changed', IRoom]"@,
            },
            EventModel {
                key: KeyModel::Suffix("subscriptions-changed"@),
                arities: seq![2usize],
                variadic: false,
                args: "| [ 'removed', { _id: string; u?: Pick<IUser, '_id' | 'username' | 'name'>; rid?: string; t?: string; }, ] | [ 'inserted' | 'updated', Pick< ISubscription, | 't' | 'ts' | 'ls' | 'lr' | 'name' | 'fname' | 'rid' | 'code' | 'f' | 'u' | 'open' | 'alert' | 'roles' | 'unread' | 'prid' | 'userMentions' | 'groupMentions' | 'archived' | 'audioNotificationValue' | 'desktopNotifications' | 'mobilePushNotifications' | 'emailNotifications' | 'desktopPrefOrigin' | 'mobilePrefOrigin' | 'emailPrefOrigin' | 'unreadAlert' | '_updatedAt' | 'blocked' | 'blocker' | 'autoTranslate' | 'autoTranslateLanguage' | 'disableNotifications' | 'hideUnreadStatus' | 'hideMentionStatus' | 'muteGroupMentions' | 'ignored' | 'E2EKey' | 'E2ESuggestedKey' | 'oldRoomKeys' | 'tunread' | 'tunreadGroup' | 'tunreadUser' | 'department' | 'v' | 'onHold' >, ]"@,
            },
            EventModel {
                key: KeyModel::Suffix("message"@),
                arities: seq![1usize],
                variadic: false,
                args: "[IMessage]"@,
            },
            EventModel {
                key: KeyModel::Suffix("force_logout"@),
                arities: seq![1usize],
                variadic: false,
                args: "[ISession['sessionId'] | undefined]"@,
            },
            EventModel {
                key: KeyModel::Suffix("webdav"@),
                arities: seq![1usize],
                variadic: false,
                args: "[{ type: 'changed'; account: Partial<IWebdavAccount> } | { type: 'removed'; account: { _id: IWebdavAccount['_id'] } }]"@,
            },
            EventModel {
                key: KeyModel::Suffix("e2ekeyRequest"@),
                arities: seq![2usize],
                variadic: false,
                args: "[string, string]"@,
            },
            EventModel {
                key: KeyModel::Suffix("notification"@),
                arities: seq![1usize],
                variadic: false,
                args: "[INotificationDesktop]"@,
            },
            EventModel {
                key: KeyModel::Suffix("call.hangup"@),
                arities: seq![1usize],
                variadic: false,
                args: "[{ roomId: string }]"@,
            },
            EventModel {
                key: KeyModel::Suffix("uiInteraction"@),
                arities: seq![1usize],
                variadic: false,
                args: "[UiKit.ServerInteraction]"@,
            },
            EventModel {
                key: KeyModel::Suffix("video-conference"@),
                arities: seq![1usize],
                variadic: false,
                args: "[{ action: string; params: { callId: VideoConference['_id']; uid: IUser['_id']; rid: IRoom['_id'] } }]"@,
            },
            EventModel {
                key: KeyModel::Suffix("media-signal"@),
                arities: seq![1usize],
                variadic: false,
                args: "[ServerMediaSignal]"@,
            },
            EventModel {
                key: KeyModel::Suffix("userData"@),
                arities: seq![1usize],
                variadic: false,
                args: "[IUserDataEvent]"@,
            },
            EventModel {
                key: KeyModel::Suffix("updateInvites"@),
                arities: seq![1usize],
                variadic: false,
                args: "[unknown]"@,
            },
            EventModel {
                key: KeyModel::Suffix("departmentAgentData"@),
                arities: seq![1usize],
                variadic: false,
                args: "[unknown]"@,
            },
            EventModel {
                key: KeyModel::Suffix("calendar"@),
                arities: seq![1usize],
                variadic: false,
                args: "[ICalendarNotification]"@,
            },
            EventModel {
                key: KeyModel::Suffix("banners"@),
                arities: seq![1usize],
                variadic: false,
                args: "[IBanner]"@,
            },
        ],
    }
}

fn stream_notify_user() -> (r: StreamSpec)
    ensures
        r@ == declared_notify_user(),
{
    let mut events: Vec<EventSpec> = Vec::new();
    events.push(
        entry(
            KeyPattern::Suffix("rooms-changed"),
            one(2),
            false,
            "['inserted' | 'updated' | 'removed' | 'changed', IRoom]",
        ),
    );
    events.push(
        entry(
            KeyPattern::Suffix("subscriptions-changed"),
            one(2),
            false,
            "| [ 'removed', { _id: string; u?: Pick<IUser, '_id' | 'username' | 'name'>; rid?: string; t?: string; }, ] | [ 'inserted' | 'updated', Pick< ISubscription, | 't' | 'ts' | 'ls' | 'lr' | 'name' | 'fname' | 'rid' | 'code' | 'f' | 'u' | 'open' | 'alert' | 'roles' | 'unread' | 'prid' | 'userMentions' | 'groupMentions' | 'archived' | 'audioNotificationValue' | 'desktopNotifications' | 'mobilePushNotifications' | 'emailNotifications' | 'desktopPrefOrigin' | 'mobilePrefOrigin' | 'emailPrefOrigin' | 'unreadAlert' | '_updatedAt' | 'blocked' | 'blocker' | 'autoTranslate' | 'autoTranslateLanguage' | 'disableNotifications' | 'hideUnreadStatus' | 'hideMentionStatus' | 'muteGroupMentions' | 'ignored' | 'E2EKey' | 'E2ESuggestedKey' | 'oldRoomKeys' | 'tunread' | 'tunreadGroup' | 'tunreadUser' | 'department' | 'v' | 'onHold' >, ]",
        ),
    );
    events.push(
        entry(
            KeyPattern::Suffix("message"),
            one(1),
            false,
            "[IMessage]",
        ),
    );
    events.push(
        entry(
            KeyPattern::Suffix("force_logout"),
            one(1),
            false,
            "[ISession['sessionId'] | undefined]",
        ),
    );
    events.push(
        entry(
            KeyPattern::Suffix("webdav"),
            one(1),
            false,
            "[{ type: 'changed'; account: Partial<IWebdavAccount> } | { type: 'removed'; account: { _id: IWebdavAccount['_id'] } }]",
        ),
    );
    events.push(
        entry(
            KeyPattern::Suffix("e2ekeyRequest"),
            one(2),
            false,
            "[string, string]",
        ),
    );
    events.push(
        entry(
            KeyPattern::Suffix("notification"),
            one(1),
            false,
            "[INotificationDesktop]",
        ),
    );
    events.push(
        entry(
            KeyPattern::Suffix("call.hangup"),
            one(1),
            false,
            "[{ roomId: string }]",
        ),
    );
    events.push(
        entry(
            KeyPattern::Suffix("uiInteraction"),
            one(1),
            false,
            "[UiKit.ServerInteraction]",
        ),
    );
    events.push(
        entry(
            KeyPattern::Suffix("video-conference"),
            one(1),
            false,
            "[{ action: string; params: { callId: VideoConference['_id']; uid: IUser['_id']; rid: IRoom['_id'] } }]",
        ),
    );
    events.push(
        entry(
            KeyPattern::Suffix("media-signal"),
            one(1),
            false,
            "[ServerMediaSignal]",
        ),
    );
    events.push(
        entry(
            KeyPattern::Suffix("userData"),
            one(1),
            false,
            "[IUserDataEvent]",
        ),
    );
    events.push(
        entry(
            KeyPattern::Suffix("updateInvites"),
            one(1),
            false,
            "[unknown]",
        ),
    );
    events.push(
        entry(
            KeyPattern::Suffix("departmentAgentData"),
            one(1),
            false,
            "[unknown]",
        ),
    );
    events.push(
        entry(
            KeyPattern::Suffix("calendar"),
            one(1),
            false,
            "[ICalendarNotification]",
        ),
    );
    events.push(
        entry(
            KeyPattern::Suffix("banners"),
            one(1),
            false,
            "[IBanner]",
        ),
    );
    let spec = StreamSpec { name: "notify-user", events };
    proof {
        assert(spec@.events =~~= declared_notify_user().events);
    }
    spec
}

/// The events of `importers`.
pub open spec fn declared_importers() -> StreamModel {
    StreamModel {
        name: "importers"@,
        events: seq![
            EventModel {
                key: KeyModel::Literal("progress"@),
                arities: seq![1usize],
                variadic: false,
                args: "[{ rate: number } | IImportProgress]"@,
            },
        ],
    }
}

fn stream_importers() -> (r: StreamSpec)
    ensures
        r@ == declared_importers(),
{
    let mut events: Vec<EventSpec> = Vec::new();
    events.push(
        entry(
            KeyPattern::Literal("progress"),
            one(1),
            false,
            "[{ rate: number } | IImportProgress]",
        ),
    );
    let spec = StreamSpec { name: "importers", events };
    proof {
        assert(spec@.events =~~= declared_importers().events);
    }
    spec
}

/// The events of `notify-logged`.
pub open spec fn declared_notify_logged() -> StreamModel {
    StreamModel {
        name: "notify-logged"@,
        events: seq![
            EventModel {
                key: KeyModel::Literal("updateCustomUserStatus"@),
                arities: seq![1usize],
                variadic: false,
                args: "[ { userStatusData: Omit<ICustomUserStatus, '_updatedAt'>; }, ]"@,
            },
            EventModel {
                key: KeyModel::Literal("permissions-changed"@),
                arities: seq![2usize],
                variadic: false,
                args: "['inserted' | 'updated' | 'removed' | 'changed', ISetting]"@,
            },
            EventModel {
                key: KeyModel::Literal("deleteEmojiCustom"@),
                arities: seq![1usize],
                variadic: false,
                args: "[{ emojiData: IEmoji }]"@,
            },
            EventModel {
                key: KeyModel::Literal("updateEmojiCustom"@),
                arities: seq![1usize],
                variadic: false,
                args: "[{ emojiData: IEmoji }]"@,
            },
            EventModel {
                key: KeyModel::Literal("new-banner"@),
                arities: seq![1usize],
                variadic: false,
                args: "[{ bannerId: string }]"@,
            },
            EventModel {
                key: KeyModel::Literal("banner-changed"@),
                arities: seq![1usize],
                variadic: false,
                args: "[{ bannerId: string }]"@,
            },
            EventModel {
                key: KeyModel::Literal("roles-change"@),
                arities: seq![1usize],
                variadic: false,
                args: "[ { type: 'added' | 'removed' | 'changed'; _id: IRole['_id']; u?: { _id: IUser['_id']; username: IUser['username']; name?: IUser['name'] }; scope?: string; }, ]"@,
            },
            EventModel {
                key: KeyModel::Literal("Users:NameChanged"@),
                arities: seq![1usize],
                variadic: false,
                args: "[Pick<IUser, '_id' | 'name' | 'username'>]"@,
            },
            EventModel {
                key: KeyModel::Literal("private-settings-changed"@),
                arities: seq![2usize],
                variadic: false,
                args: "['inserted' | 'updated' | 'removed' | 'changed', ISetting]"@,
            },
            EventModel {
                key: KeyModel::Literal("deleteCustomUserStatus"@),
                arities: seq![1usize],
                variadic: false,
                args: "[{ userStatusData: Omit<ICustomUserStatus, '_updatedAt'> }]"@,
            },
            EventModel {
                key: KeyModel::Literal("user-status"@),
                arities: seq![1usize],
                variadic: false,
                args: "[ [ uid: IUser['_id'], username: IUser['username'], status: PresenceStatusCode, statusText: IUser['statusText'], name: IUser['name'], roles: IUser['roles'], statusSource?: IUser['statusSource'], statusExpiresAt?: IUser['statusExpiresAt'], ], ]"@,
            },
            EventModel {
                key: KeyModel::Literal("Users:Deleted"@),
                arities: seq![1usize],
                variadic: false,
                args: "[ | { userId: IUser['_id']; messageErasureType: 'Delete'; replaceByUser?: never; } | { userId: IUser['_id']; messageErasureType: 'Unlink'; replaceByUser?: { _id: IUser['_id']; username: IUser['username']; alias: string }; }, ]"@,
            },
            EventModel {
                key: KeyModel::Literal("updateAvatar"@),
                arities: seq![1usize],
                variadic: false,
                args: "[{ username: IUser['username']; etag: IUser['avatarETag'] } | { rid: IRoom['_id']; etag: IRoom['avatarETag'] }]"@,
            },
            EventModel {
                key: KeyModel::Literal("omnichannel.priority-changed"@),
                arities: seq![1usize],
                variadic: false,
                args: "[{ id: string; clientAction: ClientAction; name?: string }]"@,
            },
        ],
    }
}

fn stream_notify_logged() -> (r: StreamSpec)
    ensures
        r@ == declared_notify_logged(),
{
    let mut events: Vec<EventSpec> = Vec::new();
    events.push(
        entry(
            KeyPattern::Literal("updateCustomUserStatus"),
            one(1),
            false,
            "[ { userStatusData: Omit<ICustomUserStatus, '_updatedAt'>; }, ]",
        ),
    );
    events.push(
        entry(
            KeyPattern::Literal("permissions-changed"),
            one(2),
            false,
            "['inserted' | 'updated' | 'removed' | 'changed', ISetting]",
        ),
    );
    events.push(
        entry(
            KeyPattern::Literal("deleteEmojiCustom"),
            one(1),
            false,
            "[{ emojiData: IEmoji }]",
        ),
    );
    events.push(
        entry(
            KeyPattern::Literal("updateEmojiCustom"),
            one(1),
            false,
            "[{ emojiData: IEmoji }]",
        ),
    );
    events.push(
        entry(
            KeyPattern::Literal("new-banner"),
            one(1),
            false,
            "[{ bannerId: string }]",
        ),
    );
    events.push(
        entry(
            KeyPattern::Literal("banner-changed"),
            one(1),
            false,
            "[{ bannerId: string }]",
        ),
    );
    events.push(
        entry(
            KeyPattern::Literal("roles-change"),
            one(1),
            false,
            "[ { type: 'added' | 'removed' | 'changed'; _id: IRole['_id']; u?: { _id: IUser['_id']; username: IUser['username']; name?: IUser['name'] }; scope?: string; }, ]",
        ),
    );
    events.push(
        entry(
            KeyPattern::Literal("Users:NameChanged"),
            one(1),
            false,
            "[Pick<IUser, '_id' | 'name' | 'username'>]",
        ),
    );
    events.push(
        entry(
            KeyPattern::Literal("private-settings-changed"),
            one(2),
            false,
            "['inserted' | 'updated' | 'removed' | 'changed', ISetting]",
        ),
    );
    events.push(
        entry(
            KeyPattern::Literal("deleteCustomUserStatus"),
            one(1),
            false,
            "[{ userStatusData: Omit<ICustomUserStatus, '_updatedAt'> }]",
        ),
    );
    events.push(
        entry(
            KeyPattern::Literal("user-status"),
            one(1),
            false,
            "[ [ uid: IUser['_id'], username: IUser['username'], status: PresenceStatusCode, statusText: IUser['statusText'], name: IUser['name'], roles: IUser['roles'], statusSource?: IUser['statusSource'], statusExpiresAt?: IUser['statusExpiresAt'], ], ]",
        ),
    );
    events.push(
        entry(
            KeyPattern::Literal("Users:Deleted"),
            one(1),
            false,
            "[ | { userId: IUser['_id']; messageErasureType: 'Delete'; replaceByUser?: never; } | { userId: IUser['_id']; messageErasureType: 'Unlink'; replaceByUser?: { _id: IUser['_id']; username: IUser['username']; alias: string }; }, ]",
        ),
    );
    events.push(
        entry(
            KeyPattern::Literal("updateAvatar"),
            one(1),
            false,
            "[{ username: IUser['username']; etag: IUser['avatarETag'] } | { rid: IRoom['_id']; etag: IRoom['avatarETag'] }]",
        ),
    );
    events.push(
        entry(
            KeyPattern::Literal("omnichannel.priority-changed"),
            one(1),
            false,
            "[{ id: string; clientAction: ClientAction; name?: string }]",
        ),
    );
    let spec = StreamSpec { name: "notify-logged", events };
    proof {
        assert(spec@.events =~~= declared_notify_logged().events);
    }
    spec
}

/// The events of `room-data`.
pub open spec fn declared_room_data() -> StreamModel {
    StreamModel {
        name: "room-data"@,
        events: seq![
            EventModel {
                key: KeyModel::Any,
                arities: seq![1usize],
                variadic: false,
                args: "[IOmnichannelRoom | Pick<IOmnichannelRoom, '_id'>]"@,
            },
        ],
    }
}

fn stream_room_data() -> (r: StreamSpec)
    ensures
        r@ == declared_room_data(),
{
    let mut events: Vec<EventSpec> = Vec::new();
    events.push(
        entry(
            KeyPattern::Any,
            one(1),
            false,
            "[IOmnichannelRoom | Pick<IOmnichannelRoom, '_id'>]",
        ),
    );
    let spec = StreamSpec { name: "room-data", events };
    proof {
        assert(spec@.events =~~= declared_room_data().events);
    }
    spec
}

/// The events of `notify-room-users`.
pub open spec fn declared_notify_room_users() -> StreamModel {
    StreamModel {
        name: "notify-room-users"@,
        events: seq![
            EventModel {
                key: KeyModel::Suffix("video-conference"@),
                arities: seq![1usize],
                variadic: false,
                args: "[{ action: string; params: { callId: VideoConference['_id']; uid: IUser['_id']; rid: IRoom['_id'] } }]"@,
            },
            EventModel {
                key: KeyModel::Suffix("userData"@),
                arities: seq![],
                variadic: true,
                args: "unknown[]"@,
            },
        ],
    }
}

fn stream_notify_room_users() -> (r: StreamSpec)
    ensures
        r@ == declared_notify_room_users(),
{
    let mut events: Vec<EventSpec> = Vec::new();
    events.push(
        entry(
            KeyPattern::Suffix("video-conference"),
            one(1),
            false,
            "[{ action: string; params: { callId: VideoConference['_id']; uid: IUser['_id']; rid: IRoom['_id'] } }]",
        ),
    );
    events.push(
        entry(
            KeyPattern::Suffix("userData"),
            Vec::new(),
            true,
            "unknown[]",
        ),
    );
    let spec = StreamSpec { name: "notify-room-users", events };
    proof {
        assert(spec@.events =~~= declared_notify_room_users().events);
    }
    spec
}

/// The events of `livechat-room`.
pub open spec fn declared_livechat_room() -> StreamModel {
    StreamModel {
        name: "livechat-room"@,
        events: seq![
            EventModel {
                key: KeyModel::Any,
                arities: seq![1usize],
                variadic: false,
                args: "[ | { type: 'agentStatus'; status: string; } | { type: 'queueData'; data: | { [k: string]: unknown; } | undefined; } | { type: 'agentData'; data: ILivechatAgent | undefined | { hiddenInfo: boolean }; } | { type: 'visitorData'; visitor: unknown; }, ]"@,
            },
        ],
    }
}

fn stream_livechat_room() -> (r: StreamSpec)
    ensures
        r@ == declared_livechat_room(),
{
    let mut events: Vec<EventSpec> = Vec::new();
    events.push(
        entry(
            KeyPattern::Any,
            one(1),
            false,
            "[ | { type: 'agentStatus'; status: string; } | { type: 'queueData'; data: | { [k: string]: unknown; } | undefined; } | { type: 'agentData'; data: ILivechatAgent | undefined | { hiddenInfo: boolean }; } | { type: 'visitorData'; visitor: unknown; }, ]",
        ),
    );
    let spec = StreamSpec { name: "livechat-room", events };
    proof {
        assert(spec@.events =~~= declared_livechat_room().events);
    }
    spec
}

/// The events of `user-presence`.
pub open spec fn declared_user_presence() -> StreamModel {
    StreamModel {
        name: "user-presence"@,
        events: seq![
            EventModel {
                key: KeyModel::Any,
                arities: seq![1usize],
                variadic: false,
                args: "[ [ username: string, statusChanged?: PresenceStatusCode, statusText?: string, statusSource?: IUser['statusSource'], statusExpiresAt?: IUser['statusExpiresAt'], ], ]"@,
            },
        ],
    }
}

fn stream_user_presence() -> (r: StreamSpec)
    ensures
        r@ == declared_user_presence(),
{
    let mut events: Vec<EventSpec> = Vec::new();
    events.push(
        entry(
            KeyPattern::Any,
            one(1),
            false,
            "[ [ username: string, statusChanged?: PresenceStatusCode, statusText?: string, statusSource?: IUser['statusSource'], statusExpiresAt?: IUser['statusExpiresAt'], ], ]",
        ),
    );
    let spec = StreamSpec { name: "user-presence", events };
    proof {
        assert(spec@.events =~~= declared_user_presence().events);
    }
    spec
}

/// The events of `integrationHistory`.
pub open spec fn declared_integration_history() -> StreamModel {
    StreamModel {
        name: "integrationHistory"@,
        events: seq![
            EventModel {
                key: KeyModel::Any,
                arities: seq![1usize],
                variadic: false,
                args: "[ | { type: 'removed'; id: string } | { id: string; diff: unknown; type: 'updated'; } | { type: 'inserted'; data: Partial<IIntegrationHistory>; }, ]"@,
            },
        ],
    }
}

fn stream_integration_history() -> (r: StreamSpec)
    ensures
        r@ == declared_integration_history(),
{
    let mut events: Vec<EventSpec> = Vec::new();
    events.push(
        entry(
            KeyPattern::Any,
            one(1),
            false,
            "[ | { type: 'removed'; id: string } | { id: string; diff: unknown; type: 'updated'; } | { type: 'inserted'; data: Partial<IIntegrationHistory>; }, ]",
        ),
    );
    let spec = StreamSpec { name: "integrationHistory", events };
    proof {
        assert(spec@.events =~~= declared_integration_history().events);
    }
    spec
}

/// The events of `canned-responses`.
pub open spec fn declared_canned_responses() -> StreamModel {
    StreamModel {
        name: "canned-responses"@,
        events: seq![
            EventModel {
                key: KeyModel::Literal("canned-responses"@),
                arities: seq![1usize, 2usize],
                variadic: false,
                args: "| [{ type: 'removed'; _id: string }, { agentsId: string }] | [{ type: 'removed'; _id: string }] | [ { type: 'changed' } & Omit<IOmnichannelCannedResponse, '_updatedAt' | '_createdAt'> & { _createdAt?: Date | undefined; }, ] | [{ type: 'changed' } & IOmnichannelCannedResponse, { agentsId: string }]"@,
            },
        ],
    }
}

fn stream_canned_responses() -> (r: StreamSpec)
    ensures
        r@ == declared_canned_responses(),
{
    let mut events: Vec<EventSpec> = Vec::new();
    events.push(
        entry(
            KeyPattern::Literal("canned-responses"),
            two(1, 2),
            false,
            "| [{ type: 'removed'; _id: string }, { agentsId: string }] | [{ type: 'removed'; _id: string }] | [ { type: 'changed' } & Omit<IOmnichannelCannedResponse, '_updatedAt' | '_createdAt'> & { _createdAt?: Date | undefined; }, ] | [{ type: 'changed' } & IOmnichannelCannedResponse, { agentsId: string }]",
        ),
    );
    let spec = StreamSpec { name: "canned-responses", events };
    proof {
        assert(spec@.events =~~= declared_canned_responses().events);
    }
    spec
}

/// The events of `livechat-inquiry-queue-observer`.
pub open spec fn declared_livechat_inquiry_queue_observer() -> StreamModel {
    StreamModel {
        name: "livechat-inquiry-queue-observer"@,
        events: seq![
            EventModel {
                key: KeyModel::Literal("public"@),
                arities: seq![1usize],
                variadic: false,
                args: "[ { type: 'added' | 'removed' | 'changed'; } & ILivechatInquiryRecord, ]"@,
            },
            EventModel {
                key: KeyModel::Prefix("department"@),
                arities: seq![1usize],
                variadic: false,
                args: "[ { type: 'added' | 'removed' | 'changed'; } & ILivechatInquiryRecord, ]"@,
            },
            EventModel {
                key: KeyModel::Prefix("agent"@),
                arities: seq![1usize],
                variadic: false,
                args: "[ { type: 'added' | 'removed' | 'changed'; } & ILivechatInquiryRecord, ]"@,
            },
            EventModel {
                key: KeyModel::Any,
                arities: seq![1usize],
                variadic: false,
                args: "[ { _id: string; clientAction: string; }, ]"@,
            },
        ],
    }
}

fn stream_livechat_inquiry_queue_observer() -> (r: StreamSpec)
    ensures
        r@ == declared_livechat_inquiry_queue_observer(),
{
    let mut events: Vec<EventSpec> = Vec::new();
    events.push(
        entry(
            KeyPattern::Literal("public"),
            one(1),
            false,
            "[ { type: 'added' | 'removed' | 'changed'; } & ILivechatInquiryRecord, ]",
        ),
    );
    events.push(
        entry(
            KeyPattern::Prefix("department"),
            one(1),
            false,
            "[ { type: 'added' | 'removed' | 'changed'; } & ILivechatInquiryRecord, ]",
        ),
    );
    events.push(
        entry(
            KeyPattern::Prefix("agent"),
            one(1),
            false,
            "[ { type: 'added' | 'removed' | 'changed'; } & ILivechatInquiryRecord, ]",
        ),
    );
    events.push(
        entry(
            KeyPattern::Any,
            one(1),
            false,
            "[ { _id: string; clientAction: string; }, ]",
        ),
    );
    let spec = StreamSpec { name: "livechat-inquiry-queue-observer", events };
    proof {
        assert(spec@.events =~~= declared_livechat_inquiry_queue_observer().events);
    }
    spec
}

/// The events of `apps`.
pub open spec fn declared_apps() -> StreamModel {
    StreamModel {
        name: "apps"@,
        events: seq![
            EventModel {
                key: KeyModel::Literal("app/added"@),
                arities: seq![1usize],
                variadic: false,
                args: "[string]"@,
            },
            EventModel {
                key: KeyModel::Literal("app/removed"@),
                arities: seq![1usize],
                variadic: false,
                args: "[string]"@,
            },
            EventModel {
                key: KeyModel::Literal("app/updated"@),
                arities: seq![1usize],
                variadic: false,
                args: "[string]"@,
            },
            EventModel {
                key: KeyModel::Literal("app/statusUpdate"@),
                arities: seq![1usize],
                variadic: false,
                args: "[ { appId: string; status: AppStatus; }, ]"@,
            },
            EventModel {
                key: KeyModel::Literal("app/settingUpdated"@),
                arities: seq![1usize],
                variadic: false,
                args: "[ { appId: string; setting: AppsSetting; }, ]"@,
            },
            EventModel {
                key: KeyModel::Literal("command/added"@),
                arities: seq![1usize],
                variadic: false,
                args: "[string]"@,
            },
            EventModel {
                key: KeyModel::Literal("command/disabled"@),
                arities: seq![1usize],
                variadic: false,
                args: "[string]"@,
            },
            EventModel {
                key: KeyModel::Literal("command/updated"@),
                arities: seq![1usize],
                variadic: false,
                args: "[string]"@,
            },
            EventModel {
                key: KeyModel::Literal("command/removed"@),
                arities: seq![1usize],
                variadic: false,
                args: "[string]"@,
            },
            EventModel {
                key: KeyModel::Literal("actions/changed"@),
                arities: seq![0usize],
                variadic: false,
                args: "[]"@,
            },
            EventModel {
                key: KeyModel::Literal("apps"@),
                arities: seq![1usize],
                variadic: false,
                args: "[ | [key: 'app/added', args: [string]] | [key: 'app/removed', args: [string]] | [key: 'app/updated', args: [string]] | [ key: 'app/statusUpdate', args: [ { appId: string; status: AppStatus; }, ], ] | [ key: 'app/settingUpdated', args: [ { appId: string; setting: AppsSetting; }, ], ] | [key: 'command/added', args: [string]] | [key: 'command/disabled', args: [string]] | [key: 'command/updated', args: [string]] | [key: 'command/removed', args: [string]] | [key: 'actions/changed', args: []], ]"@,
            },
        ],
    }
}

fn stream_apps() -> (r: StreamSpec)
    ensures
        r@ == declared_apps(),
{
    let mut events: Vec<EventSpec> = Vec::new();
    events.push(
        entry(
            KeyPattern::Literal("app/added"),
            one(1),
            false,
            "[string]",
        ),
    );
    events.push(
        entry(
            KeyPattern::Literal("app/removed"),
            one(1),
            false,
            "[string]",
        ),
    );
    events.push(
        entry(
            KeyPattern::Literal("app/updated"),
            one(1),
            false,
            "[string]",
        ),
    );
    events.push(
        entry(
            KeyPattern::Literal("app/statusUpdate"),
            one(1),
            false,
            "[ { appId: string; status: AppStatus; }, ]",
        ),
    );
    events.push(
        entry(
            KeyPattern::Literal("app/settingUpdated"),
            one(1),
            false,
            "[ { appId: string; setting: AppsSetting; }, ]",
        ),
    );
    events.push(
        entry(
            KeyPattern::Literal("command/added"),
            one(1),
            false,
            "[string]",
        ),
    );
    events.push(
        entry(
            KeyPattern::Literal("command/disabled"),
            one(1),
            false,
            "[string]",
        ),
    );
    events.push(
        entry(
            KeyPattern::Literal("command/updated"),
            one(1),
            false,
            "[string]",
        ),
    );
    events.push(
        entry(
            KeyPattern::Literal("command/removed"),
            one(1),
            false,
            "[string]",
        ),
    );
    events.push(
        entry(
            KeyPattern::Literal("actions/changed"),
            one(0),
            false,
            "[]",
        ),
    );
    events.push(
        entry(
            KeyPattern::Literal("apps"),
            one(1),
            false,
            "[ | [key: 'app/added', args: [string]] | [key: 'app/removed', args: [string]] | [key: 'app/updated', args: [string]] | [ key: 'app/statusUpdate', args: [ { appId: string; status: AppStatus; }, ], ] | [ key: 'app/settingUpdated', args: [ { appId: string; setting: AppsSetting; }, ], ] | [key: 'command/added', args: [string]] | [key: 'command/disabled', args: [string]] | [key: 'command/updated', args: [string]] | [key: 'command/removed', args: [string]] | [key: 'actions/changed', args: []], ]",
        ),
    );
    let spec = StreamSpec { name: "apps", events };
    proof {
        assert(spec@.events =~~= declared_apps().events);
    }
    spec
}

/// The events of `apps-engine`.
pub open spec fn declared_apps_engine() -> StreamModel {
    StreamModel {
        name: "apps-engine"@,
        events: seq![
            EventModel {
                key: KeyModel::Literal("app/added"@),
                arities: seq![1usize],
                variadic: false,
                args: "[string]"@,
            },
            EventModel {
                key: KeyModel::Literal("app/removed"@),
                arities: seq![1usize],
                variadic: false,
                args: "[string]"@,
            },
            EventModel {
                key: KeyModel::Literal("app/updated"@),
                arities: seq![1usize],
                variadic: false,
                args: "[string]"@,
            },
            EventModel {
                key: KeyModel::Literal("app/statusUpdate"@),
                arities: seq![1usize],
                variadic: false,
                args: "[ { appId: string; status: AppStatus; }, ]"@,
            },
            EventModel {
                key: KeyModel::Literal("app/settingUpdated"@),
                arities: seq![1usize],
                variadic: false,
                args: "[ { appId: string; setting: AppsSetting; }, ]"@,
            },
            EventModel {
                key: KeyModel::Literal("command/added"@),
                arities: seq![1usize],
                variadic: false,
                args: "[string]"@,
            },
            EventModel {
                key: KeyModel::Literal("command/disabled"@),
                arities: seq![1usize],
                variadic: false,
                args: "[string]"@,
            },
            EventModel {
                key: KeyModel::Literal("command/updated"@),
                arities: seq![1usize],
                variadic: false,
                args: "[string]"@,
            },
            EventModel {
                key: KeyModel::Literal("command/removed"@),
                arities: seq![1usize],
                variadic: false,
                args: "[string]"@,
            },
            EventModel {
                key: KeyModel::Literal("actions/changed"@),
                arities: seq![0usize],
                variadic: false,
                args: "[]"@,
            },
        ],
    }
}

fn stream_apps_engine() -> (r: StreamSpec)
    ensures
        r@ == declared_apps_engine(),
{
    let mut events: Vec<EventSpec> = Vec::new();
    events.push(
        entry(
            KeyPattern::Literal("app/added"),
            one(1),
            false,
            "[string]",
        ),
    );
    events.push(
        entry(
            KeyPattern::Literal("app/removed"),
            one(1),
            false,
            "[string]",
        ),
    );
    events.push(
        entry(
            KeyPattern::Literal("app/updated"),
            one(1),
            false,
            "[string]",
        ),
    );
    events.push(
        entry(
            KeyPattern::Literal("app/statusUpdate"),
            one(1),
            false,
            "[ { appId: string; status: AppStatus; }, ]",
        ),
    );
    events.push(
        entry(
            KeyPattern::Literal("app/settingUpdated"),
            one(1),
            false,
            "[ { appId: string; setting: AppsSetting; }, ]",
        ),
    );
    events.push(
        entry(
            KeyPattern::Literal("command/added"),
            one(1),
            false,
            "[string]",
        ),
    );
    events.push(
        entry(
            KeyPattern::Literal("command/disabled"),
            one(1),
            false,
            "[string]",
        ),
    );
    events.push(
        entry(
            KeyPattern::Literal("command/updated"),
            one(1),
            false,
            "[string]",
        ),
    );
    events.push(
        entry(
            KeyPattern::Literal("command/removed"),
            one(1),
            false,
            "[string]",
        ),
    );
    events.push(
        entry(
            KeyPattern::Literal("actions/changed"),
            one(0),
            false,
            "[]",
        ),
    );
    let spec = StreamSpec { name: "apps-engine", events };
    proof {
        assert(spec@.events =~~= declared_apps_engine().events);
    }
    spec
}

/// The events of `local`.
pub open spec fn declared_local() -> StreamModel {
    StreamModel {
        name: "local"@,
        events: seq![
            EventModel {
                key: KeyModel::Literal("broadcast"@),
                arities: seq![],
                variadic: true,
                args: "any[]"@,
            },
        ],
    }
}

fn stream_local() -> (r: StreamSpec)
    ensures
        r@ == declared_local(),
{
    let mut events: Vec<EventSpec> = Vec::new();
    events.push(
        entry(
            KeyPattern::Literal("broadcast"),
            Vec::new(),
            true,
            "any[]",
        ),
    );
    let spec = StreamSpec { name: "local", events };
    proof {
        assert(spec@.events =~~= declared_local().events);
    }
    spec
}

} // verus!

//! The cache itself.
//!
//! It keeps rooms with an index by name, users with an index by username, subscriptions, a
//! bounded ring of messages per room, and the logged-in user apart from the others.
use crate::cache::config::{CacheBuilder, Config, TombstonePolicy};
use crate::cache::merge::{is_merged, merge_documents};
use crate::cache::reference::Reference;
use crate::cache::resource::{
    ResourceType, ALL_BITS, CURRENT_USER_BIT, MESSAGE_BIT, ROOM_BIT, SUBSCRIPTION_BIT, USER_BIT,
};
use crate::cache::table::Table;
use crate::cache::update::UpdateCache;
use crate::lists::{lemma_without, lemma_without_distinct, without};
use crate::model::entity::parts::opt_chars;
use crate::model::entity::{Message, Room, Subscription, User};
use crate::model::id::{
    Id, MessageId, MessageMarker, RoomId, RoomMarker, UserId, UserMarker,
};
use crate::model::wire::{Decode, Duplicate, Encode};
use crate::text::str_eq;
use vstd::prelude::*;
use vstd::string::*;

verus! {

/// Marker for a name that is looked up.
#[derive(Debug, Clone, Copy, PartialEq, Eq, Hash)]
pub struct NameMarker;

/// Whether a write lays the document over what is cached, or replaces it.
#[derive(Debug, Clone, Copy, PartialEq, Eq, Structural)]
pub enum StoreMode {
    /// Lay the fields that the document carries over the cached ones.
    Merge,
    /// Store the document as the whole truth.
    Replace,
}

/// How much the cache holds.
#[derive(Debug, Clone, Copy, PartialEq, Eq, Structural)]
pub struct CacheStats {
    /// Cached rooms.
    pub rooms: usize,
    /// Cached users.
    pub users: usize,
    /// Cached subscriptions.
    pub subscriptions: usize,
    /// Cached messages, across all rooms.
    pub messages: usize,
    /// Rooms with a message ring.
    pub rooms_with_messages: usize,
}

/// What a [`Cache`] holds.
#[verifier::ext_equal]
pub struct CacheModel {
    /// Rooms by id.
    pub rooms: Map<Seq<char>, Room>,
    /// Room ids by name.
    pub room_names: Map<Seq<char>, Seq<char>>,
    /// Users by id.
    pub users: Map<Seq<char>, User>,
    /// User ids by username.
    pub usernames: Map<Seq<char>, Seq<char>>,
    /// Subscriptions by room id.
    pub subscriptions: Map<Seq<char>, Subscription>,
    /// Messages by id.
    pub messages: Map<Seq<char>, Message>,
    /// Message ids by room id, newest first.
    pub rings: Map<Seq<char>, Seq<Seq<char>>>,
    /// The logged-in user.
    pub current_user: Option<User>,
    /// User ids in the order in which they were first seen, where users are bounded.
    pub user_order: Seq<Seq<char>>,
}

/// The texts of a list of ids.
pub open spec fn id_texts<M>(list: Seq<Id<M>>) -> Seq<Seq<char>> {
    Seq::new(list.len(), |i: int| list[i]@)
}

/// The names without the one of an id, where the name leads to that id.
pub open spec fn unnamed(
    names: Map<Seq<char>, Seq<char>>,
    name: Option<Seq<char>>,
    id: Seq<char>,
) -> Map<Seq<char>, Seq<char>> {
    match name {
        Some(name) => if names.dom().contains(name) && names[name] == id {
            names.remove(name)
        } else {
            names
        },
        None => names,
    }
}

/// The names after an id's name changed. A name that was taken over by another id meanwhile
/// stays with it.
pub open spec fn reindexed(
    names: Map<Seq<char>, Seq<char>>,
    was: Option<Seq<char>>,
    now: Option<Seq<char>>,
    id: Seq<char>,
) -> Map<Seq<char>, Seq<char>> {
    if was == now {
        names
    } else {
        match now {
            Some(now) => unnamed(names, was, id).insert(now, id),
            None => unnamed(names, was, id),
        }
    }
}

/// The name of the room with an id.
pub open spec fn room_name(rooms: Map<Seq<char>, Room>, id: Seq<char>) -> Option<Seq<char>> {
    if rooms.dom().contains(id) {
        opt_chars(rooms[id].name)
    } else {
        None
    }
}

/// The username of the user with an id.
pub open spec fn user_name(users: Map<Seq<char>, User>, id: Seq<char>) -> Option<Seq<char>> {
    if users.dom().contains(id) {
        opt_chars(users[id].username)
    } else {
        None
    }
}

/// Whether every name leads to a cached room that has it.
pub open spec fn room_names_sound(m: CacheModel) -> bool {
    forall|n: Seq<char>| #[trigger]
        m.room_names.dom().contains(n) ==> room_name(m.rooms, m.room_names[n]) == Some(n)
}

/// Whether every username leads to a cached user who has it.
pub open spec fn usernames_sound(m: CacheModel) -> bool {
    forall|n: Seq<char>| #[trigger]
        m.usernames.dom().contains(n) ==> user_name(m.users, m.usernames[n]) == Some(n)
}

/// Whether every ring is bounded, and none is empty.
pub open spec fn rings_bounded(m: CacheModel, size: usize) -> bool {
    forall|r: Seq<char>| #[trigger]
        m.rings.dom().contains(r) ==> 0 < m.rings[r].len() <= size
}

/// Whether the users are bounded, and the queue holds each of them once.
pub open spec fn users_bounded(m: CacheModel, config: Config) -> bool {
    match config.user_limit() {
        Some(limit) => {
            &&& m.users.dom().finite()
            &&& m.users.dom().len() <= limit.value()
            &&& m.user_order.no_duplicates()
            &&& forall|id: Seq<char>| #[trigger]
                m.users.dom().contains(id) <==> m.user_order.contains(id)
        },
        None => m.user_order.len() == 0,
    }
}

/// Whether nothing is stored of a kind that is not wanted.
pub open spec fn gated(m: CacheModel, config: Config) -> bool {
    &&& !config.stores(ROOM_BIT) ==> m.rooms.dom() =~= Set::empty() && m.room_names.dom()
        =~= Set::empty()
    &&& !config.stores(USER_BIT) ==> m.users.dom() =~= Set::empty() && m.usernames.dom()
        =~= Set::empty()
    &&& !config.stores(SUBSCRIPTION_BIT) ==> m.subscriptions.dom() =~= Set::empty()
    &&& !config.stores(MESSAGE_BIT) || config.ring_size() == 0 ==> m.messages.dom()
        =~= Set::empty() && m.rings.dom() =~= Set::empty()
    &&& !config.stores(CURRENT_USER_BIT) ==> m.current_user is None
}

/// What always holds of a cache.
pub open spec fn sound(m: CacheModel, config: Config) -> bool {
    &&& room_names_sound(m)
    &&& usernames_sound(m)
    &&& rings_bounded(m, config.ring_size())
    &&& users_bounded(m, config)
    &&& gated(m, config)
}

/// An empty cache.
pub open spec fn nothing() -> CacheModel {
    CacheModel {
        rooms: Map::empty(),
        room_names: Map::empty(),
        users: Map::empty(),
        usernames: Map::empty(),
        subscriptions: Map::empty(),
        messages: Map::empty(),
        rings: Map::empty(),
        current_user: None,
        user_order: Seq::empty(),
    }
}

/// Whether this is what a write stores, given what was cached.
pub open spec fn is_stored<T: Encode + Decode + Duplicate>(
    cached: Map<Seq<char>, T>,
    id: Seq<char>,
    incoming: T,
    mode: StoreMode,
    stored: T,
) -> bool {
    if mode == StoreMode::Merge && cached.dom().contains(id) {
        is_merged(cached[id], incoming, stored)
    } else {
        stored == incoming
    }
}

/// The document with an id, if any.
pub open spec fn lookup<T>(map: Map<Seq<char>, T>, id: Seq<char>) -> Option<T> {
    if map.dom().contains(id) {
        Some(map[id])
    } else {
        None
    }
}

/// The cache with a room stored.
pub open spec fn with_room(m: CacheModel, id: Seq<char>, stored: Room) -> CacheModel {
    CacheModel {
        rooms: m.rooms.insert(id, stored),
        room_names: reindexed(m.room_names, room_name(m.rooms, id), opt_chars(stored.name), id),
        ..m
    }
}

/// The cache without a room, its name, its subscription and its messages.
pub open spec fn without_room(m: CacheModel, id: Seq<char>) -> CacheModel {
    CacheModel {
        rooms: m.rooms.remove(id),
        room_names: unnamed(m.room_names, room_name(m.rooms, id), id),
        subscriptions: m.subscriptions.remove(id),
        rings: m.rings.remove(id),
        messages: if m.rings.dom().contains(id) {
            m.messages.remove_keys(m.rings[id].to_set())
        } else {
            m.messages
        },
        ..m
    }
}

/// The cache without a user and their username.
pub open spec fn without_user(m: CacheModel, id: Seq<char>) -> CacheModel {
    CacheModel {
        users: m.users.remove(id),
        usernames: unnamed(m.usernames, user_name(m.users, id), id),
        ..m
    }
}

/// The cache with a user's document stored, before anyone is evicted.
pub open spec fn with_user_document(m: CacheModel, id: Seq<char>, stored: User) -> CacheModel {
    CacheModel {
        users: m.users.insert(id, stored),
        usernames: reindexed(m.usernames, user_name(m.users, id), opt_chars(stored.username), id),
        ..m
    }
}

/// The cache with a user stored. A user who was not cached joins the end of the queue, and
/// where there are then too many, the head of the queue is evicted.
pub open spec fn with_user(m: CacheModel, config: Config, id: Seq<char>, stored: User) -> CacheModel {
    let next = with_user_document(m, id, stored);
    if m.users.dom().contains(id) || config.user_limit() is None {
        next
    } else {
        let queue = m.user_order.push(id);
        if next.users.dom().len() > config.user_limit()->0.value() {
            CacheModel {
                user_order: queue.subrange(1, queue.len() as int),
                ..without_user(next, queue[0])
            }
        } else {
            CacheModel { user_order: queue, ..next }
        }
    }
}

/// The cache without a message in a room's ring.
pub open spec fn unlinked(m: CacheModel, room: Seq<char>, id: Seq<char>) -> CacheModel {
    if m.rings.dom().contains(room) {
        let ring = without(m.rings[room], id);
        CacheModel {
            rings: if ring.len() == 0 {
                m.rings.remove(room)
            } else {
                m.rings.insert(room, ring)
            },
            ..m
        }
    } else {
        m
    }
}

/// The cache with a message at the front of a room's ring. Where the ring is then too long, its
/// oldest message is evicted.
pub open spec fn linked_in(m: CacheModel, size: usize, room: Seq<char>, id: Seq<char>) -> CacheModel {
    let ring = seq![id] + (if m.rings.dom().contains(room) {
        m.rings[room]
    } else {
        Seq::empty()
    });
    if ring.len() > size {
        CacheModel {
            rings: m.rings.insert(room, ring.drop_last()),
            messages: m.messages.remove(ring.last()),
            ..m
        }
    } else {
        CacheModel { rings: m.rings.insert(room, ring), ..m }
    }
}

/// The cache with a message stored. An edit stays where it is in the ring.
pub open spec fn with_message(
    m: CacheModel,
    size: usize,
    room: Seq<char>,
    id: Seq<char>,
    stored: Message,
) -> CacheModel {
    let next = CacheModel { messages: m.messages.insert(id, stored), ..m };
    if m.messages.dom().contains(id) {
        next
    } else {
        linked_in(next, size, room, id)
    }
}

/// Whether a message is stored, and not dropped as a tombstone.
pub open spec fn keeps_message(config: Config, message: Message) -> bool {
    config.stores(MESSAGE_BIT) && config.ring_size() > 0 && !(message.tombstone()
        && config.tombstones() == TombstonePolicy::Evict)
}

/// Whether a message is dropped as a tombstone.
pub open spec fn evicts_message(config: Config, message: Message) -> bool {
    config.stores(MESSAGE_BIT) && config.ring_size() > 0 && message.tombstone()
        && config.tombstones() == TombstonePolicy::Evict
}

/// Whether one state follows another when a room is stored.
pub open spec fn room_step(
    m: CacheModel,
    config: Config,
    incoming: Room,
    mode: StoreMode,
    next: CacheModel,
) -> bool {
    if config.stores(ROOM_BIT) {
        next.rooms.dom().contains(incoming.id@) && is_stored(
            m.rooms,
            incoming.id@,
            incoming,
            mode,
            next.rooms[incoming.id@],
        ) && next == with_room(m, incoming.id@, next.rooms[incoming.id@])
    } else {
        next == m
    }
}

/// Whether one state follows another when a user is stored.
pub open spec fn user_step(
    m: CacheModel,
    config: Config,
    incoming: User,
    mode: StoreMode,
    next: CacheModel,
) -> bool {
    if config.stores(USER_BIT) {
        next.users.dom().contains(incoming.id@) && is_stored(
            m.users,
            incoming.id@,
            incoming,
            mode,
            next.users[incoming.id@],
        ) && next == with_user(m, config, incoming.id@, next.users[incoming.id@])
    } else {
        next == m
    }
}

/// Whether one state follows another when a subscription is stored.
pub open spec fn subscription_step(
    m: CacheModel,
    config: Config,
    incoming: Subscription,
    mode: StoreMode,
    next: CacheModel,
) -> bool {
    if config.stores(SUBSCRIPTION_BIT) {
        next.subscriptions.dom().contains(incoming.rid@) && is_stored(
            m.subscriptions,
            incoming.rid@,
            incoming,
            mode,
            next.subscriptions[incoming.rid@],
        ) && next == (CacheModel {
            subscriptions: m.subscriptions.insert(
                incoming.rid@,
                next.subscriptions[incoming.rid@],
            ),
            ..m
        })
    } else {
        next == m
    }
}

/// How a message is stored: a tombstone always replaces.
pub open spec fn message_mode(incoming: Message, mode: StoreMode) -> StoreMode {
    if incoming.tombstone() {
        StoreMode::Replace
    } else {
        mode
    }
}

/// Whether one state follows another when a message is stored. A tombstone always replaces.
pub open spec fn message_step(
    m: CacheModel,
    config: Config,
    incoming: Message,
    mode: StoreMode,
    next: CacheModel,
) -> bool {
    if keeps_message(config, incoming) {
        exists|stored: Message| #[trigger]
            is_stored(
                m.messages,
                incoming.id@,
                incoming,
                message_mode(incoming, mode),
                stored,
            ) && next == with_message(m, config.ring_size(), incoming.rid@, incoming.id@, stored)
    } else if evicts_message(config, incoming) {
        next == unlinked(
            CacheModel { messages: m.messages.remove(incoming.id@), ..m },
            incoming.rid@,
            incoming.id@,
        )
    } else {
        next == m
    }
}

/// Whether one state follows another when the logged-in user is refreshed by a user document.
pub open spec fn refresh_step(
    m: CacheModel,
    config: Config,
    incoming: User,
    mode: StoreMode,
    next: CacheModel,
) -> bool {
    match m.current_user {
        Some(current) => if config.stores(CURRENT_USER_BIT) && current.id@ == incoming.id@ {
            next.current_user is Some && next == (CacheModel {
                current_user: next.current_user,
                ..m
            }) && (match mode {
                StoreMode::Merge => is_merged(current, incoming, next.current_user->0),
                StoreMode::Replace => next.current_user->0.alike(&incoming),
            })
        } else {
            next == m
        },
        None => next == m,
    }
}

/// An in-memory cache of what the server has pushed.
pub struct Cache {
    config: Config,
    rooms: Table<RoomMarker, Room>,
    rooms_by_name: Table<NameMarker, RoomId>,
    users: Table<UserMarker, User>,
    users_by_username: Table<NameMarker, UserId>,
    subscriptions: Table<RoomMarker, Subscription>,
    messages: Table<MessageMarker, Message>,
    room_messages: Table<RoomMarker, Vec<MessageId>>,
    current_user: Option<User>,
    user_order: Vec<UserId>,
}

impl View for Cache {
    type V = CacheModel;

    closed spec fn view(&self) -> CacheModel {
        CacheModel {
            rooms: self.rooms.view(),
            room_names: self.rooms_by_name.view().map_values(|id: RoomId| id@),
            users: self.users.view(),
            usernames: self.users_by_username.view().map_values(|id: UserId| id@),
            subscriptions: self.subscriptions.view(),
            messages: self.messages.view(),
            rings: self.room_messages.view().map_values(|ring: Vec<MessageId>| id_texts(ring@)),
            current_user: self.current_user,
            user_order: id_texts(self.user_order@),
        }
    }
}

/// Removes a name from an index, where it leads to an id.
fn unname<M>(index: &mut Table<NameMarker, Id<M>>, name: &Option<String>, id: &Id<M>)
    requires
        old(index).wf(),
    ensures
        final(index).wf(),
        final(index).view().map_values(|i: Id<M>| i@) == unnamed(
            old(index).view().map_values(|i: Id<M>| i@),
            opt_chars(*name),
            id@,
        ),
{
    let ghost before = index.view().map_values(|i: Id<M>| i@);
    match name {
        Some(name) => {
            let leads = match index.get(name.as_str()) {
                Some(current) => current.same(id),
                None => false,
            };
            if leads {
                let _ = index.remove(name.as_str());
                proof {
                    assert(index.view().map_values(|i: Id<M>| i@) =~= before.remove(name@));
                }
            }
        },
        None => {},
    }
}

/// Whether two optional strings are the same.
fn same_text(a: &Option<String>, b: &Option<String>) -> (r: bool)
    ensures
        r == (opt_chars(*a) == opt_chars(*b)),
{
    match (a, b) {
        (Some(a), Some(b)) => str_eq(a.as_str(), b.as_str()),
        (None, None) => true,
        _ => false,
    }
}

/// Follows the change of an id's name in an index.
fn reindex<M>(
    index: &mut Table<NameMarker, Id<M>>,
    was: &Option<String>,
    now: &Option<String>,
    id: &Id<M>,
)
    requires
        old(index).wf(),
    ensures
        final(index).wf(),
        final(index).view().map_values(|i: Id<M>| i@) == reindexed(
            old(index).view().map_values(|i: Id<M>| i@),
            opt_chars(*was),
            opt_chars(*now),
            id@,
        ),
{
    if same_text(was, now) {
        return;
    }
    unname(index, was, id);
    let ghost middle = index.view().map_values(|i: Id<M>| i@);
    match now {
        Some(now) => {
            let _ = index.insert(Id::new(now.as_str()), id.clone());
            proof {
                assert(index.view().map_values(|i: Id<M>| i@) =~= middle.insert(now@, id@));
            }
        },
        None => {},
    }
}

/// A copy of an optional string.
fn copy_text(s: &Option<String>) -> (r: Option<String>)
    ensures
        opt_chars(r) == opt_chars(*s),
{
    match s {
        Some(s) => Some(s.clone()),
        None => None,
    }
}

/// The document to store: the incoming one, or the cached one with it laid over.
fn resolve<M, T: Encode + Decode + Duplicate>(
    table: &Table<M, T>,
    id: &str,
    incoming: T,
    mode: StoreMode,
) -> (r: T)
    requires
        table.wf(),
    ensures
        is_stored(table.view(), id@, incoming, mode, r),
{
    match mode {
        StoreMode::Merge => match table.get(id) {
            Some(cached) => merge_documents(cached, &incoming),
            None => incoming,
        },
        StoreMode::Replace => incoming,
    }
}

/// The ids of a list other than one.
fn retain_ids<M>(list: &Vec<Id<M>>, id: &Id<M>) -> (r: Vec<Id<M>>)
    ensures
        id_texts(r@) == without(id_texts(list@), id@),
{
    let mut kept: Vec<Id<M>> = Vec::new();
    let ghost all = id_texts(list@);
    let mut i: usize = 0;
    proof {
        assert(id_texts(kept@) =~= without(all.subrange(0, 0), id@));
    }
    while i < list.len()
        invariant
            i <= list@.len(),
            all == id_texts(list@),
            id_texts(kept@) == without(all.subrange(0, i as int), id@),
        decreases list@.len() - i,
    {
        let ghost part = all.subrange(0, i + 1);
        let ghost before = kept@;
        proof {
            assert(part.drop_last() =~= all.subrange(0, i as int));
            assert(part.last() == list@[i as int]@);
        }
        if !list[i].same(id) {
            kept.push(list[i].clone());
            proof {
                assert(id_texts(kept@) =~= id_texts(before).push(list@[i as int]@));
            }
        }
        i += 1;
    }
    proof {
        assert(all.subrange(0, all.len() as int) =~= all);
    }
    kept
}

impl Cache {
    /// Whether the cache is in order.
    pub closed spec fn wf(&self) -> bool {
        &&& self.rooms.wf()
        &&& self.rooms_by_name.wf()
        &&& self.users.wf()
        &&& self.users_by_username.wf()
        &&& self.subscriptions.wf()
        &&& self.messages.wf()
        &&& self.room_messages.wf()
        &&& sound(self@, self.config)
    }

    /// The configuration.
    pub closed spec fn settings(&self) -> Config {
        self.config
    }

    /// What always holds: names lead to documents that have them, rings and users are bounded,
    /// and nothing is stored of a kind that is not wanted.
    pub proof fn law_always_sound(&self)
        requires
            self.wf(),
        ensures
            sound(self@, self.settings()),
    {
    }

    /// A cache with the default configuration.
    pub fn new() -> (r: Cache)
        ensures
            r.wf(),
            r@ == nothing(),
            r.settings().kinds().mask() == ALL_BITS,
            r.settings().ring_size() == 100,
            r.settings().user_limit() is Some && r.settings().user_limit()->0.value() == 10_000,
            r.settings().tombstones() == TombstonePolicy::Replace,
    {
        Cache::from_config(Config::default())
    }

    /// A builder, for any other configuration.
    pub fn builder() -> (r: CacheBuilder)
        ensures
            r.settings().kinds().mask() == ALL_BITS,
            r.settings().ring_size() == 100,
            r.settings().user_limit() is Some && r.settings().user_limit()->0.value() == 10_000,
            r.settings().tombstones() == TombstonePolicy::Replace,
    {
        CacheBuilder::new()
    }

    /// An empty cache with a configuration.
    pub fn from_config(config: Config) -> (r: Cache)
        ensures
            r.wf(),
            r@ == nothing(),
            r.settings() == config,
    {
        let cache = Cache {
            config,
            rooms: Table::new(),
            rooms_by_name: Table::new(),
            users: Table::new(),
            users_by_username: Table::new(),
            subscriptions: Table::new(),
            messages: Table::new(),
            room_messages: Table::new(),
            current_user: None,
            user_order: Vec::new(),
        };
        proof {
            assert(cache@ =~= nothing());
        }
        cache
    }

    /// The configuration this cache was built with.
    pub fn config(&self) -> (r: &Config)
        ensures
            *r == self.settings(),
    {
        &self.config
    }

    /// Whether every kind of a set is cached.
    pub fn wants(&self, resource_type: ResourceType) -> (r: bool)
        ensures
            r == self.settings().stores(resource_type.mask()),
    {
        self.config.resource_types().contains(resource_type)
    }

    /// Applies a document. Whether it merges or replaces depends on its kind.
    pub fn update<T: UpdateCache + ?Sized>(&mut self, value: &T)
        requires
            old(self).wf(),
        ensures
            final(self).wf(),
            final(self).settings() == old(self).settings(),
            value.applies(old(self)@, old(self).settings(), final(self)@),
    {
        value.update(self);
    }

    /// The cached room.
    pub fn room(&self, id: &RoomId) -> (r: Option<Reference<'_, RoomId, Room>>)
        requires
            self.wf(),
        ensures
            match r {
                Some(e) => self@.rooms.dom().contains(id@) && e.document() == self@.rooms[id@]
                    && e.id()@ == id@,
                None => !self@.rooms.dom().contains(id@),
            },
    {
        match self.rooms.entry(id.as_str()) {
            Some((key, value)) => Some(Reference::new(key, value)),
            None => None,
        }
    }

    /// The id of the room with a name. Matching is exact.
    pub fn room_id_by_name(&self, name: &str) -> (r: Option<RoomId>)
        requires
            self.wf(),
        ensures
            match r {
                Some(id) => self@.room_names.dom().contains(name@) && id@ == self@.room_names[name@]
                    && room_name(self@.rooms, id@) == Some(name@),
                None => !self@.room_names.dom().contains(name@),
            },
    {
        match self.rooms_by_name.get(name) {
            Some(id) => {
                assert(self@.room_names.dom().contains(name@));
                Some(id.clone())
            },
            None => None,
        }
    }

    /// The cached room with a name.
    pub fn room_by_name(&self, name: &str) -> (r: Option<Reference<'_, RoomId, Room>>)
        requires
            self.wf(),
        ensures
            match r {
                Some(e) => self@.room_names.dom().contains(name@) && e.document()
                    == self@.rooms[self@.room_names[name@]] && opt_chars(e.document().name) == Some(
                    name@,
                ),
                None => !self@.room_names.dom().contains(name@),
            },
    {
        match self.room_id_by_name(name) {
            Some(id) => self.room(&id),
            None => None,
        }
    }

    /// Every cached room id, each once.
    pub fn room_ids(&self) -> (r: Vec<RoomId>)
        requires
            self.wf(),
        ensures
            r@.len() == self@.rooms.dom().len(),
            forall|i: int, j: int| 0 <= i < j < r@.len() ==> (#[trigger] r@[i])@ != (
            #[trigger] r@[j])@,
            forall|i: int| 0 <= i < r@.len() ==> self@.rooms.dom().contains((#[trigger] r@[i])@),
    {
        self.rooms.ids()
    }

    /// Stores a room as the whole truth. Returns the previous document.
    pub fn replace_room(&mut self, room: Room) -> (r: Option<Room>)
        requires
            old(self).wf(),
        ensures
            final(self).wf(),
            final(self).settings() == old(self).settings(),
            room_step(
                old(self)@,
                old(self).settings(),
                room,
                StoreMode::Replace,
                final(self)@,
            ),
            r == (if old(self).settings().stores(ROOM_BIT) {
                lookup(old(self)@.rooms, room.id@)
            } else {
                None
            }),
    {
        self.store_room(room, StoreMode::Replace)
    }

    /// Lays a partial room over the cached one. Returns the previous document.
    pub fn merge_room(&mut self, room: Room) -> (r: Option<Room>)
        requires
            old(self).wf(),
        ensures
            final(self).wf(),
            final(self).settings() == old(self).settings(),
            room_step(
                old(self)@,
                old(self).settings(),
                room,
                StoreMode::Merge,
                final(self)@,
            ),
            r == (if old(self).settings().stores(ROOM_BIT) {
                lookup(old(self)@.rooms, room.id@)
            } else {
                None
            }),
    {
        self.store_room(room, StoreMode::Merge)
    }

    /// Stores a room.
    pub fn store_room(&mut self, incoming: Room, mode: StoreMode) -> (r: Option<Room>)
        requires
            old(self).wf(),
        ensures
            final(self).wf(),
            final(self).settings() == old(self).settings(),
            room_step(old(self)@, old(self).settings(), incoming, mode, final(self)@),
            r == (if old(self).settings().stores(ROOM_BIT) {
                lookup(old(self)@.rooms, incoming.id@)
            } else {
                None
            }),
    {
        if !self.wants(ResourceType::room()) {
            return None;
        }
        let ghost m = self@;
        let id = incoming.id.clone();
        let stored = resolve(&self.rooms, id.as_str(), incoming, mode);
        let now = copy_text(&stored.name);
        let previous = self.rooms.insert(id.clone(), stored);
        let was: Option<String> = match &previous {
            Some(room) => copy_text(&room.name),
            None => None,
        };
        reindex(&mut self.rooms_by_name, &was, &now, &id);
        proof {
            assert(self@ =~= with_room(m, id@, stored));
            lemma_room_names(m, id@, stored);
        }
        previous
    }

    /// Removes a room, its name, its subscription, and every message cached for it.
    pub fn remove_room(&mut self, id: &RoomId) -> (r: Option<Room>)
        requires
            old(self).wf(),
        ensures
            final(self).wf(),
            final(self).settings() == old(self).settings(),
            final(self)@ == without_room(old(self)@, id@),
            r == lookup(old(self)@.rooms, id@),
    {
        let ghost m = self@;
        let removed = self.rooms.remove(id.as_str());
        match &removed {
            Some(room) => unname(&mut self.rooms_by_name, &room.name, id),
            None => {},
        }
        let _ = self.subscriptions.remove(id.as_str());
        match self.room_messages.remove(id.as_str()) {
            Some(ring) => {
                let ghost all = id_texts(ring@);
                let ghost before = self.messages.view();
                let mut i: usize = 0;
                proof {
                    assert(before.remove_keys(all.subrange(0, 0).to_set()) =~= before);
                }
                while i < ring.len()
                    invariant
                        i <= ring@.len(),
                        all == id_texts(ring@),
                        self.messages.wf(),
                        self.messages.view() == before.remove_keys(
                            all.subrange(0, i as int).to_set(),
                        ),
                        self.config == old(self).config,
                        self.rooms.wf(),
                        self.rooms_by_name.wf(),
                        self.users == old(self).users,
                        self.users_by_username == old(self).users_by_username,
                        self.subscriptions.wf(),
                        self.room_messages.wf(),
                        self.current_user == old(self).current_user,
                        self.user_order == old(self).user_order,
                        self.rooms.view() == old(self).rooms.view().remove(id@),
                        self.rooms_by_name.view().map_values(|i: RoomId| i@) == unnamed(
                            m.room_names,
                            room_name(m.rooms, id@),
                            id@,
                        ),
                        self.subscriptions.view() == old(self).subscriptions.view().remove(id@),
                        self.room_messages.view() == old(self).room_messages.view().remove(id@),
                    decreases ring@.len() - i,
                {
                    let _ = self.messages.remove(ring[i].as_str());
                    proof {
                        let part = all.subrange(0, i as int);
                        let more = all.subrange(0, i + 1);
                        assert(more =~= part.push(all[i as int]));
                        assert forall|k: Seq<char>|
                            more.to_set().contains(k) <==> part.to_set().contains(k) || k
                                == all[i as int] by {
                            crate::lists::lemma_push_contains(part, all[i as int], k);
                        }
                        assert(self.messages.view() =~= before.remove_keys(more.to_set()));
                    }
                    i += 1;
                }
                proof {
                    assert(all.subrange(0, all.len() as int) =~= all);
                    assert(m.rings[id@] == all);
                }
            },
            None => {},
        }
        proof {
            assert(self@.rings =~= m.rings.remove(id@));
            assert(self@ =~= without_room(m, id@));
            lemma_room_names_drop(m, id@);
        }
        removed
    }

    /// The cached user. None means "not cached", never "no such user".
    pub fn user(&self, id: &UserId) -> (r: Option<Reference<'_, UserId, User>>)
        requires
            self.wf(),
        ensures
            match r {
                Some(e) => self@.users.dom().contains(id@) && e.document() == self@.users[id@]
                    && e.id()@ == id@,
                None => !self@.users.dom().contains(id@),
            },
    {
        match self.users.entry(id.as_str()) {
            Some((key, value)) => Some(Reference::new(key, value)),
            None => None,
        }
    }

    /// The id of the user with a username. Matching is exact.
    pub fn user_id_by_username(&self, username: &str) -> (r: Option<UserId>)
        requires
            self.wf(),
        ensures
            match r {
                Some(id) => self@.usernames.dom().contains(username@) && id@
                    == self@.usernames[username@] && user_name(self@.users, id@) == Some(username@),
                None => !self@.usernames.dom().contains(username@),
            },
    {
        match self.users_by_username.get(username) {
            Some(id) => {
                assert(self@.usernames.dom().contains(username@));
                Some(id.clone())
            },
            None => None,
        }
    }

    /// The cached user with a username.
    pub fn user_by_username(&self, username: &str) -> (r: Option<Reference<'_, UserId, User>>)
        requires
            self.wf(),
        ensures
            match r {
                Some(e) => self@.usernames.dom().contains(username@) && e.document()
                    == self@.users[self@.usernames[username@]] && opt_chars(e.document().username)
                    == Some(username@),
                None => !self@.usernames.dom().contains(username@),
            },
    {
        match self.user_id_by_username(username) {
            Some(id) => self.user(&id),
            None => None,
        }
    }

    /// Every cached user id, each once.
    pub fn user_ids(&self) -> (r: Vec<UserId>)
        requires
            self.wf(),
        ensures
            r@.len() == self@.users.dom().len(),
            forall|i: int, j: int| 0 <= i < j < r@.len() ==> (#[trigger] r@[i])@ != (
            #[trigger] r@[j])@,
            forall|i: int| 0 <= i < r@.len() ==> self@.users.dom().contains((#[trigger] r@[i])@),
    {
        self.users.ids()
    }

    /// Stores a user as the whole truth, and refreshes the logged-in user where it is the same.
    /// Returns the previous document.
    pub fn replace_user(&mut self, user: User) -> (r: Option<User>)
        requires
            old(self).wf(),
        ensures
            final(self).wf(),
            final(self).settings() == old(self).settings(),
            user_update(
                old(self)@,
                old(self).settings(),
                user,
                StoreMode::Replace,
                final(self)@,
            ),
            r == (if old(self).settings().stores(USER_BIT) {
                lookup(old(self)@.users, user.id@)
            } else {
                None
            }),
    {
        self.refresh_current_user(&user, StoreMode::Replace);
        let ghost middle = self@;
        let previous = self.store_user(user, StoreMode::Replace);
        proof {
            assert(refresh_step(
                old(self)@,
                old(self).settings(),
                user,
                StoreMode::Replace,
                middle,
            ));
        }
        previous
    }

    /// Stores a user.
    pub fn store_user(&mut self, incoming: User, mode: StoreMode) -> (r: Option<User>)
        requires
            old(self).wf(),
        ensures
            final(self).wf(),
            final(self).settings() == old(self).settings(),
            user_step(old(self)@, old(self).settings(), incoming, mode, final(self)@),
            r == (if old(self).settings().stores(USER_BIT) {
                lookup(old(self)@.users, incoming.id@)
            } else {
                None
            }),
    {
        if !self.wants(ResourceType::user()) {
            return None;
        }
        let ghost m = self@;
        let id = incoming.id.clone();
        let stored = resolve(&self.users, id.as_str(), incoming, mode);
        let now = copy_text(&stored.username);
        let previous = self.users.insert(id.clone(), stored);
        let was: Option<String> = match &previous {
            Some(user) => copy_text(&user.username),
            None => None,
        };
        reindex(&mut self.users_by_username, &was, &now, &id);
        let ghost next = with_user_document(m, id@, stored);
        proof {
            assert(self@ =~= next);
            lemma_usernames(m, id@, stored);
            assert(usernames_sound(next));
        }
        if previous.is_none() {
            match self.config.user_cache_size() {
                Some(limit) => {
                    let most: usize = limit.get();
                    let ghost queue = m.user_order.push(id@);
                    self.user_order.push(id.clone());
                    proof {
                        assert(id_texts(self.user_order@) =~= queue);
                        lemma_queue(m, self.config, id@);
                    }
                    if self.users.len() > most {
                        let oldest = self.user_order.remove(0);
                        proof {
                            assert(oldest@ == queue[0]);
                            assert(id_texts(self.user_order@) =~= queue.subrange(
                                1,
                                queue.len() as int,
                            ));
                        }
                        let ghost full = self@;
                        let _ = self.drop_user(&oldest);
                        proof {
                            assert(self@ =~= with_user(m, self.config, id@, stored));
                            assert(self@.users[id@] == stored);
                            lemma_usernames_drop(
                                (CacheModel { user_order: self@.user_order, ..next }),
                                oldest@,
                            );
                        }
                    } else {
                        proof {
                            assert(self@ =~= with_user(m, self.config, id@, stored));
                        }
                    }
                },
                None => {
                    proof {
                        assert(self@ =~= with_user(m, self.config, id@, stored));
                    }
                },
            }
        } else {
            proof {
                assert(self@ =~= with_user(m, self.config, id@, stored));
                assert(m.users.dom().insert(id@) =~= m.users.dom());
            }
        }
        previous
    }

    /// Removes a user's document and username, and leaves the queue alone.
    fn drop_user(&mut self, id: &UserId) -> (r: Option<User>)
        requires
            old(self).users.wf(),
            old(self).users_by_username.wf(),
        ensures
            final(self).users.wf(),
            final(self).users_by_username.wf(),
            final(self).config == old(self).config,
            final(self).rooms == old(self).rooms,
            final(self).rooms_by_name == old(self).rooms_by_name,
            final(self).subscriptions == old(self).subscriptions,
            final(self).messages == old(self).messages,
            final(self).room_messages == old(self).room_messages,
            final(self).current_user == old(self).current_user,
            final(self).user_order == old(self).user_order,
            final(self)@ == without_user(old(self)@, id@),
            r == lookup(old(self)@.users, id@),
    {
        let ghost m = self@;
        let removed = self.users.remove(id.as_str());
        match &removed {
            Some(user) => unname(&mut self.users_by_username, &user.username, id),
            None => {},
        }
        proof {
            assert(self@ =~= without_user(m, id@));
        }
        removed
    }

    /// Removes a user and their username. The logged-in user stays.
    pub fn remove_user(&mut self, id: &UserId) -> (r: Option<User>)
        requires
            old(self).wf(),
        ensures
            final(self).wf(),
            final(self).settings() == old(self).settings(),
            final(self)@ == (CacheModel {
                user_order: without(old(self)@.user_order, id@),
                ..without_user(old(self)@, id@)
            }),
            r == lookup(old(self)@.users, id@),
    {
        let ghost m = self@;
        let removed = self.drop_user(id);
        if removed.is_some() && self.config.user_cache_size().is_some() {
            let kept = retain_ids(&self.user_order, id);
            self.user_order = kept;
        }
        proof {
            lemma_remove_user(m, self.config, id@, self@.user_order);
            assert(self@ =~= (CacheModel {
                user_order: without(m.user_order, id@),
                ..without_user(m, id@)
            }));
        }
        removed
    }

    /// The logged-in user.
    pub fn current_user(&self) -> (r: Option<&User>)
        ensures
            match r {
                Some(user) => self@.current_user == Some(*user),
                None => self@.current_user is None,
            },
    {
        self.current_user.as_ref()
    }

    /// The logged-in user's id.
    pub fn current_user_id(&self) -> (r: Option<UserId>)
        ensures
            match r {
                Some(id) => self@.current_user is Some && id@ == self@.current_user->0.id@,
                None => self@.current_user is None,
            },
    {
        match &self.current_user {
            Some(user) => Some(user.id.clone()),
            None => None,
        }
    }

    /// Sets the logged-in user, and stores them among the users. The copy kept apart is never
    /// evicted.
    pub fn set_current_user(&mut self, user: User)
        requires
            old(self).wf(),
        ensures
            final(self).wf(),
            final(self).settings() == old(self).settings(),
            login_step(old(self)@, old(self).settings(), user, final(self)@),
    {
        let ghost m = self@;
        if self.wants(ResourceType::current_user()) {
            self.current_user = Some(user.dup());
        }
        let ghost middle = self@;
        proof {
            assert(middle =~= (CacheModel { current_user: middle.current_user, ..m }));
        }
        let _ = self.store_user(user, StoreMode::Merge);
        proof {
            assert(user_step(middle, self.config, user, StoreMode::Merge, self@));
        }
    }

    /// Applies a user document to the logged-in user, if it is the same user.
    pub fn refresh_current_user(&mut self, incoming: &User, mode: StoreMode)
        requires
            old(self).wf(),
        ensures
            final(self).wf(),
            final(self).settings() == old(self).settings(),
            refresh_step(old(self)@, old(self).settings(), *incoming, mode, final(self)@),
    {
        if !self.wants(ResourceType::current_user()) {
            return;
        }
        let ghost m = self@;
        let refreshed: User = match &self.current_user {
            Some(current) => {
                if !current.id.same(&incoming.id) {
                    return;
                }
                match mode {
                    StoreMode::Merge => merge_documents(current, incoming),
                    StoreMode::Replace => incoming.dup(),
                }
            },
            None => {
                return;
            },
        };
        self.current_user = Some(refreshed);
        proof {
            assert(self@ =~= (CacheModel { current_user: Some(refreshed), ..m }));
        }
    }

    /// The cached subscription for a room.
    pub fn subscription(&self, room_id: &RoomId) -> (r: Option<
        Reference<'_, RoomId, Subscription>,
    >)
        requires
            self.wf(),
        ensures
            match r {
                Some(e) => self@.subscriptions.dom().contains(room_id@) && e.document()
                    == self@.subscriptions[room_id@] && e.id()@ == room_id@,
                None => !self@.subscriptions.dom().contains(room_id@),
            },
    {
        match self.subscriptions.entry(room_id.as_str()) {
            Some((key, value)) => Some(Reference::new(key, value)),
            None => None,
        }
    }

    /// Stores a subscription as the whole truth. Returns the previous document.
    pub fn replace_subscription(&mut self, subscription: Subscription) -> (r: Option<Subscription>)
        requires
            old(self).wf(),
        ensures
            final(self).wf(),
            final(self).settings() == old(self).settings(),
            subscription_step(
                old(self)@,
                old(self).settings(),
                subscription,
                StoreMode::Replace,
                final(self)@,
            ),
            r == (if old(self).settings().stores(SUBSCRIPTION_BIT) {
                lookup(old(self)@.subscriptions, subscription.rid@)
            } else {
                None
            }),
    {
        self.store_subscription(subscription, StoreMode::Replace)
    }

    /// Removes the subscription for a room.
    pub fn remove_subscription(&mut self, room_id: &RoomId) -> (r: Option<Subscription>)
        requires
            old(self).wf(),
        ensures
            final(self).wf(),
            final(self).settings() == old(self).settings(),
            final(self)@ == (CacheModel {
                subscriptions: old(self)@.subscriptions.remove(room_id@),
                ..old(self)@
            }),
            r == lookup(old(self)@.subscriptions, room_id@),
    {
        let ghost m = self@;
        let removed = self.subscriptions.remove(room_id.as_str());
        proof {
            assert(self@ =~= (CacheModel {
                subscriptions: m.subscriptions.remove(room_id@),
                ..m
            }));
        }
        removed
    }

    /// Stores a subscription.
    pub fn store_subscription(&mut self, incoming: Subscription, mode: StoreMode) -> (r: Option<
        Subscription,
    >)
        requires
            old(self).wf(),
        ensures
            final(self).wf(),
            final(self).settings() == old(self).settings(),
            subscription_step(old(self)@, old(self).settings(), incoming, mode, final(self)@),
            r == (if old(self).settings().stores(SUBSCRIPTION_BIT) {
                lookup(old(self)@.subscriptions, incoming.rid@)
            } else {
                None
            }),
    {
        if !self.wants(ResourceType::subscription()) {
            return None;
        }
        let ghost m = self@;
        let rid = incoming.rid.clone();
        let ghost key = rid@;
        let stored = resolve(&self.subscriptions, rid.as_str(), incoming, mode);
        let previous = self.subscriptions.insert(rid, stored);
        proof {
            assert(self@ =~= (CacheModel {
                subscriptions: m.subscriptions.insert(key, stored),
                ..m
            }));
        }
        previous
    }

    /// The cached message.
    pub fn message(&self, id: &MessageId) -> (r: Option<Reference<'_, MessageId, Message>>)
        requires
            self.wf(),
        ensures
            match r {
                Some(e) => self@.messages.dom().contains(id@) && e.document()
                    == self@.messages[id@] && e.id()@ == id@,
                None => !self@.messages.dom().contains(id@),
            },
    {
        match self.messages.entry(id.as_str()) {
            Some((key, value)) => Some(Reference::new(key, value)),
            None => None,
        }
    }

    /// The message ids cached for a room, newest first by arrival.
    pub fn room_message_ids(&self, room_id: &RoomId) -> (r: Vec<MessageId>)
        requires
            self.wf(),
        ensures
            id_texts(r@) == (if self@.rings.dom().contains(room_id@) {
                self@.rings[room_id@]
            } else {
                Seq::empty()
            }),
            r@.len() <= self.settings().ring_size(),
    {
        let mut out: Vec<MessageId> = Vec::new();
        match self.room_messages.get(room_id.as_str()) {
            Some(ring) => {
                let mut i: usize = 0;
                while i < ring.len()
                    invariant
                        i <= ring@.len(),
                        out@.len() == i,
                        forall|k: int| 0 <= k < i ==> (#[trigger] out@[k])@ == ring@[k]@,
                    decreases ring@.len() - i,
                {
                    out.push(ring[i].clone());
                    i += 1;
                }
                proof {
                    assert(id_texts(out@) =~= id_texts(ring@));
                    assert(self@.rings.dom().contains(room_id@));
                    assert(self@.rings[room_id@] == id_texts(ring@));
                }
            },
            None => {
                proof {
                    assert(id_texts(out@) =~= Seq::<Seq<char>>::empty());
                }
            },
        }
        out
    }

    /// The id of the message that arrived last in a room.
    pub fn newest_message_id(&self, room_id: &RoomId) -> (r: Option<MessageId>)
        requires
            self.wf(),
        ensures
            match r {
                Some(id) => self@.rings.dom().contains(room_id@) && id@ == self@.rings[room_id@][0],
                None => !self@.rings.dom().contains(room_id@),
            },
    {
        match self.room_messages.get(room_id.as_str()) {
            Some(ring) => {
                proof {
                    assert(self@.rings.dom().contains(room_id@));
                    assert(self@.rings[room_id@] == id_texts(ring@));
                }
                Some(ring[0].clone())
            },
            None => None,
        }
    }

    /// Stores a message as the whole truth. Returns the previous document.
    pub fn replace_message(&mut self, message: Message) -> (r: Option<Message>)
        requires
            old(self).wf(),
        ensures
            final(self).wf(),
            final(self).settings() == old(self).settings(),
            message_step(
                old(self)@,
                old(self).settings(),
                message,
                StoreMode::Replace,
                final(self)@,
            ),
            r == (if keeps_message(old(self).settings(), message) || evicts_message(
                old(self).settings(),
                message,
            ) {
                lookup(old(self)@.messages, message.id@)
            } else {
                None
            }),
    {
        self.store_message(message, StoreMode::Replace)
    }

    /// Lays a partial message over the cached one. Returns the previous document.
    pub fn merge_message(&mut self, message: Message) -> (r: Option<Message>)
        requires
            old(self).wf(),
        ensures
            final(self).wf(),
            final(self).settings() == old(self).settings(),
            message_step(
                old(self)@,
                old(self).settings(),
                message,
                StoreMode::Merge,
                final(self)@,
            ),
            r == (if keeps_message(old(self).settings(), message) || evicts_message(
                old(self).settings(),
                message,
            ) {
                lookup(old(self)@.messages, message.id@)
            } else {
                None
            }),
    {
        self.store_message(message, StoreMode::Merge)
    }

    /// Removes a message, and from the ring of the room that it names.
    pub fn remove_message(&mut self, id: &MessageId) -> (r: Option<Message>)
        requires
            old(self).wf(),
        ensures
            final(self).wf(),
            final(self).settings() == old(self).settings(),
            final(self)@ == (if old(self)@.messages.dom().contains(id@) {
                unlinked(
                    CacheModel { messages: old(self)@.messages.remove(id@), ..old(self)@ },
                    old(self)@.messages[id@].rid@,
                    id@,
                )
            } else {
                old(self)@
            }),
            r == lookup(old(self)@.messages, id@),
    {
        let ghost m = self@;
        let removed = self.messages.remove(id.as_str());
        let ghost middle = (CacheModel { messages: m.messages.remove(id@), ..m });
        proof {
            assert(self@ =~= middle);
        }
        match &removed {
            Some(message) => self.unlink_message(&message.rid, id),
            None => {
                proof {
                    assert(m.messages.remove(id@) =~= m.messages);
                    assert(self@ =~= m);
                }
            },
        }
        removed
    }

    /// Removes a message, and from the ring of a room.
    pub fn remove_message_in(&mut self, room_id: &RoomId, id: &MessageId) -> (r: Option<Message>)
        requires
            old(self).wf(),
        ensures
            final(self).wf(),
            final(self).settings() == old(self).settings(),
            final(self)@ == unlinked(
                CacheModel { messages: old(self)@.messages.remove(id@), ..old(self)@ },
                room_id@,
                id@,
            ),
            r == lookup(old(self)@.messages, id@),
    {
        let ghost m = self@;
        let removed = self.messages.remove(id.as_str());
        proof {
            assert(self@ =~= (CacheModel { messages: m.messages.remove(id@), ..m }));
        }
        self.unlink_message(room_id, id);
        removed
    }

    /// Stores a message.
    pub fn store_message(&mut self, incoming: Message, mode: StoreMode) -> (r: Option<Message>)
        requires
            old(self).wf(),
        ensures
            final(self).wf(),
            final(self).settings() == old(self).settings(),
            message_step(old(self)@, old(self).settings(), incoming, mode, final(self)@),
            r == (if keeps_message(old(self).settings(), incoming) || evicts_message(
                old(self).settings(),
                incoming,
            ) {
                lookup(old(self)@.messages, incoming.id@)
            } else {
                None
            }),
    {
        if !self.wants(ResourceType::message()) || self.config.message_cache_size() == 0 {
            return None;
        }
        let mode = if incoming.is_deleted_tombstone() {
            match self.config.tombstone_policy() {
                TombstonePolicy::Evict => {
                    return self.remove_message_in(&incoming.rid, &incoming.id);
                },
                // The tombstone carries none of the content that the deletion removed, and
                // merging would bring it back.
                TombstonePolicy::Replace => StoreMode::Replace,
            }
        } else {
            mode
        };
        let ghost m = self@;
        let room_id = incoming.rid.clone();
        let id = incoming.id.clone();
        let ghost key = id@;
        let stored = resolve(&self.messages, id.as_str(), incoming, mode);
        let previous = self.messages.insert(id.clone(), stored);
        let ghost next = (CacheModel { messages: m.messages.insert(key, stored), ..m });
        proof {
            assert(self@ =~= next);
        }
        if previous.is_none() {
            self.link_message(&room_id, id);
        }
        proof {
            assert(self@ == with_message(m, self.config.ring_size(), room_id@, key, stored));
            assert(is_stored(m.messages, incoming.id@, incoming, mode, stored));
        }
        previous
    }

    /// Puts a message at the front of a room's ring, and evicts down to its size.
    fn link_message(&mut self, room_id: &RoomId, id: MessageId)
        requires
            old(self).wf(),
            old(self).config.stores(MESSAGE_BIT),
            old(self).config.ring_size() > 0,
        ensures
            final(self).wf(),
            final(self).config == old(self).config,
            final(self)@ == linked_in(old(self)@, old(self).config.ring_size(), room_id@, id@),
    {
        let ghost m = self@;
        let ghost key = id@;
        let size: usize = self.config.message_cache_size();
        let mut ring: Vec<MessageId> = match self.room_messages.remove(room_id.as_str()) {
            Some(ring) => ring,
            None => Vec::new(),
        };
        let ghost was = id_texts(ring@);
        proof {
            assert(m.rings.dom().contains(room_id@) ==> m.rings[room_id@] == was);
            assert(!m.rings.dom().contains(room_id@) ==> was =~= Seq::<Seq<char>>::empty());
        }
        ring.insert(0, id);
        proof {
            assert(id_texts(ring@) =~= seq![key] + was);
        }
        if ring.len() > size {
            let ghost full = id_texts(ring@);
            match ring.pop() {
                Some(oldest) => {
                    proof {
                        assert(oldest@ == full.last());
                        assert(id_texts(ring@) =~= full.drop_last());
                    }
                    let _ = self.messages.remove(oldest.as_str());
                },
                None => {},
            }
        }
        let ghost kept = id_texts(ring@);
        let _ = self.room_messages.insert(room_id.clone(), ring);
        proof {
            assert(self@.rings =~= m.rings.insert(room_id@, kept));
            assert(self@ =~= linked_in(m, size, room_id@, key));
        }
    }

    /// Takes a message out of a room's ring.
    fn unlink_message(&mut self, room_id: &RoomId, id: &MessageId)
        requires
            old(self).wf(),
        ensures
            final(self).wf(),
            final(self).config == old(self).config,
            final(self)@ == unlinked(old(self)@, room_id@, id@),
    {
        let ghost m = self@;
        match self.room_messages.remove(room_id.as_str()) {
            Some(ring) => {
                let kept = retain_ids(&ring, id);
                proof {
                    assert(m.rings.dom().contains(room_id@));
                    assert(m.rings[room_id@] == id_texts(ring@));
                    lemma_without_len(id_texts(ring@), id@);
                }
                if kept.len() > 0 {
                    let _ = self.room_messages.insert(room_id.clone(), kept);
                    proof {
                        assert(self@.rings =~= m.rings.insert(room_id@, id_texts(kept@)));
                    }
                } else {
                    proof {
                        assert(self@.rings =~= m.rings.remove(room_id@));
                    }
                }
                proof {
                    assert(self@ =~= unlinked(m, room_id@, id@));
                }
            },
            None => {
                proof {
                    assert(self@.rings =~= m.rings);
                    assert(self@ =~= m);
                }
            },
        }
    }

    /// Empties the cache.
    pub fn clear(&mut self)
        requires
            old(self).wf(),
        ensures
            final(self).wf(),
            final(self).settings() == old(self).settings(),
            final(self)@ == nothing(),
    {
        self.rooms.clear();
        self.rooms_by_name.clear();
        self.users.clear();
        self.users_by_username.clear();
        self.subscriptions.clear();
        self.messages.clear();
        self.room_messages.clear();
        self.current_user = None;
        self.user_order.clear();
        proof {
            assert(self@ =~= nothing());
        }
    }

    /// How much the cache holds.
    pub fn stats(&self) -> (r: CacheStats)
        requires
            self.wf(),
        ensures
            r.rooms == self@.rooms.dom().len(),
            r.users == self@.users.dom().len(),
            r.subscriptions == self@.subscriptions.dom().len(),
            r.messages == self@.messages.dom().len(),
            r.rooms_with_messages == self@.rings.dom().len(),
    {
        proof {
            assert(self@.rings.dom() =~= self.room_messages.view().dom());
        }
        CacheStats {
            rooms: self.rooms.len(),
            users: self.users.len(),
            subscriptions: self.subscriptions.len(),
            messages: self.messages.len(),
            rooms_with_messages: self.room_messages.len(),
        }
    }
}

impl Default for CacheStats {
    fn default() -> (r: CacheStats)
        ensures
            r == (CacheStats {
                rooms: 0,
                users: 0,
                subscriptions: 0,
                messages: 0,
                rooms_with_messages: 0,
            }),
    {
        CacheStats { rooms: 0, users: 0, subscriptions: 0, messages: 0, rooms_with_messages: 0 }
    }
}

impl Default for Cache {
    fn default() -> (r: Cache)
        ensures
            r.wf(),
            r@ == nothing(),
    {
        Cache::new()
    }
}

impl CacheBuilder {
    /// Builds the cache.
    pub fn build(self) -> (r: Cache)
        ensures
            r.wf(),
            r@ == nothing(),
            r.settings() == self.settings(),
    {
        Cache::from_config(self.config())
    }
}

/// Whether one state follows another when a user is stored and the logged-in user refreshed.
pub open spec fn user_update(
    m: CacheModel,
    config: Config,
    incoming: User,
    mode: StoreMode,
    next: CacheModel,
) -> bool {
    exists|middle: CacheModel| #[trigger]
        refresh_step(m, config, incoming, mode, middle) && user_step(
            middle,
            config,
            incoming,
            mode,
            next,
        )
}

/// Whether one state follows another when the logged-in user is set.
pub open spec fn login_step(m: CacheModel, config: Config, user: User, next: CacheModel) -> bool {
    exists|middle: CacheModel| #[trigger]
        user_step(middle, config, user, StoreMode::Merge, next) && middle == (CacheModel {
            current_user: middle.current_user,
            ..m
        }) && (if config.stores(CURRENT_USER_BIT) {
            middle.current_user matches Some(current) && current.alike(&user)
        } else {
            middle.current_user == m.current_user
        })
}

proof fn lemma_room_names(m: CacheModel, id: Seq<char>, stored: Room)
    requires
        room_names_sound(m),
    ensures
        room_names_sound(with_room(m, id, stored)),
{
    let next = with_room(m, id, stored);
    assert forall|n: Seq<char>| #[trigger] next.room_names.dom().contains(n) implies room_name(
        next.rooms,
        next.room_names[n],
    ) == Some(n) by {
        if m.room_names.dom().contains(n) {
            assert(room_name(m.rooms, m.room_names[n]) == Some(n));
        }
    }
}

proof fn lemma_room_names_drop(m: CacheModel, id: Seq<char>)
    requires
        room_names_sound(m),
    ensures
        room_names_sound(without_room(m, id)),
{
    let next = without_room(m, id);
    assert forall|n: Seq<char>| #[trigger] next.room_names.dom().contains(n) implies room_name(
        next.rooms,
        next.room_names[n],
    ) == Some(n) by {
        assert(m.room_names.dom().contains(n));
        assert(room_name(m.rooms, m.room_names[n]) == Some(n));
    }
}

proof fn lemma_usernames(m: CacheModel, id: Seq<char>, stored: User)
    requires
        usernames_sound(m),
    ensures
        usernames_sound(with_user_document(m, id, stored)),
{
    let next = with_user_document(m, id, stored);
    assert forall|n: Seq<char>| #[trigger] next.usernames.dom().contains(n) implies user_name(
        next.users,
        next.usernames[n],
    ) == Some(n) by {
        if m.usernames.dom().contains(n) {
            assert(user_name(m.users, m.usernames[n]) == Some(n));
        }
    }
}

proof fn lemma_usernames_drop(m: CacheModel, id: Seq<char>)
    requires
        usernames_sound(m),
    ensures
        usernames_sound(without_user(m, id)),
{
    let next = without_user(m, id);
    assert forall|n: Seq<char>| #[trigger] next.usernames.dom().contains(n) implies user_name(
        next.users,
        next.usernames[n],
    ) == Some(n) by {
        assert(m.usernames.dom().contains(n));
        assert(user_name(m.users, m.usernames[n]) == Some(n));
    }
}

/// What holds of the queue when a user joins it: it still holds each user once, and where they
/// are too many, its head is someone else.
proof fn lemma_queue(m: CacheModel, config: Config, id: Seq<char>)
    requires
        users_bounded(m, config),
        config.user_limit() is Some,
        config.user_limit()->0.value() > 0,
        !m.users.dom().contains(id),
    ensures
        ({
            let queue = m.user_order.push(id);
            let users = m.users.dom().insert(id);
            &&& queue.no_duplicates()
            &&& users.finite()
            &&& users.len() == m.users.dom().len() + 1
            &&& forall|k: Seq<char>| #[trigger] users.contains(k) <==> queue.contains(k)
            &&& users.len() > config.user_limit()->0.value() ==> queue[0] != id
            &&& users.contains(queue[0])
            &&& queue.subrange(1, queue.len() as int).no_duplicates()
            &&& forall|k: Seq<char>| #[trigger]
                users.remove(queue[0]).contains(k) <==> queue.subrange(
                    1,
                    queue.len() as int,
                ).contains(k)
            &&& users.remove(queue[0]).len() == m.users.dom().len()
        }),
{
    let order = m.user_order;
    let queue = order.push(id);
    let users = m.users.dom().insert(id);
    assert(!order.contains(id));
    assert(queue.no_duplicates()) by {
        assert forall|i: int, j: int|
            0 <= i < queue.len() && 0 <= j < queue.len() && i != j implies queue[i] != queue[j] by {
            if i < order.len() {
                assert(order.contains(order[i]));
            }
            if j < order.len() {
                assert(order.contains(order[j]));
            }
        }
    }
    assert forall|k: Seq<char>| #[trigger] users.contains(k) <==> queue.contains(k) by {
        crate::lists::lemma_push_contains(order, id, k);
        assert(m.users.dom().contains(k) <==> order.contains(k));
    }
    if users.len() > config.user_limit()->0.value() {
        if order.len() == 0 {
            order.unique_seq_to_set();
            assert(m.users.dom() =~= Set::empty()) by {
                assert forall|k: Seq<char>| !m.users.dom().contains(k) by {
                    assert(m.users.dom().contains(k) <==> order.contains(k));
                }
            }
        }
        assert(queue[0] == order[0]);
        assert(order.contains(order[0]));
    }
    assert(queue.contains(queue[0]));
    let rest = queue.subrange(1, queue.len() as int);
    assert(rest.no_duplicates()) by {
        assert forall|i: int, j: int|
            0 <= i < rest.len() && 0 <= j < rest.len() && i != j implies rest[i] != rest[j] by {
            assert(queue[i + 1] != queue[j + 1]);
        }
    }
    assert forall|k: Seq<char>| #[trigger]
        users.remove(queue[0]).contains(k) <==> rest.contains(k) by {
        if rest.contains(k) {
            let i = choose|i: int| 0 <= i < rest.len() && rest[i] == k;
            assert(queue[i + 1] == k);
            assert(queue[i + 1] != queue[0]);
            assert(queue.contains(k));
        }
        if users.remove(queue[0]).contains(k) {
            assert(queue.contains(k));
            let i = choose|i: int| 0 <= i < queue.len() && queue[i] == k;
            assert(rest[i - 1] == k);
        }
    }
}

proof fn lemma_without_len(list: Seq<Seq<char>>, id: Seq<char>)
    ensures
        without(list, id).len() <= list.len(),
        !list.contains(id) ==> without(list, id) == list,
    decreases list.len(),
{
    if list.len() > 0 {
        lemma_without_len(list.drop_last(), id);
        if !list.contains(id) {
            assert(list[list.len() - 1] == list.last());
            assert(!list.drop_last().contains(id)) by {
                if list.drop_last().contains(id) {
                    let i = choose|i: int|
                        0 <= i < list.drop_last().len() && list.drop_last()[i] == id;
                    assert(list[i] == id);
                }
            }
            assert(list.drop_last().push(list.last()) =~= list);
        }
    } else {
        assert(without(list, id) =~= list);
    }
}

proof fn lemma_remove_user(m: CacheModel, config: Config, id: Seq<char>, order: Seq<Seq<char>>)
    requires
        usernames_sound(m),
        users_bounded(m, config),
        order == (if m.users.dom().contains(id) && config.user_limit() is Some {
            without(m.user_order, id)
        } else {
            m.user_order
        }),
    ensures
        order == without(m.user_order, id),
        usernames_sound(without_user(m, id)),
        users_bounded((CacheModel { user_order: order, ..without_user(m, id) }), config),
{
    lemma_usernames_drop(m, id);
    lemma_without_len(m.user_order, id);
    match config.user_limit() {
        Some(limit) => {
            assert(m.users.dom().contains(id) <==> m.user_order.contains(id));
            lemma_without_distinct(m.user_order, id);
            assert forall|k: Seq<char>| #[trigger]
                m.users.remove(id).dom().contains(k) <==> order.contains(k) by {
                lemma_without(m.user_order, id, k);
                assert(m.users.dom().contains(k) <==> m.user_order.contains(k));
            }
        },
        None => {
            assert(m.user_order =~= Seq::empty());
        },
    }
}

} // verus!

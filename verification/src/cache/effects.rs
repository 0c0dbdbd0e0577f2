//! What can be seen in a cache after a document was pushed, set or removed.
use crate::cache::config::{Config, NonZeroSize, TombstonePolicy};
use crate::cache::laws::{lists, rings_filled};
use crate::cache::store::{
    is_stored, login_step, lookup, message_mode, message_step, refresh_step, room_names_sound,
    subscription_step, unlinked, user_step, user_update, usernames_sound, with_message,
    with_user, without_room, without_user, CacheModel, StoreMode,
};
use crate::lists::{lemma_without, without};
use crate::cache::update::{all_apply, lemma_one_more, UpdateCache};
use crate::model::entity::parts::opt_chars;
use crate::model::entity::{Message, Room, Subscription, User};
use crate::model::json::JsonView;
use crate::model::names::lemma_message_type_apart;
use crate::model::wire::{Decode, Duplicate, Encode};
use vstd::prelude::*;

verus! {

/// Whether a kind, by its bit, is stored under a configuration.
pub open spec fn wanted(config: Config, bit: u32) -> bool {
    config.kinds().mask() & bit == bit
}

/// A copy of a message is a tombstone exactly where the message is one.
proof fn lemma_copied_tombstone(copy: Message, message: Message)
    requires
        copy.alike(&message),
    ensures
        copy.tombstone() == message.tombstone(),
        copy.id@ == message.id@,
        copy.rid@ == message.rid@,
{
    lemma_message_type_apart();
}

/// The copy of a message that was applied, and what was stored of it.
proof fn lemma_applied(
    message: Message,
    m: CacheModel,
    config: Config,
    next: CacheModel,
) -> (r: (Message, Message))
    requires
        message.applies(m, config, next),
        wanted(config, 8),
        config.ring_size() > 0,
        !message.tombstone() || config.tombstones() == TombstonePolicy::Replace,
    ensures
        r.0.alike(&message),
        r.0.doc() == message.doc(),
        is_stored(
            m.messages,
            message.id@,
            r.0,
            message_mode(r.0, StoreMode::Replace),
            r.1,
        ),
        next == with_message(m, config.ring_size(), message.rid@, message.id@, r.1),
{
    let copy = choose|copy: Message| #[trigger]
        copy.alike(&message) && copy.doc() == message.doc() && message_step(
            m,
            config,
            copy,
            StoreMode::Replace,
            next,
        );
    lemma_copied_tombstone(copy, message);
    let stored = choose|stored: Message| #[trigger]
        is_stored(m.messages, copy.id@, copy, message_mode(copy, StoreMode::Replace), stored)
            && next == with_message(m, config.ring_size(), copy.rid@, copy.id@, stored);
    (copy, stored)
}

/// A pushed room is whole: the cached one is then that document and nothing else, whatever was
/// cached before. Nothing but the room and its name changes.
pub proof fn law_a_pushed_room_replaces(
    room: Room,
    m: CacheModel,
    config: Config,
    next: CacheModel,
    other: Seq<char>,
)
    requires
        room.applies(m, config, next),
        wanted(config, 1),
    ensures
        next.rooms.dom().contains(room.id@),
        next.rooms[room.id@].doc() == room.doc(),
        next.rooms[room.id@].id@ == room.id@,
        other != room.id@ ==> (next.rooms.dom().contains(other) <==> m.rooms.dom().contains(
            other,
        )) && next.rooms[other] == m.rooms[other],
        next.messages == m.messages,
        next.rings == m.rings,
        next.subscriptions == m.subscriptions,
        next.users == m.users,
        next.usernames == m.usernames,
        next.current_user == m.current_user,
{
}

/// A pushed room can be found by its name, and a name that it gave up no longer leads to it; the
/// names of the others stay.
pub proof fn law_a_pushed_room_is_found_by_name(
    room: Room,
    m: CacheModel,
    config: Config,
    next: CacheModel,
    name: Seq<char>,
)
    requires
        room.applies(m, config, next),
        wanted(config, 1),
        room_names_sound(m),
    ensures
        opt_chars(room.name) == Some(name) && !(m.rooms.dom().contains(room.id@) && opt_chars(
            m.rooms[room.id@].name,
        ) == Some(name)) ==> next.room_names.dom().contains(name) && next.room_names[name]
            == room.id@,
        opt_chars(room.name) != Some(name) ==> !(next.room_names.dom().contains(name)
            && next.room_names[name] == room.id@),
        opt_chars(room.name) != Some(name) && m.room_names.dom().contains(name)
            && m.room_names[name] != room.id@ ==> next.room_names.dom().contains(name)
            && next.room_names[name] == m.room_names[name],
        opt_chars(room.name) == Some(name) && m.room_names.dom().contains(name)
            && m.room_names[name] == room.id@ ==> next.room_names.dom().contains(name)
            && next.room_names[name] == room.id@,
{
}

/// A pushed message is whole: where it is stored, the cached one is that document and nothing
/// else, whatever was cached before; a member that it lacks is gone.
pub proof fn law_a_pushed_message_replaces(
    message: Message,
    m: CacheModel,
    config: Config,
    next: CacheModel,
)
    requires
        message.applies(m, config, next),
        wanted(config, 8),
        config.ring_size() > 0,
        !message.tombstone() || config.tombstones() == TombstonePolicy::Replace,
        next.messages.dom().contains(message.id@),
    ensures
        next.messages[message.id@].doc() == message.doc(),
{
    let (copy, stored) = lemma_applied(message, m, config, next);
    assert(next.messages[message.id@] == stored);
}

/// A message that the configuration keeps is stored: a new one as the newest of its room, ahead of
/// those that were there, and a known one where it was.
pub proof fn law_a_pushed_message_is_listed(
    message: Message,
    m: CacheModel,
    config: Config,
    next: CacheModel,
)
    requires
        message.applies(m, config, next),
        wanted(config, 8),
        config.ring_size() > 0,
        !message.tombstone() || config.tombstones() == TombstonePolicy::Replace,
        rings_filled(m),
    ensures
        next.messages.dom().contains(message.id@),
        m.messages.dom().contains(message.id@) ==> next.rings == m.rings,
        !m.messages.dom().contains(message.id@) ==> next.rings.dom().contains(message.rid@)
            && next.rings[message.rid@].len() > 0 && next.rings[message.rid@][0] == message.id@
            && (m.rings.dom().contains(message.rid@) ==> forall|i: int|
            1 <= i < next.rings[message.rid@].len() ==> (#[trigger] next.rings[message.rid@][i])
                == m.rings[message.rid@][i - 1]),
        forall|room: Seq<char>|
            room != message.rid@ ==> (#[trigger] next.rings.dom().contains(room)
                <==> m.rings.dom().contains(room)) && next.rings[room] == m.rings[room],
        next.rooms == m.rooms,
        next.users == m.users,
        next.subscriptions == m.subscriptions,
{
    let (copy, stored) = lemma_applied(message, m, config, next);
    let id = message.id@;
    let room = message.rid@;
    if !m.messages.dom().contains(id) && m.rings.dom().contains(room) {
        let ring = seq![id] + m.rings[room];
        assert(!lists(m, room, id));
        assert(ring.last() == id ==> ring.len() == 1) by {
            if ring.len() > 1 && ring.last() == id {
                assert(m.rings[room][m.rings[room].len() - 1] == id);
                assert(m.rings[room].contains(id));
            }
        }
    }
}

/// Storing a message drops no other one, but for the oldest of its room where the room is full.
pub proof fn law_only_the_oldest_message_is_evicted(
    message: Message,
    m: CacheModel,
    config: Config,
    next: CacheModel,
    other: Seq<char>,
)
    requires
        message.applies(m, config, next),
        wanted(config, 8),
        config.ring_size() > 0,
        !message.tombstone() || config.tombstones() == TombstonePolicy::Replace,
        other != message.id@,
    ensures
        next.messages.dom().contains(other) ==> m.messages.dom().contains(other)
            && next.messages[other] == m.messages[other],
        m.messages.dom().contains(other) && !next.messages.dom().contains(other)
            ==> m.rings.dom().contains(message.rid@) && m.rings[message.rid@].len()
            >= config.ring_size() && m.rings[message.rid@].last() == other
            && !m.messages.dom().contains(message.id@),
        m.rings.dom().contains(message.rid@) && m.rings[message.rid@].len() < config.ring_size()
            && m.messages.dom().contains(other) ==> next.messages.dom().contains(other),
{
    let (copy, stored) = lemma_applied(message, m, config, next);
    if !m.messages.dom().contains(message.id@) && m.rings.dom().contains(message.rid@) {
        let ring = seq![message.id@] + m.rings[message.rid@];
        if m.rings[message.rid@].len() > 0 {
            assert(ring.last() == m.rings[message.rid@].last());
        }
    }
}

/// A tombstone is dropped where the configuration says so: neither it nor the message that it
/// stands for is cached or listed afterwards, and nothing else changes.
pub proof fn law_a_tombstone_evicts(
    message: Message,
    m: CacheModel,
    config: Config,
    next: CacheModel,
    other: Seq<char>,
)
    requires
        message.applies(m, config, next),
        wanted(config, 8),
        config.ring_size() > 0,
        message.tombstone(),
        config.tombstones() == TombstonePolicy::Evict,
    ensures
        !next.messages.dom().contains(message.id@),
        next.rings.dom().contains(message.rid@) ==> !next.rings[message.rid@].contains(
            message.id@,
        ),
        other != message.id@ ==> (next.messages.dom().contains(other)
            <==> m.messages.dom().contains(other)) && next.messages[other] == m.messages[other],
        next.rooms == m.rooms,
{
    let copy = choose|copy: Message| #[trigger]
        copy.alike(&message) && copy.doc() == message.doc() && message_step(
            m,
            config,
            copy,
            StoreMode::Replace,
            next,
        );
    lemma_copied_tombstone(copy, message);
    if m.rings.dom().contains(message.rid@) {
        lemma_without(m.rings[message.rid@], message.id@, message.id@);
    }
}

/// A kind that is not wanted is never stored.
pub proof fn law_an_unwanted_kind_is_ignored(
    room: Room,
    message: Message,
    subscription: Subscription,
    m: CacheModel,
    config: Config,
    next: CacheModel,
)
    ensures
        room.applies(m, config, next) && !wanted(config, 1) ==> next == m,
        message.applies(m, config, next) && !wanted(config, 8) ==> next == m,
        message.applies(m, config, next) && config.ring_size() == 0 ==> next == m,
        subscription.applies(m, config, next) && !wanted(config, 4) ==> next == m,
{
}

/// A pushed subscription is partial: laid over the cached one, it keeps every member that it does
/// not carry. One that was not cached is stored as it came. It is kept under its room.
pub proof fn law_a_pushed_subscription_merges(
    subscription: Subscription,
    m: CacheModel,
    config: Config,
    next: CacheModel,
    other: Seq<char>,
)
    requires
        subscription.applies(m, config, next),
        wanted(config, 4),
    ensures
        next.subscriptions.dom().contains(subscription.rid@),
        !m.subscriptions.dom().contains(subscription.rid@)
            ==> next.subscriptions[subscription.rid@].doc() == subscription.doc(),
        m.subscriptions.dom().contains(subscription.rid@) ==> ({
            let both = JsonView::Object(
                m.subscriptions[subscription.rid@].doc()->Object_0.union_prefer_right(
                    subscription.doc()->Object_0,
                ),
            );
            Subscription::accepts(both) ==> next.subscriptions[subscription.rid@].read_from(both)
        }),
        other != subscription.rid@ ==> (next.subscriptions.dom().contains(other)
            <==> m.subscriptions.dom().contains(other)) && next.subscriptions[other]
            == m.subscriptions[other],
        next.rooms == m.rooms,
        next.users == m.users,
        next.messages == m.messages,
        next.rings == m.rings,
{
    let copy = choose|copy: Subscription| #[trigger]
        copy.alike(&subscription) && copy.doc() == subscription.doc()
            && subscription_step(m, config, copy, StoreMode::Merge, next);
    assert(copy.rid@ == subscription.rid@);
    if m.subscriptions.dom().contains(subscription.rid@) {
        assert(m.subscriptions[subscription.rid@].doc() is Object);
        assert(subscription.doc() is Object);
    }
}

/// A pushed user is partial: laid over the cached one, and over the logged-in one where it is the
/// same user, it keeps every member that it does not carry.
pub proof fn law_a_pushed_user_merges(
    user: User,
    m: CacheModel,
    config: Config,
    next: CacheModel,
)
    requires
        user.applies(m, config, next),
        wanted(config, 2),
    ensures
        next.users.dom().contains(user.id@),
        !m.users.dom().contains(user.id@) ==> next.users[user.id@].doc() == user.doc(),
        m.users.dom().contains(user.id@) ==> ({
            let both = JsonView::Object(
                m.users[user.id@].doc()->Object_0.union_prefer_right(user.doc()->Object_0),
            );
            User::accepts(both) ==> next.users[user.id@].read_from(both)
        }),
        next.rooms == m.rooms,
        next.messages == m.messages,
        next.subscriptions == m.subscriptions,
{
    let copy = choose|copy: User| #[trigger]
        copy.alike(&user) && copy.doc() == user.doc() && user_update(
            m,
            config,
            copy,
            StoreMode::Merge,
            next,
        );
    let middle = choose|middle: CacheModel| #[trigger]
        refresh_step(m, config, copy, StoreMode::Merge, middle) && user_step(
            middle,
            config,
            copy,
            StoreMode::Merge,
            next,
        );
    assert(copy.id@ == user.id@);
    assert(middle.users == m.users);
    if m.users.dom().contains(user.id@) {
        assert(m.users[user.id@].doc() is Object);
    }
}

/// A pushed user refreshes the logged-in user where it is the same one, and leaves any other alone.
pub proof fn law_a_pushed_user_refreshes_the_current_one(
    user: User,
    m: CacheModel,
    config: Config,
    next: CacheModel,
)
    requires
        user.applies(m, config, next),
    ensures
        m.current_user is None ==> next.current_user is None,
        m.current_user matches Some(current) && current.id@ != user.id@ ==> next.current_user
            == m.current_user,
        !wanted(config, 16) ==> next.current_user == m.current_user,
        wanted(config, 16) && (m.current_user matches Some(current) && current.id@ == user.id@)
            ==> next.current_user is Some && ({
            let both = JsonView::Object(
                m.current_user->0.doc()->Object_0.union_prefer_right(user.doc()->Object_0),
            );
            User::accepts(both) ==> next.current_user->0.read_from(both)
        }),
{
    let copy = choose|copy: User| #[trigger]
        copy.alike(&user) && copy.doc() == user.doc() && user_update(
            m,
            config,
            copy,
            StoreMode::Merge,
            next,
        );
    let middle = choose|middle: CacheModel| #[trigger]
        refresh_step(m, config, copy, StoreMode::Merge, middle) && user_step(
            middle,
            config,
            copy,
            StoreMode::Merge,
            next,
        );
    assert(copy.id@ == user.id@);
    if m.current_user is Some {
        assert(m.current_user->0.doc() is Object);
        assert(user.doc() is Object);
    }
}

/// Setting the logged-in user keeps it apart, where that is wanted, and lays it over the cached one
/// too.
pub proof fn law_a_login_is_remembered(user: User, m: CacheModel, config: Config, next: CacheModel)
    requires
        login_step(m, config, user, next),
    ensures
        wanted(config, 16) ==> next.current_user is Some && next.current_user->0.alike(&user),
        !wanted(config, 16) ==> next.current_user == m.current_user,
        wanted(config, 2) ==> next.users.dom().contains(user.id@),
        !wanted(config, 2) ==> next.users == m.users,
        next.rooms == m.rooms,
        next.messages == m.messages,
        next.subscriptions == m.subscriptions,
{
}

/// A user who is stored can be found by their username, and no longer by one that they gave up.
/// Where users are bounded the one who was seen first is evicted to make room, and nobody else.
pub proof fn law_users_are_evicted_in_order(
    user: User,
    mode: StoreMode,
    m: CacheModel,
    config: Config,
    next: CacheModel,
    other: Seq<char>,
)
    requires
        user_step(m, config, user, mode, next),
        wanted(config, 2),
        other != user.id@,
    ensures
        next.users.dom().contains(other) ==> m.users.dom().contains(other) && next.users[other]
            == m.users[other],
        m.users.dom().contains(other) && !next.users.dom().contains(other)
            ==> config.user_limit() is Some && !m.users.dom().contains(user.id@)
            && m.user_order.len() > 0 && m.user_order[0] == other && m.users.dom().insert(
            user.id@,
        ).len() > config.user_limit()->0.value(),
        m.users.dom().contains(user.id@) ==> next.user_order == m.user_order,
        !m.users.dom().contains(user.id@) && config.user_limit() is Some
            ==> next.user_order.len() > 0 && next.user_order.last() == user.id@,
{
    if !m.users.dom().contains(user.id@) && config.user_limit() is Some {
        let queue = m.user_order.push(user.id@);
        assert(queue.last() == user.id@);
        if m.user_order.len() == 0 {
            assert(queue[0] == user.id@);
        } else {
            assert(queue[0] == m.user_order[0]);
            assert(queue.subrange(1, queue.len() as int).last() == user.id@);
        }
    }
}

/// A user who is stored can be found by their username.
pub proof fn law_a_user_is_found_by_username(
    user: User,
    m: CacheModel,
    config: Config,
    next: CacheModel,
    name: Seq<char>,
)
    requires
        user_step(m, config, user, StoreMode::Replace, next),
        wanted(config, 2),
        usernames_sound(m),
    ensures
        next.users[user.id@].doc() == user.doc(),
        opt_chars(user.username) == Some(name) && !(m.users.dom().contains(user.id@)
            && opt_chars(m.users[user.id@].username) == Some(name)) && next.users.dom().contains(
            user.id@,
        ) ==> next.usernames.dom().contains(name) && next.usernames[name] == user.id@,
        opt_chars(user.username) != Some(name) ==> !(next.usernames.dom().contains(name)
            && next.usernames[name] == user.id@),
{
    if !m.users.dom().contains(user.id@) && config.user_limit() is Some {
        let queue = m.user_order.push(user.id@);
        if m.user_order.len() > 0 {
            assert(queue[0] == m.user_order[0]);
        } else {
            assert(queue[0] == user.id@);
        }
    }
}

/// A room that is removed is gone with its name, its subscription and its messages; the others
/// stay.
pub proof fn law_a_removed_room_is_gone(m: CacheModel, id: Seq<char>, other: Seq<char>)
    requires
        room_names_sound(m),
    ensures
        !without_room(m, id).rooms.dom().contains(id),
        !without_room(m, id).subscriptions.dom().contains(id),
        !without_room(m, id).rings.dom().contains(id),
        forall|name: Seq<char>| #[trigger]
            without_room(m, id).room_names.dom().contains(name) ==> without_room(
                m,
                id,
            ).room_names[name] != id,
        other != id ==> (without_room(m, id).rooms.dom().contains(other)
            <==> m.rooms.dom().contains(other)) && without_room(m, id).rooms[other]
            == m.rooms[other] && (without_room(m, id).subscriptions.dom().contains(other)
            <==> m.subscriptions.dom().contains(other)) && (without_room(
            m,
            id,
        ).rings.dom().contains(other) <==> m.rings.dom().contains(other)),
        without_room(m, id).users == m.users,
        without_room(m, id).current_user == m.current_user,
{
    assert forall|name: Seq<char>| #[trigger]
        without_room(m, id).room_names.dom().contains(name) implies without_room(
        m,
        id,
    ).room_names[name] != id by {
        assert(m.room_names.dom().contains(name));
    }
}

/// A user who is removed is gone with their username; the others stay.
pub proof fn law_a_removed_user_is_gone(m: CacheModel, id: Seq<char>, other: Seq<char>)
    requires
        usernames_sound(m),
    ensures
        !without_user(m, id).users.dom().contains(id),
        forall|name: Seq<char>| #[trigger]
            without_user(m, id).usernames.dom().contains(name) ==> without_user(
                m,
                id,
            ).usernames[name] != id,
        other != id ==> (without_user(m, id).users.dom().contains(other)
            <==> m.users.dom().contains(other)) && without_user(m, id).users[other]
            == m.users[other],
        without_user(m, id).rooms == m.rooms,
        without_user(m, id).messages == m.messages,
        without_user(m, id).current_user == m.current_user,
{
    assert forall|name: Seq<char>| #[trigger]
        without_user(m, id).usernames.dom().contains(name) implies without_user(
        m,
        id,
    ).usernames[name] != id by {
        assert(m.usernames.dom().contains(name));
    }
}

/// A list of payloads is applied one by one, in order: the first to what was cached, and the next
/// to what that left.
pub proof fn law_payloads_are_applied_in_order<T: UpdateCache>(
    a: Vec<T>,
    m: CacheModel,
    config: Config,
    next: CacheModel,
)
    ensures
        a@.len() == 0 ==> (a.applies(m, config, next) <==> next == m),
        a@.len() == 1 ==> (a.applies(m, config, next) <==> a@[0].applies(m, config, next)),
        a@.len() == 2 ==> (a.applies(m, config, next) <==> exists|middle: CacheModel|
            a@[0].applies(m, config, middle) && #[trigger] a@[1].applies(middle, config, next)),
{
    reveal_with_fuel(all_apply, 4);
    if a@.len() == 1 {
        if a@[0].applies(m, config, next) {
            lemma_one_more(a@, 1, m, config, m, next);
        }
    }
    if a@.len() == 2 {
        if exists|middle: CacheModel|
            a@[0].applies(m, config, middle) && #[trigger] a@[1].applies(middle, config, next) {
            let middle = choose|middle: CacheModel|
                a@[0].applies(m, config, middle) && #[trigger] a@[1].applies(middle, config, next);
            lemma_one_more(a@, 1, m, config, m, middle);
            lemma_one_more(a@, 2, m, config, middle, next);
        }
        if a.applies(m, config, next) {
            let middle = choose|middle: CacheModel|
                all_apply(a@, 1, m, config, middle) && #[trigger] a@[1].applies(
                    middle,
                    config,
                    next,
                );
            assert(a@[0].applies(m, config, middle));
        }
    }
}

/// No payload changes nothing, and one is applied as it is.
pub proof fn law_an_optional_payload_is_applied<T: UpdateCache>(
    a: Option<T>,
    m: CacheModel,
    config: Config,
    next: CacheModel,
)
    ensures
        a is None ==> (a.applies(m, config, next) <==> next == m),
        a matches Some(value) ==> (a.applies(m, config, next) <==> value.applies(m, config, next)),
{
}

/// Replacing stores the document as it came, cached or not, and so does merging where nothing was
/// cached. Merging over a cached document stores what reads from both laid over each other, the
/// new one on top, or else the new one.
pub proof fn law_what_is_stored<T: Encode + Decode + Duplicate>(
    cached: Map<Seq<char>, T>,
    id: Seq<char>,
    incoming: T,
    mode: StoreMode,
    stored: T,
    base: Map<Seq<char>, JsonView>,
    top: Map<Seq<char>, JsonView>,
)
    requires
        is_stored(cached, id, incoming, mode, stored),
        incoming.doc() == JsonView::Object(top),
        cached.dom().contains(id) ==> cached[id].doc() == JsonView::Object(base),
    ensures
        mode == StoreMode::Replace ==> stored == incoming,
        !cached.dom().contains(id) ==> stored == incoming,
        mode == StoreMode::Merge && cached.dom().contains(id) ==> if T::accepts(
            JsonView::Object(base.union_prefer_right(top)),
        ) {
            stored.read_from(JsonView::Object(base.union_prefer_right(top)))
        } else {
            stored.alike(&incoming)
        },
{
}

/// A tombstone is never laid over the message that it takes the place of.
pub proof fn law_a_tombstone_is_not_merged(message: Message, mode: StoreMode)
    ensures
        message.tombstone() ==> message_mode(message, mode) == StoreMode::Replace,
        !message.tombstone() ==> message_mode(message, mode) == mode,
{
}

/// A message that is taken out of a room's list is gone from it, the others stay in their order,
/// and a room whose list is empty has none. The lists of other rooms stay.
pub proof fn law_a_message_leaves_its_list(
    m: CacheModel,
    room: Seq<char>,
    id: Seq<char>,
    other: Seq<char>,
)
    ensures
        !lists(unlinked(m, room, id), room, id),
        other != id ==> (lists(unlinked(m, room, id), room, other) <==> lists(m, room, other)),
        m.rings.dom().contains(room) && unlinked(m, room, id).rings.dom().contains(room)
            ==> unlinked(m, room, id).rings[room] == without(m.rings[room], id),
        unlinked(m, room, id).rings.dom().contains(room) && m.rings.dom().contains(room)
            ==> unlinked(m, room, id).rings[room].len() > 0,
        other != room ==> (unlinked(m, room, id).rings.dom().contains(other)
            <==> m.rings.dom().contains(other)) && unlinked(m, room, id).rings[other]
            == m.rings[other],
        unlinked(m, room, id).messages == m.messages,
        unlinked(m, room, id).rooms == m.rooms,
        unlinked(m, room, id).users == m.users,
{
    if m.rings.dom().contains(room) {
        let ring = m.rings[room];
        lemma_without(ring, id, id);
        lemma_without(ring, id, other);
        if without(ring, id).len() == 0 {
            assert(!without(ring, id).contains(other));
        }
    }
}

/// What is looked up is what is stored under the id.
pub proof fn law_what_is_looked_up<T>(map: Map<Seq<char>, T>, id: Seq<char>)
    ensures
        map.dom().contains(id) ==> lookup(map, id) == Some(map[id]),
        !map.dom().contains(id) ==> lookup(map, id) is None,
{
}

/// A new user who makes the users too many takes the place of the one who has been there longest;
/// everyone else moves up by one.
pub proof fn law_the_longest_kept_user_makes_room(
    m: CacheModel,
    config: Config,
    id: Seq<char>,
    stored: User,
    limit: NonZeroSize,
)
    requires
        !m.users.dom().contains(id),
        config.user_limit() == Some(limit),
        m.user_order.len() > 0,
        m.user_order[0] != id,
    ensures
        ({
            let next = with_user(m, config, id, stored);
            let full = m.users.dom().insert(id).len() > limit.value();
            &&& next.users.dom().contains(id)
            &&& next.users[id] == stored
            &&& full ==> !next.users.dom().contains(m.user_order[0])
            &&& full ==> next.user_order == m.user_order.skip(1).push(id)
            &&& !full ==> next.user_order == m.user_order.push(id)
        }),
{
    let queue = m.user_order.push(id);
    assert(queue.subrange(1, queue.len() as int) =~= m.user_order.skip(1).push(id));
    assert(m.users.insert(id, stored).dom() =~= m.users.dom().insert(id));
}

} // verus!

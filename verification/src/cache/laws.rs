//! What holds between the messages and the rings of a cache.
//!
//! As long as no message moves to another room, every ring lists cached messages of its own
//! room, each once, and every cached message is listed.
use crate::cache::config::Config;
use crate::cache::fields::law_message_merge;
use crate::cache::store::{
    evicts_message, is_stored, keeps_message, message_mode, message_step, nothing,
    unlinked, with_message, without_room, CacheModel, StoreMode,
};
use crate::lists::{lemma_without, lemma_without_distinct, without};
use crate::model::entity::Message;
use crate::model::faithful::RoundTrip;
use crate::model::wire::Encode;
use vstd::prelude::*;

verus! {

/// Whether a ring lists a message.
pub open spec fn lists(m: CacheModel, room: Seq<char>, id: Seq<char>) -> bool {
    m.rings.dom().contains(room) && m.rings[room].contains(id)
}

/// Whether every ring lists cached messages of its room, each once, and every cached message is
/// listed.
pub open spec fn rings_filled(m: CacheModel) -> bool {
    &&& forall|room: Seq<char>, id: Seq<char>| #[trigger]
        lists(m, room, id) <==> m.messages.dom().contains(id) && m.messages[id].rid@ == room
    &&& forall|room: Seq<char>| #[trigger]
        m.rings.dom().contains(room) ==> m.rings[room].no_duplicates()
}

/// An empty cache lists nothing, and has nothing to list.
pub proof fn law_empty_rings_are_filled()
    ensures
        rings_filled(nothing()),
{
}

/// Storing a message that does not come from another room keeps the rings filled: a new message
/// is listed, an evicted one leaves both, and an edit stays where it is.
pub proof fn law_storing_keeps_rings_filled(
    m: CacheModel,
    config: Config,
    incoming: Message,
    mode: StoreMode,
    next: CacheModel,
)
    requires
        rings_filled(m),
        message_step(m, config, incoming, mode, next),
        m.messages.dom().contains(incoming.id@) ==> m.messages[incoming.id@].rid@
            == incoming.rid@,
        message_mode(incoming, mode) == StoreMode::Merge && m.messages.dom().contains(
            incoming.id@,
        ) ==> m.messages[incoming.id@].writable() && incoming.writable(),
    ensures
        rings_filled(next),
{
    let id = incoming.id@;
    let room = incoming.rid@;
    if keeps_message(config, incoming) {
        let stored = choose|stored: Message| #[trigger]
            is_stored(m.messages, id, incoming, message_mode(incoming, mode), stored) && next
                == with_message(m, config.ring_size(), room, id, stored);
        if message_mode(incoming, mode) == StoreMode::Merge && m.messages.dom().contains(id) {
            law_message_merge(m.messages[id], incoming, stored);
        }
        lemma_with_message(m, config.ring_size(), room, id, stored);
    } else if evicts_message(config, incoming) {
        lemma_removed(m, room, id);
    }
}

proof fn lemma_with_message(
    m: CacheModel,
    size: usize,
    room: Seq<char>,
    id: Seq<char>,
    stored: Message,
)
    requires
        rings_filled(m),
        size > 0,
        stored.rid@ == room,
        m.messages.dom().contains(id) ==> m.messages[id].rid@ == room,
    ensures
        rings_filled(with_message(m, size, room, id, stored)),
{
    let next = with_message(m, size, room, id, stored);
    let base = CacheModel { messages: m.messages.insert(id, stored), ..m };
    if m.messages.dom().contains(id) {
        assert forall|r: Seq<char>, k: Seq<char>| #[trigger]
            lists(next, r, k) <==> next.messages.dom().contains(k) && next.messages[k].rid@
                == r by {
            assert(lists(m, r, k) == lists(next, r, k));
        }
    } else {
        let old = if m.rings.dom().contains(room) {
            m.rings[room]
        } else {
            Seq::empty()
        };
        let ring = seq![id] + old;
        assert(!old.contains(id)) by {
            if old.contains(id) {
                assert(lists(m, room, id));
            }
        }
        assert forall|i: int, j: int| 0 <= i < ring.len() && 0 <= j < ring.len() && i
            != j implies ring[i] != ring[j] by {
            if i > 0 {
                assert(ring[i] == old[i - 1]);
                assert(old.contains(old[i - 1]));
            }
            if j > 0 {
                assert(ring[j] == old[j - 1]);
                assert(old.contains(old[j - 1]));
            }
        }
        assert forall|k: Seq<char>| ring.contains(k) <==> k == id || old.contains(k) by {
            assert(ring[0] == id);
            if old.contains(k) {
                let i = choose|i: int| 0 <= i < old.len() && old[i] == k;
                assert(ring[i + 1] == k);
            }
            if ring.contains(k) && k != id {
                let i = choose|i: int| 0 <= i < ring.len() && ring[i] == k;
                assert(old[i - 1] == k);
            }
        }
        if ring.len() > size {
            let gone = ring.last();
            let kept = ring.drop_last();
            assert(gone == old.last());
            assert(old.contains(gone));
            assert(lists(m, room, gone));
            assert forall|k: Seq<char>| kept.contains(k) <==> ring.contains(k) && k != gone by {
                if kept.contains(k) {
                    let i = choose|i: int| 0 <= i < kept.len() && kept[i] == k;
                    assert(ring[i] == k);
                    assert(ring[i] != ring[ring.len() - 1]);
                }
                if ring.contains(k) && k != gone {
                    let i = choose|i: int| 0 <= i < ring.len() && ring[i] == k;
                    assert(kept[i] == k);
                }
            }
            assert(kept.no_duplicates()) by {
                assert forall|i: int, j: int| 0 <= i < kept.len() && 0 <= j < kept.len() && i
                    != j implies kept[i] != kept[j] by {
                    assert(ring[i] != ring[j]);
                }
            }
            assert forall|r: Seq<char>, k: Seq<char>| #[trigger]
                lists(next, r, k) <==> next.messages.dom().contains(k) && next.messages[k].rid@
                    == r by {
                assert(lists(m, r, k) <==> m.messages.dom().contains(k) && m.messages[k].rid@
                    == r);
                if r == room {
                    assert(lists(next, r, k) == kept.contains(k));
                    assert(lists(m, r, k) == old.contains(k));
                } else {
                    assert(lists(next, r, k) == lists(m, r, k));
                }
            }
        } else {
            assert forall|r: Seq<char>, k: Seq<char>| #[trigger]
                lists(next, r, k) <==> next.messages.dom().contains(k) && next.messages[k].rid@
                    == r by {
                assert(lists(m, r, k) <==> m.messages.dom().contains(k) && m.messages[k].rid@
                    == r);
                if r == room {
                    assert(lists(next, r, k) == ring.contains(k));
                    assert(lists(m, r, k) == old.contains(k));
                } else {
                    assert(lists(next, r, k) == lists(m, r, k));
                }
            }
        }
    }
}

proof fn lemma_removed(m: CacheModel, room: Seq<char>, id: Seq<char>)
    requires
        rings_filled(m),
        m.messages.dom().contains(id) ==> m.messages[id].rid@ == room,
    ensures
        rings_filled(unlinked(CacheModel { messages: m.messages.remove(id), ..m }, room, id)),
{
    let base = CacheModel { messages: m.messages.remove(id), ..m };
    let next = unlinked(base, room, id);
    if m.rings.dom().contains(room) {
        lemma_without_distinct(m.rings[room], id);
    }
    assert forall|r: Seq<char>, k: Seq<char>| #[trigger]
        lists(next, r, k) <==> next.messages.dom().contains(k) && next.messages[k].rid@ == r by {
        assert(lists(m, r, k) <==> m.messages.dom().contains(k) && m.messages[k].rid@ == r);
        if m.rings.dom().contains(room) {
            lemma_without(m.rings[room], id, k);
            if without(m.rings[room], id).len() == 0 {
                assert(!without(m.rings[room], id).contains(k));
            }
        }
        if r == room {
            assert(lists(next, r, k) <==> lists(m, r, k) && k != id);
        } else {
            assert(lists(next, r, k) == lists(m, r, k));
        }
    }
}

/// Removing a message, from the room that it is in, leaves it neither cached nor listed, and
/// keeps the rings filled.
pub proof fn law_removing_keeps_rings_filled(m: CacheModel, room: Seq<char>, id: Seq<char>)
    requires
        rings_filled(m),
        m.messages.dom().contains(id) ==> m.messages[id].rid@ == room,
    ensures
        ({
            let next = unlinked(CacheModel { messages: m.messages.remove(id), ..m }, room, id);
            rings_filled(next) && forall|r: Seq<char>| !(#[trigger] lists(next, r, id))
        }),
{
    lemma_removed(m, room, id);
}

/// Removing a room removes its messages with its ring, and no other message.
pub proof fn law_removing_a_room_removes_its_messages(m: CacheModel, room: Seq<char>)
    requires
        rings_filled(m),
    ensures
        rings_filled(without_room(m, room)),
        forall|id: Seq<char>| #[trigger]
            without_room(m, room).messages.dom().contains(id) <==> m.messages.dom().contains(id)
                && m.messages[id].rid@ != room,
{
    let next = without_room(m, room);
    assert forall|id: Seq<char>| #[trigger]
        next.messages.dom().contains(id) <==> m.messages.dom().contains(id)
            && m.messages[id].rid@ != room by {
        assert(lists(m, room, id) <==> m.messages.dom().contains(id) && m.messages[id].rid@
            == room);
        if m.rings.dom().contains(room) {
            assert(m.rings[room].to_set().contains(id) <==> m.rings[room].contains(id));
        }
    }
    assert forall|r: Seq<char>, k: Seq<char>| #[trigger]
        lists(next, r, k) <==> next.messages.dom().contains(k) && next.messages[k].rid@ == r by {
        assert(lists(m, r, k) <==> m.messages.dom().contains(k) && m.messages[k].rid@ == r);
        if r != room {
            assert(lists(next, r, k) == lists(m, r, k));
        }
    }
}

} // verus!

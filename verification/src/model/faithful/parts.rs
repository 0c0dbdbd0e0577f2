//! The subdocuments come back as they were.
use crate::model::entity::parts::{
    AnnouncementDetails, ChannelMention, MessageFile, MessageMention, MessageUrl, OldRoomKey,
    Reaction, Star, UrlHeaders, UserEmail, UserRef,
};
use crate::model::faithful::{
    dict_member, lemma_date, lemma_dict, lemma_held, lemma_holds_more, lemma_holds_none,
    lemma_optional, lemma_placed_more, lemma_placed_none, lemma_required, lemma_same_some,
    lemma_with, lemma_with_some, opt_doc, opt_writable, placed, tag, RoundTrip,
};
use crate::model::json::JsonView;
use crate::model::wire::{same_doc, slot, with, with_some, Decode, Encode};
use vstd::prelude::*;
use vstd::string::*;

verus! {

/// The names of the members of a [`UserRef`], in order.
spec fn user_ref_key(i: int) -> Seq<char> {
    if i == 0 {
        "_id"@
    } else if i == 1 {
        "username"@
    } else if i == 2 {
        "name"@
    } else {
        Seq::empty()
    }
}

/// What each member of a [`UserRef`] is written as.
spec fn user_ref_value(x: UserRef, i: int) -> Option<JsonView> {
    if i == 0 {
        Some(x.id.doc())
    } else if i == 1 {
        opt_doc(x.username)
    } else if i == 2 {
        opt_doc(x.name)
    } else {
        None
    }
}

/// The position of a name.
spec fn user_ref_position(s: Seq<char>) -> int {
    let t = tag(s, 0, 1, 2);
    if t == 100105095003 {
        0
    } else if t == 101115117008 {
        1
    } else if t == 109097110004 {
        2
    } else {
        -1
    }
}

proof fn lemma_user_ref_keys()
    ensures
        placed(|i: int| user_ref_key(i), |s: Seq<char>| user_ref_position(s), 3),
{
    let key = |i: int| user_ref_key(i);
    let position = |s: Seq<char>| user_ref_position(s);
    lemma_placed_none(key, position);
    assert(user_ref_position("_id"@) == 0) by {
        reveal_strlit("_id");
        assert("_id"@.len() == 3);
        assert("_id"@[0] == '_');
        assert("_id"@[1] == 'i');
        assert("_id"@[2] == 'd');
    }
    lemma_placed_more(key, position, 0);
    assert(user_ref_position("username"@) == 1) by {
        reveal_strlit("username");
        assert("username"@.len() == 8);
        assert("username"@[0] == 'u');
        assert("username"@[1] == 's');
        assert("username"@[2] == 'e');
    }
    lemma_placed_more(key, position, 1);
    assert(user_ref_position("name"@) == 2) by {
        reveal_strlit("name");
        assert("name"@.len() == 4);
        assert("name"@[0] == 'n');
        assert("name"@[1] == 'a');
        assert("name"@[2] == 'm');
    }
    lemma_placed_more(key, position, 2);
}

/// Each member of a written [`UserRef`] is what its field is written as: a field that is unset has no
/// member.
pub proof fn law_user_ref_members(x: UserRef)
    ensures
        slot(x.doc(), "_id"@, 0) == Some(x.id.doc()),
        slot(x.doc(), "username"@, 1) == opt_doc(x.username),
        slot(x.doc(), "name"@, 2) == opt_doc(x.name),
{
    lemma_user_ref_keys();
    let key = |i: int| user_ref_key(i);
    let value = |i: int| user_ref_value(x, i);
    let position = |s: Seq<char>| user_ref_position(s);
    let m0 = Map::<Seq<char>, JsonView>::empty();
    lemma_holds_none(key, value, 3);
    let m1 = with(m0, "_id"@, x.id.doc());
    lemma_with(m0, "_id"@, x.id.doc());
    lemma_holds_more(m0, key, value, position, 3, 0, m1);
    let m2 = with_some(m1, "username"@, x.username);
    lemma_with_some(m1, "username"@, x.username);
    lemma_holds_more(m1, key, value, position, 3, 1, m2);
    let m3 = with_some(m2, "name"@, x.name);
    lemma_with_some(m2, "name"@, x.name);
    lemma_holds_more(m2, key, value, position, 3, 2, m3);
    lemma_held(m3, key, value, 3, 0);
    lemma_held(m3, key, value, 3, 1);
    lemma_held(m3, key, value, 3, 2);
    assert(x.doc() == JsonView::Object(m3));
}

/// A written [`UserRef`] can be read.
proof fn lemma_user_ref_accepted(x: UserRef)
    requires
        x.writable(),
    ensures
        UserRef::accepts(x.doc()),
{
    law_user_ref_members(x);
    lemma_required(x.id, x.id);
    lemma_optional(x.username, x.username);
    lemma_optional(x.name, x.name);
}

/// Two [`UserRef`]s whose fields are written the same are written the same.
pub proof fn lemma_user_ref_same(x: UserRef, y: UserRef)
    requires
        x.id.doc() == y.id.doc(),
        same_doc(x.username, y.username),
        same_doc(x.name, y.name),
    ensures
        x.doc() == y.doc(),
{
    let m0 = Map::<Seq<char>, JsonView>::empty();
    let m1 = with(m0, "_id"@, x.id.doc());
    let m2 = with_some(m1, "username"@, x.username);
    lemma_same_some(m1, "username"@, x.username, y.username);
    let m3 = with_some(m2, "name"@, x.name);
    lemma_same_some(m2, "name"@, x.name, y.name);
}

impl RoundTrip for UserRef {
    open spec fn writable(&self) -> bool {
        &&& self.id.writable()
        &&& opt_writable(self.username)
        &&& opt_writable(self.name)
    }

    proof fn law_round_trip(&self, back: &UserRef) {
        lemma_user_ref_accepted(*self);
        if back.read_from(self.doc()) {
            law_user_ref_members(*self);
            lemma_required(self.id, back.id);
            lemma_optional(self.username, back.username);
            lemma_optional(self.name, back.name);
            lemma_user_ref_same(*back, *self);
        }
    }
}

/// The names of the members of a [`MessageMention`], in order.
spec fn message_mention_key(i: int) -> Seq<char> {
    if i == 0 {
        "_id"@
    } else if i == 1 {
        "type"@
    } else if i == 2 {
        "name"@
    } else if i == 3 {
        "username"@
    } else if i == 4 {
        "fname"@
    } else {
        Seq::empty()
    }
}

/// What each member of a [`MessageMention`] is written as.
spec fn message_mention_value(x: MessageMention, i: int) -> Option<JsonView> {
    if i == 0 {
        Some(x.id.doc())
    } else if i == 1 {
        opt_doc(x.mention_type)
    } else if i == 2 {
        opt_doc(x.name)
    } else if i == 3 {
        opt_doc(x.username)
    } else if i == 4 {
        opt_doc(x.fname)
    } else {
        None
    }
}

/// The position of a name.
spec fn message_mention_position(s: Seq<char>) -> int {
    let t = tag(s, 0, 1, 2);
    if t == 100105095003 {
        0
    } else if t == 112121116004 {
        1
    } else if t == 109097110004 {
        2
    } else if t == 101115117008 {
        3
    } else if t == 97110102005 {
        4
    } else {
        -1
    }
}

proof fn lemma_message_mention_keys()
    ensures
        placed(|i: int| message_mention_key(i), |s: Seq<char>| message_mention_position(s), 5),
{
    let key = |i: int| message_mention_key(i);
    let position = |s: Seq<char>| message_mention_position(s);
    lemma_placed_none(key, position);
    assert(message_mention_position("_id"@) == 0) by {
        reveal_strlit("_id");
        assert("_id"@.len() == 3);
        assert("_id"@[0] == '_');
        assert("_id"@[1] == 'i');
        assert("_id"@[2] == 'd');
    }
    lemma_placed_more(key, position, 0);
    assert(message_mention_position("type"@) == 1) by {
        reveal_strlit("type");
        assert("type"@.len() == 4);
        assert("type"@[0] == 't');
        assert("type"@[1] == 'y');
        assert("type"@[2] == 'p');
    }
    lemma_placed_more(key, position, 1);
    assert(message_mention_position("name"@) == 2) by {
        reveal_strlit("name");
        assert("name"@.len() == 4);
        assert("name"@[0] == 'n');
        assert("name"@[1] == 'a');
        assert("name"@[2] == 'm');
    }
    lemma_placed_more(key, position, 2);
    assert(message_mention_position("username"@) == 3) by {
        reveal_strlit("username");
        assert("username"@.len() == 8);
        assert("username"@[0] == 'u');
        assert("username"@[1] == 's');
        assert("username"@[2] == 'e');
    }
    lemma_placed_more(key, position, 3);
    assert(message_mention_position("fname"@) == 4) by {
        reveal_strlit("fname");
        assert("fname"@.len() == 5);
        assert("fname"@[0] == 'f');
        assert("fname"@[1] == 'n');
        assert("fname"@[2] == 'a');
    }
    lemma_placed_more(key, position, 4);
}

/// Each member of a written [`MessageMention`] is what its field is written as: a field that is unset has no
/// member.
pub proof fn law_message_mention_members(x: MessageMention)
    ensures
        slot(x.doc(), "_id"@, 0) == Some(x.id.doc()),
        slot(x.doc(), "type"@, 1) == opt_doc(x.mention_type),
        slot(x.doc(), "name"@, 2) == opt_doc(x.name),
        slot(x.doc(), "username"@, 3) == opt_doc(x.username),
        slot(x.doc(), "fname"@, 4) == opt_doc(x.fname),
{
    lemma_message_mention_keys();
    let key = |i: int| message_mention_key(i);
    let value = |i: int| message_mention_value(x, i);
    let position = |s: Seq<char>| message_mention_position(s);
    let m0 = Map::<Seq<char>, JsonView>::empty();
    lemma_holds_none(key, value, 5);
    let m1 = with(m0, "_id"@, x.id.doc());
    lemma_with(m0, "_id"@, x.id.doc());
    lemma_holds_more(m0, key, value, position, 5, 0, m1);
    let m2 = with_some(m1, "type"@, x.mention_type);
    lemma_with_some(m1, "type"@, x.mention_type);
    lemma_holds_more(m1, key, value, position, 5, 1, m2);
    let m3 = with_some(m2, "name"@, x.name);
    lemma_with_some(m2, "name"@, x.name);
    lemma_holds_more(m2, key, value, position, 5, 2, m3);
    let m4 = with_some(m3, "username"@, x.username);
    lemma_with_some(m3, "username"@, x.username);
    lemma_holds_more(m3, key, value, position, 5, 3, m4);
    let m5 = with_some(m4, "fname"@, x.fname);
    lemma_with_some(m4, "fname"@, x.fname);
    lemma_holds_more(m4, key, value, position, 5, 4, m5);
    lemma_held(m5, key, value, 5, 0);
    lemma_held(m5, key, value, 5, 1);
    lemma_held(m5, key, value, 5, 2);
    lemma_held(m5, key, value, 5, 3);
    lemma_held(m5, key, value, 5, 4);
    assert(x.doc() == JsonView::Object(m5));
}

/// A written [`MessageMention`] can be read.
proof fn lemma_message_mention_accepted(x: MessageMention)
    requires
        x.writable(),
    ensures
        MessageMention::accepts(x.doc()),
{
    law_message_mention_members(x);
    lemma_required(x.id, x.id);
    lemma_optional(x.mention_type, x.mention_type);
    lemma_optional(x.name, x.name);
    lemma_optional(x.username, x.username);
    lemma_optional(x.fname, x.fname);
}

/// Two [`MessageMention`]s whose fields are written the same are written the same.
pub proof fn lemma_message_mention_same(x: MessageMention, y: MessageMention)
    requires
        x.id.doc() == y.id.doc(),
        same_doc(x.mention_type, y.mention_type),
        same_doc(x.name, y.name),
        same_doc(x.username, y.username),
        same_doc(x.fname, y.fname),
    ensures
        x.doc() == y.doc(),
{
    let m0 = Map::<Seq<char>, JsonView>::empty();
    let m1 = with(m0, "_id"@, x.id.doc());
    let m2 = with_some(m1, "type"@, x.mention_type);
    lemma_same_some(m1, "type"@, x.mention_type, y.mention_type);
    let m3 = with_some(m2, "name"@, x.name);
    lemma_same_some(m2, "name"@, x.name, y.name);
    let m4 = with_some(m3, "username"@, x.username);
    lemma_same_some(m3, "username"@, x.username, y.username);
    let m5 = with_some(m4, "fname"@, x.fname);
    lemma_same_some(m4, "fname"@, x.fname, y.fname);
}

impl RoundTrip for MessageMention {
    open spec fn writable(&self) -> bool {
        &&& self.id.writable()
        &&& opt_writable(self.mention_type)
        &&& opt_writable(self.name)
        &&& opt_writable(self.username)
        &&& opt_writable(self.fname)
    }

    proof fn law_round_trip(&self, back: &MessageMention) {
        lemma_message_mention_accepted(*self);
        if back.read_from(self.doc()) {
            law_message_mention_members(*self);
            lemma_required(self.id, back.id);
            lemma_optional(self.mention_type, back.mention_type);
            lemma_optional(self.name, back.name);
            lemma_optional(self.username, back.username);
            lemma_optional(self.fname, back.fname);
            lemma_message_mention_same(*back, *self);
        }
    }
}

/// The names of the members of a [`ChannelMention`], in order.
spec fn channel_mention_key(i: int) -> Seq<char> {
    if i == 0 {
        "_id"@
    } else if i == 1 {
        "name"@
    } else {
        Seq::empty()
    }
}

/// What each member of a [`ChannelMention`] is written as.
spec fn channel_mention_value(x: ChannelMention, i: int) -> Option<JsonView> {
    if i == 0 {
        Some(x.id.doc())
    } else if i == 1 {
        opt_doc(x.name)
    } else {
        None
    }
}

/// The position of a name.
spec fn channel_mention_position(s: Seq<char>) -> int {
    let t = tag(s, 0, 1, 2);
    if t == 100105095003 {
        0
    } else if t == 109097110004 {
        1
    } else {
        -1
    }
}

proof fn lemma_channel_mention_keys()
    ensures
        placed(|i: int| channel_mention_key(i), |s: Seq<char>| channel_mention_position(s), 2),
{
    let key = |i: int| channel_mention_key(i);
    let position = |s: Seq<char>| channel_mention_position(s);
    lemma_placed_none(key, position);
    assert(channel_mention_position("_id"@) == 0) by {
        reveal_strlit("_id");
        assert("_id"@.len() == 3);
        assert("_id"@[0] == '_');
        assert("_id"@[1] == 'i');
        assert("_id"@[2] == 'd');
    }
    lemma_placed_more(key, position, 0);
    assert(channel_mention_position("name"@) == 1) by {
        reveal_strlit("name");
        assert("name"@.len() == 4);
        assert("name"@[0] == 'n');
        assert("name"@[1] == 'a');
        assert("name"@[2] == 'm');
    }
    lemma_placed_more(key, position, 1);
}

/// Each member of a written [`ChannelMention`] is what its field is written as: a field that is unset has no
/// member.
pub proof fn law_channel_mention_members(x: ChannelMention)
    ensures
        slot(x.doc(), "_id"@, 0) == Some(x.id.doc()),
        slot(x.doc(), "name"@, 1) == opt_doc(x.name),
{
    lemma_channel_mention_keys();
    let key = |i: int| channel_mention_key(i);
    let value = |i: int| channel_mention_value(x, i);
    let position = |s: Seq<char>| channel_mention_position(s);
    let m0 = Map::<Seq<char>, JsonView>::empty();
    lemma_holds_none(key, value, 2);
    let m1 = with(m0, "_id"@, x.id.doc());
    lemma_with(m0, "_id"@, x.id.doc());
    lemma_holds_more(m0, key, value, position, 2, 0, m1);
    let m2 = with_some(m1, "name"@, x.name);
    lemma_with_some(m1, "name"@, x.name);
    lemma_holds_more(m1, key, value, position, 2, 1, m2);
    lemma_held(m2, key, value, 2, 0);
    lemma_held(m2, key, value, 2, 1);
    assert(x.doc() == JsonView::Object(m2));
}

/// A written [`ChannelMention`] can be read.
proof fn lemma_channel_mention_accepted(x: ChannelMention)
    requires
        x.writable(),
    ensures
        ChannelMention::accepts(x.doc()),
{
    law_channel_mention_members(x);
    lemma_required(x.id, x.id);
    lemma_optional(x.name, x.name);
}

/// Two [`ChannelMention`]s whose fields are written the same are written the same.
pub proof fn lemma_channel_mention_same(x: ChannelMention, y: ChannelMention)
    requires
        x.id.doc() == y.id.doc(),
        same_doc(x.name, y.name),
    ensures
        x.doc() == y.doc(),
{
    let m0 = Map::<Seq<char>, JsonView>::empty();
    let m1 = with(m0, "_id"@, x.id.doc());
    let m2 = with_some(m1, "name"@, x.name);
    lemma_same_some(m1, "name"@, x.name, y.name);
}

impl RoundTrip for ChannelMention {
    open spec fn writable(&self) -> bool {
        &&& self.id.writable()
        &&& opt_writable(self.name)
    }

    proof fn law_round_trip(&self, back: &ChannelMention) {
        lemma_channel_mention_accepted(*self);
        if back.read_from(self.doc()) {
            law_channel_mention_members(*self);
            lemma_required(self.id, back.id);
            lemma_optional(self.name, back.name);
            lemma_channel_mention_same(*back, *self);
        }
    }
}

/// The names of the members of a [`MessageUrl`], in order.
spec fn message_url_key(i: int) -> Seq<char> {
    if i == 0 {
        "url"@
    } else if i == 1 {
        "source"@
    } else if i == 2 {
        "meta"@
    } else if i == 3 {
        "headers"@
    } else if i == 4 {
        "ignoreParse"@
    } else if i == 5 {
        "parsedUrl"@
    } else {
        Seq::empty()
    }
}

/// What each member of a [`MessageUrl`] is written as.
spec fn message_url_value(x: MessageUrl, i: int) -> Option<JsonView> {
    if i == 0 {
        Some(x.url.doc())
    } else if i == 1 {
        opt_doc(x.source)
    } else if i == 2 {
        opt_doc(dict_member(x.meta))
    } else if i == 3 {
        opt_doc(x.headers)
    } else if i == 4 {
        opt_doc(x.ignore_parse)
    } else if i == 5 {
        opt_doc(x.parsed_url)
    } else {
        None
    }
}

/// The position of a name.
spec fn message_url_position(s: Seq<char>) -> int {
    let t = tag(s, 0, 1, 2);
    if t == 108114117003 {
        0
    } else if t == 117111115006 {
        1
    } else if t == 116101109004 {
        2
    } else if t == 97101104007 {
        3
    } else if t == 110103105011 {
        4
    } else if t == 114097112009 {
        5
    } else {
        -1
    }
}

proof fn lemma_message_url_keys()
    ensures
        placed(|i: int| message_url_key(i), |s: Seq<char>| message_url_position(s), 6),
{
    let key = |i: int| message_url_key(i);
    let position = |s: Seq<char>| message_url_position(s);
    lemma_placed_none(key, position);
    assert(message_url_position("url"@) == 0) by {
        reveal_strlit("url");
        assert("url"@.len() == 3);
        assert("url"@[0] == 'u');
        assert("url"@[1] == 'r');
        assert("url"@[2] == 'l');
    }
    lemma_placed_more(key, position, 0);
    assert(message_url_position("source"@) == 1) by {
        reveal_strlit("source");
        assert("source"@.len() == 6);
        assert("source"@[0] == 's');
        assert("source"@[1] == 'o');
        assert("source"@[2] == 'u');
    }
    lemma_placed_more(key, position, 1);
    assert(message_url_position("meta"@) == 2) by {
        reveal_strlit("meta");
        assert("meta"@.len() == 4);
        assert("meta"@[0] == 'm');
        assert("meta"@[1] == 'e');
        assert("meta"@[2] == 't');
    }
    lemma_placed_more(key, position, 2);
    assert(message_url_position("headers"@) == 3) by {
        reveal_strlit("headers");
        assert("headers"@.len() == 7);
        assert("headers"@[0] == 'h');
        assert("headers"@[1] == 'e');
        assert("headers"@[2] == 'a');
    }
    lemma_placed_more(key, position, 3);
    assert(message_url_position("ignoreParse"@) == 4) by {
        reveal_strlit("ignoreParse");
        assert("ignoreParse"@.len() == 11);
        assert("ignoreParse"@[0] == 'i');
        assert("ignoreParse"@[1] == 'g');
        assert("ignoreParse"@[2] == 'n');
    }
    lemma_placed_more(key, position, 4);
    assert(message_url_position("parsedUrl"@) == 5) by {
        reveal_strlit("parsedUrl");
        assert("parsedUrl"@.len() == 9);
        assert("parsedUrl"@[0] == 'p');
        assert("parsedUrl"@[1] == 'a');
        assert("parsedUrl"@[2] == 'r');
    }
    lemma_placed_more(key, position, 5);
}

/// Each member of a written [`MessageUrl`] is what its field is written as: a field that is unset has no
/// member.
pub proof fn law_message_url_members(x: MessageUrl)
    ensures
        slot(x.doc(), "url"@, 0) == Some(x.url.doc()),
        slot(x.doc(), "source"@, 1) == opt_doc(x.source),
        slot(x.doc(), "meta"@, 2) == opt_doc(dict_member(x.meta)),
        slot(x.doc(), "headers"@, 3) == opt_doc(x.headers),
        slot(x.doc(), "ignoreParse"@, 4) == opt_doc(x.ignore_parse),
        slot(x.doc(), "parsedUrl"@, 5) == opt_doc(x.parsed_url),
{
    reveal(with);
    reveal(with_some);
    lemma_message_url_keys();
    let key = |i: int| message_url_key(i);
    let value = |i: int| message_url_value(x, i);
    let position = |s: Seq<char>| message_url_position(s);
    let m0 = Map::<Seq<char>, JsonView>::empty();
    lemma_holds_none(key, value, 6);
    let m1 = with(m0, "url"@, x.url.doc());
    lemma_with(m0, "url"@, x.url.doc());
    lemma_holds_more(m0, key, value, position, 6, 0, m1);
    let m2 = with_some(m1, "source"@, x.source);
    lemma_with_some(m1, "source"@, x.source);
    lemma_holds_more(m1, key, value, position, 6, 1, m2);
    let m3 = with_some(m2, "meta"@, dict_member(x.meta));
    lemma_with_some(m2, "meta"@, dict_member(x.meta));
    lemma_holds_more(m2, key, value, position, 6, 2, m3);
    let m4 = with_some(m3, "headers"@, x.headers);
    lemma_with_some(m3, "headers"@, x.headers);
    lemma_holds_more(m3, key, value, position, 6, 3, m4);
    let m5 = with_some(m4, "ignoreParse"@, x.ignore_parse);
    lemma_with_some(m4, "ignoreParse"@, x.ignore_parse);
    lemma_holds_more(m4, key, value, position, 6, 4, m5);
    let m6 = with_some(m5, "parsedUrl"@, x.parsed_url);
    lemma_with_some(m5, "parsedUrl"@, x.parsed_url);
    lemma_holds_more(m5, key, value, position, 6, 5, m6);
    lemma_held(m6, key, value, 6, 0);
    lemma_held(m6, key, value, 6, 1);
    lemma_held(m6, key, value, 6, 2);
    lemma_held(m6, key, value, 6, 3);
    lemma_held(m6, key, value, 6, 4);
    lemma_held(m6, key, value, 6, 5);
    assert(x.doc() == JsonView::Object(m6));
}

/// A written [`MessageUrl`] can be read.
proof fn lemma_message_url_accepted(x: MessageUrl)
    requires
        x.writable(),
    ensures
        MessageUrl::accepts(x.doc()),
{
    law_message_url_members(x);
    lemma_required(x.url, x.url);
    lemma_optional(x.source, x.source);
    lemma_dict(x.meta, x.meta);
    lemma_optional(x.headers, x.headers);
    lemma_optional(x.ignore_parse, x.ignore_parse);
    lemma_optional(x.parsed_url, x.parsed_url);
}

/// Two [`MessageUrl`]s whose fields are written the same are written the same.
pub proof fn lemma_message_url_same(x: MessageUrl, y: MessageUrl)
    requires
        x.url.doc() == y.url.doc(),
        same_doc(x.source, y.source),
        same_doc(dict_member(x.meta), dict_member(y.meta)),
        same_doc(x.headers, y.headers),
        same_doc(x.ignore_parse, y.ignore_parse),
        same_doc(x.parsed_url, y.parsed_url),
    ensures
        x.doc() == y.doc(),
{
    reveal(with);
    reveal(with_some);
    let m0 = Map::<Seq<char>, JsonView>::empty();
    let m1 = with(m0, "url"@, x.url.doc());
    let m2 = with_some(m1, "source"@, x.source);
    lemma_same_some(m1, "source"@, x.source, y.source);
    let m3 = with_some(m2, "meta"@, dict_member(x.meta));
    lemma_same_some(m2, "meta"@, dict_member(x.meta), dict_member(y.meta));
    let m4 = with_some(m3, "headers"@, x.headers);
    lemma_same_some(m3, "headers"@, x.headers, y.headers);
    let m5 = with_some(m4, "ignoreParse"@, x.ignore_parse);
    lemma_same_some(m4, "ignoreParse"@, x.ignore_parse, y.ignore_parse);
    let m6 = with_some(m5, "parsedUrl"@, x.parsed_url);
    lemma_same_some(m5, "parsedUrl"@, x.parsed_url, y.parsed_url);
}

impl RoundTrip for MessageUrl {
    open spec fn writable(&self) -> bool {
        &&& self.url.writable()
        &&& opt_writable(self.source)
        &&& self.meta.writable()
        &&& opt_writable(self.headers)
        &&& opt_writable(self.ignore_parse)
        &&& opt_writable(self.parsed_url)
    }

    proof fn law_round_trip(&self, back: &MessageUrl) {
        lemma_message_url_accepted(*self);
        if back.read_from(self.doc()) {
            law_message_url_members(*self);
            lemma_required(self.url, back.url);
            lemma_optional(self.source, back.source);
            lemma_dict(self.meta, back.meta);
            lemma_optional(self.headers, back.headers);
            lemma_optional(self.ignore_parse, back.ignore_parse);
            lemma_optional(self.parsed_url, back.parsed_url);
            lemma_message_url_same(*back, *self);
        }
    }
}

/// The names of the members of a [`UrlHeaders`], in order.
spec fn url_headers_key(i: int) -> Seq<char> {
    if i == 0 {
        "contentLength"@
    } else if i == 1 {
        "contentType"@
    } else {
        Seq::empty()
    }
}

/// What each member of a [`UrlHeaders`] is written as.
spec fn url_headers_value(x: UrlHeaders, i: int) -> Option<JsonView> {
    if i == 0 {
        opt_doc(x.content_length)
    } else if i == 1 {
        opt_doc(x.content_type)
    } else {
        None
    }
}

/// The position of a name.
spec fn url_headers_position(s: Seq<char>) -> int {
    let t = tag(s, 0, 1, 2);
    if t == 110111099013 {
        0
    } else if t == 110111099011 {
        1
    } else {
        -1
    }
}

proof fn lemma_url_headers_keys()
    ensures
        placed(|i: int| url_headers_key(i), |s: Seq<char>| url_headers_position(s), 2),
{
    let key = |i: int| url_headers_key(i);
    let position = |s: Seq<char>| url_headers_position(s);
    lemma_placed_none(key, position);
    assert(url_headers_position("contentLength"@) == 0) by {
        reveal_strlit("contentLength");
        assert("contentLength"@.len() == 13);
        assert("contentLength"@[0] == 'c');
        assert("contentLength"@[1] == 'o');
        assert("contentLength"@[2] == 'n');
    }
    lemma_placed_more(key, position, 0);
    assert(url_headers_position("contentType"@) == 1) by {
        reveal_strlit("contentType");
        assert("contentType"@.len() == 11);
        assert("contentType"@[0] == 'c');
        assert("contentType"@[1] == 'o');
        assert("contentType"@[2] == 'n');
    }
    lemma_placed_more(key, position, 1);
}

/// Each member of a written [`UrlHeaders`] is what its field is written as: a field that is unset has no
/// member.
pub proof fn law_url_headers_members(x: UrlHeaders)
    ensures
        slot(x.doc(), "contentLength"@, 0) == opt_doc(x.content_length),
        slot(x.doc(), "contentType"@, 1) == opt_doc(x.content_type),
{
    lemma_url_headers_keys();
    let key = |i: int| url_headers_key(i);
    let value = |i: int| url_headers_value(x, i);
    let position = |s: Seq<char>| url_headers_position(s);
    let m0 = Map::<Seq<char>, JsonView>::empty();
    lemma_holds_none(key, value, 2);
    let m1 = with_some(m0, "contentLength"@, x.content_length);
    lemma_with_some(m0, "contentLength"@, x.content_length);
    lemma_holds_more(m0, key, value, position, 2, 0, m1);
    let m2 = with_some(m1, "contentType"@, x.content_type);
    lemma_with_some(m1, "contentType"@, x.content_type);
    lemma_holds_more(m1, key, value, position, 2, 1, m2);
    lemma_held(m2, key, value, 2, 0);
    lemma_held(m2, key, value, 2, 1);
    assert(x.doc() == JsonView::Object(m2));
}

/// A written [`UrlHeaders`] can be read.
proof fn lemma_url_headers_accepted(x: UrlHeaders)
    requires
        x.writable(),
    ensures
        UrlHeaders::accepts(x.doc()),
{
    law_url_headers_members(x);
    lemma_optional(x.content_length, x.content_length);
    lemma_optional(x.content_type, x.content_type);
}

/// Two [`UrlHeaders`]s whose fields are written the same are written the same.
pub proof fn lemma_url_headers_same(x: UrlHeaders, y: UrlHeaders)
    requires
        same_doc(x.content_length, y.content_length),
        same_doc(x.content_type, y.content_type),
    ensures
        x.doc() == y.doc(),
{
    let m0 = Map::<Seq<char>, JsonView>::empty();
    let m1 = with_some(m0, "contentLength"@, x.content_length);
    lemma_same_some(m0, "contentLength"@, x.content_length, y.content_length);
    let m2 = with_some(m1, "contentType"@, x.content_type);
    lemma_same_some(m1, "contentType"@, x.content_type, y.content_type);
}

impl RoundTrip for UrlHeaders {
    open spec fn writable(&self) -> bool {
        &&& opt_writable(self.content_length)
        &&& opt_writable(self.content_type)
    }

    proof fn law_round_trip(&self, back: &UrlHeaders) {
        lemma_url_headers_accepted(*self);
        if back.read_from(self.doc()) {
            law_url_headers_members(*self);
            lemma_optional(self.content_length, back.content_length);
            lemma_optional(self.content_type, back.content_type);
            lemma_url_headers_same(*back, *self);
        }
    }
}

/// The names of the members of a [`Reaction`], in order.
spec fn reaction_key(i: int) -> Seq<char> {
    if i == 0 {
        "usernames"@
    } else if i == 1 {
        "names"@
    } else if i == 2 {
        "federationReactionEventIds"@
    } else {
        Seq::empty()
    }
}

/// What each member of a [`Reaction`] is written as.
spec fn reaction_value(x: Reaction, i: int) -> Option<JsonView> {
    if i == 0 {
        Some(x.usernames.doc())
    } else if i == 1 {
        opt_doc(x.names)
    } else if i == 2 {
        opt_doc(x.federation_reaction_event_ids)
    } else {
        None
    }
}

/// The position of a name.
spec fn reaction_position(s: Seq<char>) -> int {
    let t = tag(s, 0, 1, 2);
    if t == 101115117009 {
        0
    } else if t == 109097110005 {
        1
    } else if t == 100101102026 {
        2
    } else {
        -1
    }
}

proof fn lemma_reaction_keys()
    ensures
        placed(|i: int| reaction_key(i), |s: Seq<char>| reaction_position(s), 3),
{
    let key = |i: int| reaction_key(i);
    let position = |s: Seq<char>| reaction_position(s);
    lemma_placed_none(key, position);
    assert(reaction_position("usernames"@) == 0) by {
        reveal_strlit("usernames");
        assert("usernames"@.len() == 9);
        assert("usernames"@[0] == 'u');
        assert("usernames"@[1] == 's');
        assert("usernames"@[2] == 'e');
    }
    lemma_placed_more(key, position, 0);
    assert(reaction_position("names"@) == 1) by {
        reveal_strlit("names");
        assert("names"@.len() == 5);
        assert("names"@[0] == 'n');
        assert("names"@[1] == 'a');
        assert("names"@[2] == 'm');
    }
    lemma_placed_more(key, position, 1);
    assert(reaction_position("federationReactionEventIds"@) == 2) by {
        reveal_strlit("federationReactionEventIds");
        assert("federationReactionEventIds"@.len() == 26);
        assert("federationReactionEventIds"@[0] == 'f');
        assert("federationReactionEventIds"@[1] == 'e');
        assert("federationReactionEventIds"@[2] == 'd');
    }
    lemma_placed_more(key, position, 2);
}

/// Each member of a written [`Reaction`] is what its field is written as: a field that is unset has no
/// member.
pub proof fn law_reaction_members(x: Reaction)
    ensures
        slot(x.doc(), "usernames"@, 0) == Some(x.usernames.doc()),
        slot(x.doc(), "names"@, 1) == opt_doc(x.names),
        slot(x.doc(), "federationReactionEventIds"@, 2) == opt_doc(x.federation_reaction_event_ids),
{
    lemma_reaction_keys();
    let key = |i: int| reaction_key(i);
    let value = |i: int| reaction_value(x, i);
    let position = |s: Seq<char>| reaction_position(s);
    let m0 = Map::<Seq<char>, JsonView>::empty();
    lemma_holds_none(key, value, 3);
    let m1 = with(m0, "usernames"@, x.usernames.doc());
    lemma_with(m0, "usernames"@, x.usernames.doc());
    lemma_holds_more(m0, key, value, position, 3, 0, m1);
    let m2 = with_some(m1, "names"@, x.names);
    lemma_with_some(m1, "names"@, x.names);
    lemma_holds_more(m1, key, value, position, 3, 1, m2);
    let m3 = with_some(m2, "federationReactionEventIds"@, x.federation_reaction_event_ids);
    lemma_with_some(m2, "federationReactionEventIds"@, x.federation_reaction_event_ids);
    lemma_holds_more(m2, key, value, position, 3, 2, m3);
    lemma_held(m3, key, value, 3, 0);
    lemma_held(m3, key, value, 3, 1);
    lemma_held(m3, key, value, 3, 2);
    assert(x.doc() == JsonView::Object(m3));
}

/// A written [`Reaction`] can be read.
proof fn lemma_reaction_accepted(x: Reaction)
    requires
        x.writable(),
    ensures
        Reaction::accepts(x.doc()),
{
    law_reaction_members(x);
    lemma_required(x.usernames, x.usernames);
    lemma_optional(x.names, x.names);
    lemma_optional(x.federation_reaction_event_ids, x.federation_reaction_event_ids);
}

/// Two [`Reaction`]s whose fields are written the same are written the same.
pub proof fn lemma_reaction_same(x: Reaction, y: Reaction)
    requires
        x.usernames.doc() == y.usernames.doc(),
        same_doc(x.names, y.names),
        same_doc(x.federation_reaction_event_ids, y.federation_reaction_event_ids),
    ensures
        x.doc() == y.doc(),
{
    let m0 = Map::<Seq<char>, JsonView>::empty();
    let m1 = with(m0, "usernames"@, x.usernames.doc());
    let m2 = with_some(m1, "names"@, x.names);
    lemma_same_some(m1, "names"@, x.names, y.names);
    let m3 = with_some(m2, "federationReactionEventIds"@, x.federation_reaction_event_ids);
    lemma_same_some(m2, "federationReactionEventIds"@, x.federation_reaction_event_ids, y.federation_reaction_event_ids);
}

impl RoundTrip for Reaction {
    open spec fn writable(&self) -> bool {
        &&& self.usernames.writable()
        &&& opt_writable(self.names)
        &&& opt_writable(self.federation_reaction_event_ids)
    }

    proof fn law_round_trip(&self, back: &Reaction) {
        lemma_reaction_accepted(*self);
        if back.read_from(self.doc()) {
            law_reaction_members(*self);
            lemma_required(self.usernames, back.usernames);
            lemma_optional(self.names, back.names);
            lemma_optional(self.federation_reaction_event_ids, back.federation_reaction_event_ids);
            lemma_reaction_same(*back, *self);
        }
    }
}

/// The names of the members of a [`Star`], in order.
spec fn star_key(i: int) -> Seq<char> {
    if i == 0 {
        "_id"@
    } else {
        Seq::empty()
    }
}

/// What each member of a [`Star`] is written as.
spec fn star_value(x: Star, i: int) -> Option<JsonView> {
    if i == 0 {
        Some(x.user_id.doc())
    } else {
        None
    }
}

/// The position of a name.
spec fn star_position(s: Seq<char>) -> int {
    let t = tag(s, 0, 1, 2);
    if t == 100105095003 {
        0
    } else {
        -1
    }
}

proof fn lemma_star_keys()
    ensures
        placed(|i: int| star_key(i), |s: Seq<char>| star_position(s), 1),
{
    let key = |i: int| star_key(i);
    let position = |s: Seq<char>| star_position(s);
    lemma_placed_none(key, position);
    assert(star_position("_id"@) == 0) by {
        reveal_strlit("_id");
        assert("_id"@.len() == 3);
        assert("_id"@[0] == '_');
        assert("_id"@[1] == 'i');
        assert("_id"@[2] == 'd');
    }
    lemma_placed_more(key, position, 0);
}

/// Each member of a written [`Star`] is what its field is written as: a field that is unset has no
/// member.
pub proof fn law_star_members(x: Star)
    ensures
        slot(x.doc(), "_id"@, 0) == Some(x.user_id.doc()),
{
    lemma_star_keys();
    let key = |i: int| star_key(i);
    let value = |i: int| star_value(x, i);
    let position = |s: Seq<char>| star_position(s);
    let m0 = Map::<Seq<char>, JsonView>::empty();
    lemma_holds_none(key, value, 1);
    let m1 = with(m0, "_id"@, x.user_id.doc());
    lemma_with(m0, "_id"@, x.user_id.doc());
    lemma_holds_more(m0, key, value, position, 1, 0, m1);
    lemma_held(m1, key, value, 1, 0);
    assert(x.doc() == JsonView::Object(m1));
}

/// A written [`Star`] can be read.
proof fn lemma_star_accepted(x: Star)
    requires
        x.writable(),
    ensures
        Star::accepts(x.doc()),
{
    law_star_members(x);
    lemma_required(x.user_id, x.user_id);
}

/// Two [`Star`]s whose fields are written the same are written the same.
pub proof fn lemma_star_same(x: Star, y: Star)
    requires
        x.user_id.doc() == y.user_id.doc(),
    ensures
        x.doc() == y.doc(),
{
    let m0 = Map::<Seq<char>, JsonView>::empty();
    let m1 = with(m0, "_id"@, x.user_id.doc());
}

impl RoundTrip for Star {
    open spec fn writable(&self) -> bool {
        &&& self.user_id.writable()
    }

    proof fn law_round_trip(&self, back: &Star) {
        lemma_star_accepted(*self);
        if back.read_from(self.doc()) {
            law_star_members(*self);
            lemma_required(self.user_id, back.user_id);
            lemma_star_same(*back, *self);
        }
    }
}

/// The names of the members of a [`MessageFile`], in order.
spec fn message_file_key(i: int) -> Seq<char> {
    if i == 0 {
        "_id"@
    } else if i == 1 {
        "name"@
    } else if i == 2 {
        "type"@
    } else if i == 3 {
        "format"@
    } else if i == 4 {
        "size"@
    } else if i == 5 {
        "typeGroup"@
    } else {
        Seq::empty()
    }
}

/// What each member of a [`MessageFile`] is written as.
spec fn message_file_value(x: MessageFile, i: int) -> Option<JsonView> {
    if i == 0 {
        Some(x.id.doc())
    } else if i == 1 {
        opt_doc(x.name)
    } else if i == 2 {
        opt_doc(x.content_type)
    } else if i == 3 {
        opt_doc(x.format)
    } else if i == 4 {
        opt_doc(x.size)
    } else if i == 5 {
        opt_doc(x.type_group)
    } else {
        None
    }
}

/// The position of a name.
spec fn message_file_position(s: Seq<char>) -> int {
    let t = tag(s, 0, 1, 2);
    if t == 100105095003 {
        0
    } else if t == 109097110004 {
        1
    } else if t == 112121116004 {
        2
    } else if t == 114111102006 {
        3
    } else if t == 122105115004 {
        4
    } else if t == 112121116009 {
        5
    } else {
        -1
    }
}

proof fn lemma_message_file_keys()
    ensures
        placed(|i: int| message_file_key(i), |s: Seq<char>| message_file_position(s), 6),
{
    let key = |i: int| message_file_key(i);
    let position = |s: Seq<char>| message_file_position(s);
    lemma_placed_none(key, position);
    assert(message_file_position("_id"@) == 0) by {
        reveal_strlit("_id");
        assert("_id"@.len() == 3);
        assert("_id"@[0] == '_');
        assert("_id"@[1] == 'i');
        assert("_id"@[2] == 'd');
    }
    lemma_placed_more(key, position, 0);
    assert(message_file_position("name"@) == 1) by {
        reveal_strlit("name");
        assert("name"@.len() == 4);
        assert("name"@[0] == 'n');
        assert("name"@[1] == 'a');
        assert("name"@[2] == 'm');
    }
    lemma_placed_more(key, position, 1);
    assert(message_file_position("type"@) == 2) by {
        reveal_strlit("type");
        assert("type"@.len() == 4);
        assert("type"@[0] == 't');
        assert("type"@[1] == 'y');
        assert("type"@[2] == 'p');
    }
    lemma_placed_more(key, position, 2);
    assert(message_file_position("format"@) == 3) by {
        reveal_strlit("format");
        assert("format"@.len() == 6);
        assert("format"@[0] == 'f');
        assert("format"@[1] == 'o');
        assert("format"@[2] == 'r');
    }
    lemma_placed_more(key, position, 3);
    assert(message_file_position("size"@) == 4) by {
        reveal_strlit("size");
        assert("size"@.len() == 4);
        assert("size"@[0] == 's');
        assert("size"@[1] == 'i');
        assert("size"@[2] == 'z');
    }
    lemma_placed_more(key, position, 4);
    assert(message_file_position("typeGroup"@) == 5) by {
        reveal_strlit("typeGroup");
        assert("typeGroup"@.len() == 9);
        assert("typeGroup"@[0] == 't');
        assert("typeGroup"@[1] == 'y');
        assert("typeGroup"@[2] == 'p');
    }
    lemma_placed_more(key, position, 5);
}

/// Each member of a written [`MessageFile`] is what its field is written as: a field that is unset has no
/// member.
pub proof fn law_message_file_members(x: MessageFile)
    ensures
        slot(x.doc(), "_id"@, 0) == Some(x.id.doc()),
        slot(x.doc(), "name"@, 1) == opt_doc(x.name),
        slot(x.doc(), "type"@, 2) == opt_doc(x.content_type),
        slot(x.doc(), "format"@, 3) == opt_doc(x.format),
        slot(x.doc(), "size"@, 4) == opt_doc(x.size),
        slot(x.doc(), "typeGroup"@, 5) == opt_doc(x.type_group),
{
    lemma_message_file_keys();
    let key = |i: int| message_file_key(i);
    let value = |i: int| message_file_value(x, i);
    let position = |s: Seq<char>| message_file_position(s);
    let m0 = Map::<Seq<char>, JsonView>::empty();
    lemma_holds_none(key, value, 6);
    let m1 = with(m0, "_id"@, x.id.doc());
    lemma_with(m0, "_id"@, x.id.doc());
    lemma_holds_more(m0, key, value, position, 6, 0, m1);
    let m2 = with_some(m1, "name"@, x.name);
    lemma_with_some(m1, "name"@, x.name);
    lemma_holds_more(m1, key, value, position, 6, 1, m2);
    let m3 = with_some(m2, "type"@, x.content_type);
    lemma_with_some(m2, "type"@, x.content_type);
    lemma_holds_more(m2, key, value, position, 6, 2, m3);
    let m4 = with_some(m3, "format"@, x.format);
    lemma_with_some(m3, "format"@, x.format);
    lemma_holds_more(m3, key, value, position, 6, 3, m4);
    let m5 = with_some(m4, "size"@, x.size);
    lemma_with_some(m4, "size"@, x.size);
    lemma_holds_more(m4, key, value, position, 6, 4, m5);
    let m6 = with_some(m5, "typeGroup"@, x.type_group);
    lemma_with_some(m5, "typeGroup"@, x.type_group);
    lemma_holds_more(m5, key, value, position, 6, 5, m6);
    lemma_held(m6, key, value, 6, 0);
    lemma_held(m6, key, value, 6, 1);
    lemma_held(m6, key, value, 6, 2);
    lemma_held(m6, key, value, 6, 3);
    lemma_held(m6, key, value, 6, 4);
    lemma_held(m6, key, value, 6, 5);
    assert(x.doc() == JsonView::Object(m6));
}

/// A written [`MessageFile`] can be read.
proof fn lemma_message_file_accepted(x: MessageFile)
    requires
        x.writable(),
    ensures
        MessageFile::accepts(x.doc()),
{
    law_message_file_members(x);
    lemma_required(x.id, x.id);
    lemma_optional(x.name, x.name);
    lemma_optional(x.content_type, x.content_type);
    lemma_optional(x.format, x.format);
    lemma_optional(x.size, x.size);
    lemma_optional(x.type_group, x.type_group);
}

/// Two [`MessageFile`]s whose fields are written the same are written the same.
pub proof fn lemma_message_file_same(x: MessageFile, y: MessageFile)
    requires
        x.id.doc() == y.id.doc(),
        same_doc(x.name, y.name),
        same_doc(x.content_type, y.content_type),
        same_doc(x.format, y.format),
        same_doc(x.size, y.size),
        same_doc(x.type_group, y.type_group),
    ensures
        x.doc() == y.doc(),
{
    let m0 = Map::<Seq<char>, JsonView>::empty();
    let m1 = with(m0, "_id"@, x.id.doc());
    let m2 = with_some(m1, "name"@, x.name);
    lemma_same_some(m1, "name"@, x.name, y.name);
    let m3 = with_some(m2, "type"@, x.content_type);
    lemma_same_some(m2, "type"@, x.content_type, y.content_type);
    let m4 = with_some(m3, "format"@, x.format);
    lemma_same_some(m3, "format"@, x.format, y.format);
    let m5 = with_some(m4, "size"@, x.size);
    lemma_same_some(m4, "size"@, x.size, y.size);
    let m6 = with_some(m5, "typeGroup"@, x.type_group);
    lemma_same_some(m5, "typeGroup"@, x.type_group, y.type_group);
}

impl RoundTrip for MessageFile {
    open spec fn writable(&self) -> bool {
        &&& self.id.writable()
        &&& opt_writable(self.name)
        &&& opt_writable(self.content_type)
        &&& opt_writable(self.format)
        &&& opt_writable(self.size)
        &&& opt_writable(self.type_group)
    }

    proof fn law_round_trip(&self, back: &MessageFile) {
        lemma_message_file_accepted(*self);
        if back.read_from(self.doc()) {
            law_message_file_members(*self);
            lemma_required(self.id, back.id);
            lemma_optional(self.name, back.name);
            lemma_optional(self.content_type, back.content_type);
            lemma_optional(self.format, back.format);
            lemma_optional(self.size, back.size);
            lemma_optional(self.type_group, back.type_group);
            lemma_message_file_same(*back, *self);
        }
    }
}

/// The names of the members of a [`AnnouncementDetails`], in order.
spec fn announcement_details_key(i: int) -> Seq<char> {
    if i == 0 {
        "style"@
    } else {
        Seq::empty()
    }
}

/// What each member of a [`AnnouncementDetails`] is written as.
spec fn announcement_details_value(x: AnnouncementDetails, i: int) -> Option<JsonView> {
    if i == 0 {
        opt_doc(x.style)
    } else {
        None
    }
}

/// The position of a name.
spec fn announcement_details_position(s: Seq<char>) -> int {
    let t = tag(s, 0, 1, 2);
    if t == 121116115005 {
        0
    } else {
        -1
    }
}

proof fn lemma_announcement_details_keys()
    ensures
        placed(|i: int| announcement_details_key(i), |s: Seq<char>| announcement_details_position(s), 1),
{
    let key = |i: int| announcement_details_key(i);
    let position = |s: Seq<char>| announcement_details_position(s);
    lemma_placed_none(key, position);
    assert(announcement_details_position("style"@) == 0) by {
        reveal_strlit("style");
        assert("style"@.len() == 5);
        assert("style"@[0] == 's');
        assert("style"@[1] == 't');
        assert("style"@[2] == 'y');
    }
    lemma_placed_more(key, position, 0);
}

/// Each member of a written [`AnnouncementDetails`] is what its field is written as: a field that is unset has no
/// member.
pub proof fn law_announcement_details_members(x: AnnouncementDetails)
    ensures
        slot(x.doc(), "style"@, 0) == opt_doc(x.style),
{
    lemma_announcement_details_keys();
    let key = |i: int| announcement_details_key(i);
    let value = |i: int| announcement_details_value(x, i);
    let position = |s: Seq<char>| announcement_details_position(s);
    let m0 = Map::<Seq<char>, JsonView>::empty();
    lemma_holds_none(key, value, 1);
    let m1 = with_some(m0, "style"@, x.style);
    lemma_with_some(m0, "style"@, x.style);
    lemma_holds_more(m0, key, value, position, 1, 0, m1);
    lemma_held(m1, key, value, 1, 0);
    assert(x.doc() == JsonView::Object(m1));
}

/// A written [`AnnouncementDetails`] can be read.
proof fn lemma_announcement_details_accepted(x: AnnouncementDetails)
    requires
        x.writable(),
    ensures
        AnnouncementDetails::accepts(x.doc()),
{
    law_announcement_details_members(x);
    lemma_optional(x.style, x.style);
}

/// Two [`AnnouncementDetails`]s whose fields are written the same are written the same.
pub proof fn lemma_announcement_details_same(x: AnnouncementDetails, y: AnnouncementDetails)
    requires
        same_doc(x.style, y.style),
    ensures
        x.doc() == y.doc(),
{
    let m0 = Map::<Seq<char>, JsonView>::empty();
    let m1 = with_some(m0, "style"@, x.style);
    lemma_same_some(m0, "style"@, x.style, y.style);
}

impl RoundTrip for AnnouncementDetails {
    open spec fn writable(&self) -> bool {
        &&& opt_writable(self.style)
    }

    proof fn law_round_trip(&self, back: &AnnouncementDetails) {
        lemma_announcement_details_accepted(*self);
        if back.read_from(self.doc()) {
            law_announcement_details_members(*self);
            lemma_optional(self.style, back.style);
            lemma_announcement_details_same(*back, *self);
        }
    }
}

/// The names of the members of a [`OldRoomKey`], in order.
spec fn old_room_key_key(i: int) -> Seq<char> {
    if i == 0 {
        "e2eKeyId"@
    } else if i == 1 {
        "ts"@
    } else if i == 2 {
        "E2EKey"@
    } else {
        Seq::empty()
    }
}

/// What each member of a [`OldRoomKey`] is written as.
spec fn old_room_key_value(x: OldRoomKey, i: int) -> Option<JsonView> {
    if i == 0 {
        opt_doc(x.e2e_key_id)
    } else if i == 1 {
        opt_doc(x.ts)
    } else if i == 2 {
        opt_doc(x.e2e_key)
    } else {
        None
    }
}

/// The position of a name.
spec fn old_room_key_position(s: Seq<char>) -> int {
    let t = tag(s, 0, 1, 2);
    if t == 101050101008 {
        0
    } else if t == 115116002 {
        1
    } else if t == 69050069006 {
        2
    } else {
        -1
    }
}

proof fn lemma_old_room_key_keys()
    ensures
        placed(|i: int| old_room_key_key(i), |s: Seq<char>| old_room_key_position(s), 3),
{
    let key = |i: int| old_room_key_key(i);
    let position = |s: Seq<char>| old_room_key_position(s);
    lemma_placed_none(key, position);
    assert(old_room_key_position("e2eKeyId"@) == 0) by {
        reveal_strlit("e2eKeyId");
        assert("e2eKeyId"@.len() == 8);
        assert("e2eKeyId"@[0] == 'e');
        assert("e2eKeyId"@[1] == '2');
        assert("e2eKeyId"@[2] == 'e');
    }
    lemma_placed_more(key, position, 0);
    assert(old_room_key_position("ts"@) == 1) by {
        reveal_strlit("ts");
        assert("ts"@.len() == 2);
        assert("ts"@[0] == 't');
        assert("ts"@[1] == 's');
    }
    lemma_placed_more(key, position, 1);
    assert(old_room_key_position("E2EKey"@) == 2) by {
        reveal_strlit("E2EKey");
        assert("E2EKey"@.len() == 6);
        assert("E2EKey"@[0] == 'E');
        assert("E2EKey"@[1] == '2');
        assert("E2EKey"@[2] == 'E');
    }
    lemma_placed_more(key, position, 2);
}

/// Each member of a written [`OldRoomKey`] is what its field is written as: a field that is unset has no
/// member.
pub proof fn law_old_room_key_members(x: OldRoomKey)
    ensures
        slot(x.doc(), "e2eKeyId"@, 0) == opt_doc(x.e2e_key_id),
        slot(x.doc(), "ts"@, 1) == opt_doc(x.ts),
        slot(x.doc(), "E2EKey"@, 2) == opt_doc(x.e2e_key),
{
    lemma_old_room_key_keys();
    let key = |i: int| old_room_key_key(i);
    let value = |i: int| old_room_key_value(x, i);
    let position = |s: Seq<char>| old_room_key_position(s);
    let m0 = Map::<Seq<char>, JsonView>::empty();
    lemma_holds_none(key, value, 3);
    let m1 = with_some(m0, "e2eKeyId"@, x.e2e_key_id);
    lemma_with_some(m0, "e2eKeyId"@, x.e2e_key_id);
    lemma_holds_more(m0, key, value, position, 3, 0, m1);
    let m2 = with_some(m1, "ts"@, x.ts);
    lemma_with_some(m1, "ts"@, x.ts);
    lemma_holds_more(m1, key, value, position, 3, 1, m2);
    let m3 = with_some(m2, "E2EKey"@, x.e2e_key);
    lemma_with_some(m2, "E2EKey"@, x.e2e_key);
    lemma_holds_more(m2, key, value, position, 3, 2, m3);
    lemma_held(m3, key, value, 3, 0);
    lemma_held(m3, key, value, 3, 1);
    lemma_held(m3, key, value, 3, 2);
    assert(x.doc() == JsonView::Object(m3));
}

/// A written [`OldRoomKey`] can be read.
proof fn lemma_old_room_key_accepted(x: OldRoomKey)
    requires
        x.writable(),
    ensures
        OldRoomKey::accepts(x.doc()),
{
    law_old_room_key_members(x);
    lemma_optional(x.e2e_key_id, x.e2e_key_id);
    lemma_date(x.ts, x.ts);
    lemma_optional(x.e2e_key, x.e2e_key);
}

/// Two [`OldRoomKey`]s whose fields are written the same are written the same.
pub proof fn lemma_old_room_key_same(x: OldRoomKey, y: OldRoomKey)
    requires
        same_doc(x.e2e_key_id, y.e2e_key_id),
        same_doc(x.ts, y.ts),
        same_doc(x.e2e_key, y.e2e_key),
    ensures
        x.doc() == y.doc(),
{
    let m0 = Map::<Seq<char>, JsonView>::empty();
    let m1 = with_some(m0, "e2eKeyId"@, x.e2e_key_id);
    lemma_same_some(m0, "e2eKeyId"@, x.e2e_key_id, y.e2e_key_id);
    let m2 = with_some(m1, "ts"@, x.ts);
    lemma_same_some(m1, "ts"@, x.ts, y.ts);
    let m3 = with_some(m2, "E2EKey"@, x.e2e_key);
    lemma_same_some(m2, "E2EKey"@, x.e2e_key, y.e2e_key);
}

impl RoundTrip for OldRoomKey {
    open spec fn writable(&self) -> bool {
        &&& opt_writable(self.e2e_key_id)
        &&& opt_writable(self.ts)
        &&& opt_writable(self.e2e_key)
    }

    proof fn law_round_trip(&self, back: &OldRoomKey) {
        lemma_old_room_key_accepted(*self);
        if back.read_from(self.doc()) {
            law_old_room_key_members(*self);
            lemma_optional(self.e2e_key_id, back.e2e_key_id);
            lemma_date(self.ts, back.ts);
            lemma_optional(self.e2e_key, back.e2e_key);
            lemma_old_room_key_same(*back, *self);
        }
    }
}

/// The names of the members of a [`UserEmail`], in order.
spec fn user_email_key(i: int) -> Seq<char> {
    if i == 0 {
        "address"@
    } else if i == 1 {
        "verified"@
    } else {
        Seq::empty()
    }
}

/// What each member of a [`UserEmail`] is written as.
spec fn user_email_value(x: UserEmail, i: int) -> Option<JsonView> {
    if i == 0 {
        Some(x.address.doc())
    } else if i == 1 {
        opt_doc(x.verified)
    } else {
        None
    }
}

/// The position of a name.
spec fn user_email_position(s: Seq<char>) -> int {
    let t = tag(s, 0, 1, 2);
    if t == 100100097007 {
        0
    } else if t == 114101118008 {
        1
    } else {
        -1
    }
}

proof fn lemma_user_email_keys()
    ensures
        placed(|i: int| user_email_key(i), |s: Seq<char>| user_email_position(s), 2),
{
    let key = |i: int| user_email_key(i);
    let position = |s: Seq<char>| user_email_position(s);
    lemma_placed_none(key, position);
    assert(user_email_position("address"@) == 0) by {
        reveal_strlit("address");
        assert("address"@.len() == 7);
        assert("address"@[0] == 'a');
        assert("address"@[1] == 'd');
        assert("address"@[2] == 'd');
    }
    lemma_placed_more(key, position, 0);
    assert(user_email_position("verified"@) == 1) by {
        reveal_strlit("verified");
        assert("verified"@.len() == 8);
        assert("verified"@[0] == 'v');
        assert("verified"@[1] == 'e');
        assert("verified"@[2] == 'r');
    }
    lemma_placed_more(key, position, 1);
}

/// Each member of a written [`UserEmail`] is what its field is written as: a field that is unset has no
/// member.
pub proof fn law_user_email_members(x: UserEmail)
    ensures
        slot(x.doc(), "address"@, 0) == Some(x.address.doc()),
        slot(x.doc(), "verified"@, 1) == opt_doc(x.verified),
{
    lemma_user_email_keys();
    let key = |i: int| user_email_key(i);
    let value = |i: int| user_email_value(x, i);
    let position = |s: Seq<char>| user_email_position(s);
    let m0 = Map::<Seq<char>, JsonView>::empty();
    lemma_holds_none(key, value, 2);
    let m1 = with(m0, "address"@, x.address.doc());
    lemma_with(m0, "address"@, x.address.doc());
    lemma_holds_more(m0, key, value, position, 2, 0, m1);
    let m2 = with_some(m1, "verified"@, x.verified);
    lemma_with_some(m1, "verified"@, x.verified);
    lemma_holds_more(m1, key, value, position, 2, 1, m2);
    lemma_held(m2, key, value, 2, 0);
    lemma_held(m2, key, value, 2, 1);
    assert(x.doc() == JsonView::Object(m2));
}

/// A written [`UserEmail`] can be read.
proof fn lemma_user_email_accepted(x: UserEmail)
    requires
        x.writable(),
    ensures
        UserEmail::accepts(x.doc()),
{
    law_user_email_members(x);
    lemma_required(x.address, x.address);
    lemma_optional(x.verified, x.verified);
}

/// Two [`UserEmail`]s whose fields are written the same are written the same.
pub proof fn lemma_user_email_same(x: UserEmail, y: UserEmail)
    requires
        x.address.doc() == y.address.doc(),
        same_doc(x.verified, y.verified),
    ensures
        x.doc() == y.doc(),
{
    let m0 = Map::<Seq<char>, JsonView>::empty();
    let m1 = with(m0, "address"@, x.address.doc());
    let m2 = with_some(m1, "verified"@, x.verified);
    lemma_same_some(m1, "verified"@, x.verified, y.verified);
}

impl RoundTrip for UserEmail {
    open spec fn writable(&self) -> bool {
        &&& self.address.writable()
        &&& opt_writable(self.verified)
    }

    proof fn law_round_trip(&self, back: &UserEmail) {
        lemma_user_email_accepted(*self);
        if back.read_from(self.doc()) {
            law_user_email_members(*self);
            lemma_required(self.address, back.address);
            lemma_optional(self.verified, back.verified);
            lemma_user_email_same(*back, *self);
        }
    }
}

} // verus!

//! A message comes back as it was.
use crate::model::entity::message::Message;
use crate::model::faithful::{
    lemma_date, lemma_held, lemma_holds_more, lemma_holds_none, lemma_optional, lemma_placed_more,
    lemma_placed_none, lemma_required, lemma_same_some, lemma_with, lemma_with_some, opt_doc,
    opt_writable, placed, tag, RoundTrip,
};
use crate::model::json::JsonView;
use crate::model::wire::{same_doc, slot, with, with_some, Decode, Encode};
use vstd::prelude::*;
use vstd::string::*;

verus! {

/// The names of the members of a [`Message`], in order.
spec fn message_key(i: int) -> Seq<char> {
    if i == 0 {
        "_id"@
    } else if i == 1 {
        "_updatedAt"@
    } else if i == 2 {
        "rid"@
    } else if i == 3 {
        "msg"@
    } else if i == 4 {
        "ts"@
    } else if i == 5 {
        "u"@
    } else if i == 6 {
        "t"@
    } else if i == 7 {
        "editedAt"@
    } else if i == 8 {
        "editedBy"@
    } else if i == 9 {
        "attachments"@
    } else if i == 10 {
        "mentions"@
    } else if i == 11 {
        "channels"@
    } else if i == 12 {
        "md"@
    } else if i == 13 {
        "blocks"@
    } else if i == 14 {
        "urls"@
    } else if i == 15 {
        "reactions"@
    } else if i == 16 {
        "file"@
    } else if i == 17 {
        "files"@
    } else if i == 18 {
        "tmid"@
    } else if i == 19 {
        "tshow"@
    } else if i == 20 {
        "tcount"@
    } else if i == 21 {
        "tlm"@
    } else if i == 22 {
        "replies"@
    } else if i == 23 {
        "drid"@
    } else if i == 24 {
        "dcount"@
    } else if i == 25 {
        "dlm"@
    } else if i == 26 {
        "groupable"@
    } else if i == 27 {
        "parseUrls"@
    } else if i == 28 {
        "unread"@
    } else if i == 29 {
        "pinned"@
    } else if i == 30 {
        "pinnedAt"@
    } else if i == 31 {
        "pinnedBy"@
    } else if i == 32 {
        "starred"@
    } else if i == 33 {
        "private"@
    } else if i == 34 {
        "temp"@
    } else if i == 35 {
        "_hidden"@
    } else if i == 36 {
        "imported"@
    } else if i == 37 {
        "e2e"@
    } else if i == 38 {
        "alias"@
    } else if i == 39 {
        "avatar"@
    } else if i == 40 {
        "emoji"@
    } else if i == 41 {
        "role"@
    } else if i == 42 {
        "bot"@
    } else if i == 43 {
        "token"@
    } else if i == 44 {
        "customFields"@
    } else {
        Seq::empty()
    }
}

/// What each member of a [`Message`] is written as.
spec fn message_value(x: Message, i: int) -> Option<JsonView> {
    if i == 0 {
        Some(x.id.doc())
    } else if i == 1 {
        Some(x.updated_at.doc())
    } else if i == 2 {
        Some(x.rid.doc())
    } else if i == 3 {
        Some(x.msg.doc())
    } else if i == 4 {
        Some(x.ts.doc())
    } else if i == 5 {
        Some(x.u.doc())
    } else if i == 6 {
        opt_doc(x.t)
    } else if i == 7 {
        opt_doc(x.edited_at)
    } else if i == 8 {
        opt_doc(x.edited_by)
    } else if i == 9 {
        opt_doc(x.attachments)
    } else if i == 10 {
        opt_doc(x.mentions)
    } else if i == 11 {
        opt_doc(x.channels)
    } else if i == 12 {
        opt_doc(x.md)
    } else if i == 13 {
        opt_doc(x.blocks)
    } else if i == 14 {
        opt_doc(x.urls)
    } else if i == 15 {
        opt_doc(x.reactions)
    } else if i == 16 {
        opt_doc(x.file)
    } else if i == 17 {
        opt_doc(x.files)
    } else if i == 18 {
        opt_doc(x.tmid)
    } else if i == 19 {
        opt_doc(x.tshow)
    } else if i == 20 {
        opt_doc(x.tcount)
    } else if i == 21 {
        opt_doc(x.tlm)
    } else if i == 22 {
        opt_doc(x.replies)
    } else if i == 23 {
        opt_doc(x.drid)
    } else if i == 24 {
        opt_doc(x.dcount)
    } else if i == 25 {
        opt_doc(x.dlm)
    } else if i == 26 {
        opt_doc(x.groupable)
    } else if i == 27 {
        opt_doc(x.parse_urls)
    } else if i == 28 {
        opt_doc(x.unread)
    } else if i == 29 {
        opt_doc(x.pinned)
    } else if i == 30 {
        opt_doc(x.pinned_at)
    } else if i == 31 {
        opt_doc(x.pinned_by)
    } else if i == 32 {
        opt_doc(x.starred)
    } else if i == 33 {
        opt_doc(x.private)
    } else if i == 34 {
        opt_doc(x.temp)
    } else if i == 35 {
        opt_doc(x.hidden)
    } else if i == 36 {
        opt_doc(x.imported)
    } else if i == 37 {
        opt_doc(x.e2e)
    } else if i == 38 {
        opt_doc(x.alias)
    } else if i == 39 {
        opt_doc(x.avatar)
    } else if i == 40 {
        opt_doc(x.emoji)
    } else if i == 41 {
        opt_doc(x.role)
    } else if i == 42 {
        opt_doc(x.bot)
    } else if i == 43 {
        opt_doc(x.token)
    } else if i == 44 {
        opt_doc(x.custom_fields)
    } else {
        None
    }
}

/// The position of a name.
spec fn message_position(s: Seq<char>) -> int {
    let t = tag(s, 0, 1, 6);
    if t == 105095003 {
        0
    } else if t == 101117095010 {
        1
    } else if t == 105114003 {
        2
    } else if t == 115109003 {
        3
    } else if t == 115116002 {
        4
    } else if t == 117001 {
        5
    } else if t == 116001 {
        6
    } else if t == 65100101008 {
        7
    } else if t == 66100101008 {
        8
    } else if t == 109116097011 {
        9
    } else if t == 110101109008 {
        10
    } else if t == 108104099008 {
        11
    } else if t == 100109002 {
        12
    } else if t == 108098006 {
        13
    } else if t == 114117004 {
        14
    } else if t == 111101114009 {
        15
    } else if t == 105102004 {
        16
    } else if t == 105102005 {
        17
    } else if t == 109116004 {
        18
    } else if t == 115116005 {
        19
    } else if t == 99116006 {
        20
    } else if t == 108116003 {
        21
    } else if t == 115101114007 {
        22
    } else if t == 114100004 {
        23
    } else if t == 99100006 {
        24
    } else if t == 108100003 {
        25
    } else if t == 98114103009 {
        26
    } else if t == 114097112009 {
        27
    } else if t == 110117006 {
        28
    } else if t == 105112006 {
        29
    } else if t == 65105112008 {
        30
    } else if t == 66105112008 {
        31
    } else if t == 100116115007 {
        32
    } else if t == 101114112007 {
        33
    } else if t == 101116004 {
        34
    } else if t == 110104095007 {
        35
    } else if t == 101109105008 {
        36
    } else if t == 50101003 {
        37
    } else if t == 108097005 {
        38
    } else if t == 118097006 {
        39
    } else if t == 109101005 {
        40
    } else if t == 111114004 {
        41
    } else if t == 111098003 {
        42
    } else if t == 111116005 {
        43
    } else if t == 70117099012 {
        44
    } else {
        -1
    }
}

proof fn lemma_message_keys()
    ensures
        placed(|i: int| message_key(i), |s: Seq<char>| message_position(s), 45),
{
    let key = |i: int| message_key(i);
    let position = |s: Seq<char>| message_position(s);
    lemma_placed_none(key, position);
    assert(message_position("_id"@) == 0) by {
        reveal_strlit("_id");
        assert("_id"@.len() == 3);
        assert("_id"@[0] == '_');
        assert("_id"@[1] == 'i');
    }
    lemma_placed_more(key, position, 0);
    assert(message_position("_updatedAt"@) == 1) by {
        reveal_strlit("_updatedAt");
        assert("_updatedAt"@.len() == 10);
        assert("_updatedAt"@[0] == '_');
        assert("_updatedAt"@[1] == 'u');
        assert("_updatedAt"@[6] == 'e');
    }
    lemma_placed_more(key, position, 1);
    assert(message_position("rid"@) == 2) by {
        reveal_strlit("rid");
        assert("rid"@.len() == 3);
        assert("rid"@[0] == 'r');
        assert("rid"@[1] == 'i');
    }
    lemma_placed_more(key, position, 2);
    assert(message_position("msg"@) == 3) by {
        reveal_strlit("msg");
        assert("msg"@.len() == 3);
        assert("msg"@[0] == 'm');
        assert("msg"@[1] == 's');
    }
    lemma_placed_more(key, position, 3);
    assert(message_position("ts"@) == 4) by {
        reveal_strlit("ts");
        assert("ts"@.len() == 2);
        assert("ts"@[0] == 't');
        assert("ts"@[1] == 's');
    }
    lemma_placed_more(key, position, 4);
    assert(message_position("u"@) == 5) by {
        reveal_strlit("u");
        assert("u"@.len() == 1);
        assert("u"@[0] == 'u');
    }
    lemma_placed_more(key, position, 5);
    assert(message_position("t"@) == 6) by {
        reveal_strlit("t");
        assert("t"@.len() == 1);
        assert("t"@[0] == 't');
    }
    lemma_placed_more(key, position, 6);
    assert(message_position("editedAt"@) == 7) by {
        reveal_strlit("editedAt");
        assert("editedAt"@.len() == 8);
        assert("editedAt"@[0] == 'e');
        assert("editedAt"@[1] == 'd');
        assert("editedAt"@[6] == 'A');
    }
    lemma_placed_more(key, position, 7);
    assert(message_position("editedBy"@) == 8) by {
        reveal_strlit("editedBy");
        assert("editedBy"@.len() == 8);
        assert("editedBy"@[0] == 'e');
        assert("editedBy"@[1] == 'd');
        assert("editedBy"@[6] == 'B');
    }
    lemma_placed_more(key, position, 8);
    assert(message_position("attachments"@) == 9) by {
        reveal_strlit("attachments");
        assert("attachments"@.len() == 11);
        assert("attachments"@[0] == 'a');
        assert("attachments"@[1] == 't');
        assert("attachments"@[6] == 'm');
    }
    lemma_placed_more(key, position, 9);
    assert(message_position("mentions"@) == 10) by {
        reveal_strlit("mentions");
        assert("mentions"@.len() == 8);
        assert("mentions"@[0] == 'm');
        assert("mentions"@[1] == 'e');
        assert("mentions"@[6] == 'n');
    }
    lemma_placed_more(key, position, 10);
    assert(message_position("channels"@) == 11) by {
        reveal_strlit("channels");
        assert("channels"@.len() == 8);
        assert("channels"@[0] == 'c');
        assert("channels"@[1] == 'h');
        assert("channels"@[6] == 'l');
    }
    lemma_placed_more(key, position, 11);
    assert(message_position("md"@) == 12) by {
        reveal_strlit("md");
        assert("md"@.len() == 2);
        assert("md"@[0] == 'm');
        assert("md"@[1] == 'd');
    }
    lemma_placed_more(key, position, 12);
    assert(message_position("blocks"@) == 13) by {
        reveal_strlit("blocks");
        assert("blocks"@.len() == 6);
        assert("blocks"@[0] == 'b');
        assert("blocks"@[1] == 'l');
    }
    lemma_placed_more(key, position, 13);
    assert(message_position("urls"@) == 14) by {
        reveal_strlit("urls");
        assert("urls"@.len() == 4);
        assert("urls"@[0] == 'u');
        assert("urls"@[1] == 'r');
    }
    lemma_placed_more(key, position, 14);
    assert(message_position("reactions"@) == 15) by {
        reveal_strlit("reactions");
        assert("reactions"@.len() == 9);
        assert("reactions"@[0] == 'r');
        assert("reactions"@[1] == 'e');
        assert("reactions"@[6] == 'o');
    }
    lemma_placed_more(key, position, 15);
    assert(message_position("file"@) == 16) by {
        reveal_strlit("file");
        assert("file"@.len() == 4);
        assert("file"@[0] == 'f');
        assert("file"@[1] == 'i');
    }
    lemma_placed_more(key, position, 16);
    assert(message_position("files"@) == 17) by {
        reveal_strlit("files");
        assert("files"@.len() == 5);
        assert("files"@[0] == 'f');
        assert("files"@[1] == 'i');
    }
    lemma_placed_more(key, position, 17);
    assert(message_position("tmid"@) == 18) by {
        reveal_strlit("tmid");
        assert("tmid"@.len() == 4);
        assert("tmid"@[0] == 't');
        assert("tmid"@[1] == 'm');
    }
    lemma_placed_more(key, position, 18);
    assert(message_position("tshow"@) == 19) by {
        reveal_strlit("tshow");
        assert("tshow"@.len() == 5);
        assert("tshow"@[0] == 't');
        assert("tshow"@[1] == 's');
    }
    lemma_placed_more(key, position, 19);
    assert(message_position("tcount"@) == 20) by {
        reveal_strlit("tcount");
        assert("tcount"@.len() == 6);
        assert("tcount"@[0] == 't');
        assert("tcount"@[1] == 'c');
    }
    lemma_placed_more(key, position, 20);
    assert(message_position("tlm"@) == 21) by {
        reveal_strlit("tlm");
        assert("tlm"@.len() == 3);
        assert("tlm"@[0] == 't');
        assert("tlm"@[1] == 'l');
    }
    lemma_placed_more(key, position, 21);
    assert(message_position("replies"@) == 22) by {
        reveal_strlit("replies");
        assert("replies"@.len() == 7);
        assert("replies"@[0] == 'r');
        assert("replies"@[1] == 'e');
        assert("replies"@[6] == 's');
    }
    lemma_placed_more(key, position, 22);
    assert(message_position("drid"@) == 23) by {
        reveal_strlit("drid");
        assert("drid"@.len() == 4);
        assert("drid"@[0] == 'd');
        assert("drid"@[1] == 'r');
    }
    lemma_placed_more(key, position, 23);
    assert(message_position("dcount"@) == 24) by {
        reveal_strlit("dcount");
        assert("dcount"@.len() == 6);
        assert("dcount"@[0] == 'd');
        assert("dcount"@[1] == 'c');
    }
    lemma_placed_more(key, position, 24);
    assert(message_position("dlm"@) == 25) by {
        reveal_strlit("dlm");
        assert("dlm"@.len() == 3);
        assert("dlm"@[0] == 'd');
        assert("dlm"@[1] == 'l');
    }
    lemma_placed_more(key, position, 25);
    assert(message_position("groupable"@) == 26) by {
        reveal_strlit("groupable");
        assert("groupable"@.len() == 9);
        assert("groupable"@[0] == 'g');
        assert("groupable"@[1] == 'r');
        assert("groupable"@[6] == 'b');
    }
    lemma_placed_more(key, position, 26);
    assert(message_position("parseUrls"@) == 27) by {
        reveal_strlit("parseUrls");
        assert("parseUrls"@.len() == 9);
        assert("parseUrls"@[0] == 'p');
        assert("parseUrls"@[1] == 'a');
        assert("parseUrls"@[6] == 'r');
    }
    lemma_placed_more(key, position, 27);
    assert(message_position("unread"@) == 28) by {
        reveal_strlit("unread");
        assert("unread"@.len() == 6);
        assert("unread"@[0] == 'u');
        assert("unread"@[1] == 'n');
    }
    lemma_placed_more(key, position, 28);
    assert(message_position("pinned"@) == 29) by {
        reveal_strlit("pinned");
        assert("pinned"@.len() == 6);
        assert("pinned"@[0] == 'p');
        assert("pinned"@[1] == 'i');
    }
    lemma_placed_more(key, position, 29);
    assert(message_position("pinnedAt"@) == 30) by {
        reveal_strlit("pinnedAt");
        assert("pinnedAt"@.len() == 8);
        assert("pinnedAt"@[0] == 'p');
        assert("pinnedAt"@[1] == 'i');
        assert("pinnedAt"@[6] == 'A');
    }
    lemma_placed_more(key, position, 30);
    assert(message_position("pinnedBy"@) == 31) by {
        reveal_strlit("pinnedBy");
        assert("pinnedBy"@.len() == 8);
        assert("pinnedBy"@[0] == 'p');
        assert("pinnedBy"@[1] == 'i');
        assert("pinnedBy"@[6] == 'B');
    }
    lemma_placed_more(key, position, 31);
    assert(message_position("starred"@) == 32) by {
        reveal_strlit("starred");
        assert("starred"@.len() == 7);
        assert("starred"@[0] == 's');
        assert("starred"@[1] == 't');
        assert("starred"@[6] == 'd');
    }
    lemma_placed_more(key, position, 32);
    assert(message_position("private"@) == 33) by {
        reveal_strlit("private");
        assert("private"@.len() == 7);
        assert("private"@[0] == 'p');
        assert("private"@[1] == 'r');
        assert("private"@[6] == 'e');
    }
    lemma_placed_more(key, position, 33);
    assert(message_position("temp"@) == 34) by {
        reveal_strlit("temp");
        assert("temp"@.len() == 4);
        assert("temp"@[0] == 't');
        assert("temp"@[1] == 'e');
    }
    lemma_placed_more(key, position, 34);
    assert(message_position("_hidden"@) == 35) by {
        reveal_strlit("_hidden");
        assert("_hidden"@.len() == 7);
        assert("_hidden"@[0] == '_');
        assert("_hidden"@[1] == 'h');
        assert("_hidden"@[6] == 'n');
    }
    lemma_placed_more(key, position, 35);
    assert(message_position("imported"@) == 36) by {
        reveal_strlit("imported");
        assert("imported"@.len() == 8);
        assert("imported"@[0] == 'i');
        assert("imported"@[1] == 'm');
        assert("imported"@[6] == 'e');
    }
    lemma_placed_more(key, position, 36);
    assert(message_position("e2e"@) == 37) by {
        reveal_strlit("e2e");
        assert("e2e"@.len() == 3);
        assert("e2e"@[0] == 'e');
        assert("e2e"@[1] == '2');
    }
    lemma_placed_more(key, position, 37);
    assert(message_position("alias"@) == 38) by {
        reveal_strlit("alias");
        assert("alias"@.len() == 5);
        assert("alias"@[0] == 'a');
        assert("alias"@[1] == 'l');
    }
    lemma_placed_more(key, position, 38);
    assert(message_position("avatar"@) == 39) by {
        reveal_strlit("avatar");
        assert("avatar"@.len() == 6);
        assert("avatar"@[0] == 'a');
        assert("avatar"@[1] == 'v');
    }
    lemma_placed_more(key, position, 39);
    assert(message_position("emoji"@) == 40) by {
        reveal_strlit("emoji");
        assert("emoji"@.len() == 5);
        assert("emoji"@[0] == 'e');
        assert("emoji"@[1] == 'm');
    }
    lemma_placed_more(key, position, 40);
    assert(message_position("role"@) == 41) by {
        reveal_strlit("role");
        assert("role"@.len() == 4);
        assert("role"@[0] == 'r');
        assert("role"@[1] == 'o');
    }
    lemma_placed_more(key, position, 41);
    assert(message_position("bot"@) == 42) by {
        reveal_strlit("bot");
        assert("bot"@.len() == 3);
        assert("bot"@[0] == 'b');
        assert("bot"@[1] == 'o');
    }
    lemma_placed_more(key, position, 42);
    assert(message_position("token"@) == 43) by {
        reveal_strlit("token");
        assert("token"@.len() == 5);
        assert("token"@[0] == 't');
        assert("token"@[1] == 'o');
    }
    lemma_placed_more(key, position, 43);
    assert(message_position("customFields"@) == 44) by {
        reveal_strlit("customFields");
        assert("customFields"@.len() == 12);
        assert("customFields"@[0] == 'c');
        assert("customFields"@[1] == 'u');
        assert("customFields"@[6] == 'F');
    }
    lemma_placed_more(key, position, 44);
}

/// Each member of a written [`Message`] is what its field is written as: a field that is unset has no
/// member.
pub proof fn law_message_members(x: Message)
    ensures
        slot(x.doc(), "_id"@, 0) == Some(x.id.doc()),
        slot(x.doc(), "_updatedAt"@, 1) == Some(x.updated_at.doc()),
        slot(x.doc(), "rid"@, 2) == Some(x.rid.doc()),
        slot(x.doc(), "msg"@, 3) == Some(x.msg.doc()),
        slot(x.doc(), "ts"@, 4) == Some(x.ts.doc()),
        slot(x.doc(), "u"@, 5) == Some(x.u.doc()),
        slot(x.doc(), "t"@, 6) == opt_doc(x.t),
        slot(x.doc(), "editedAt"@, 7) == opt_doc(x.edited_at),
        slot(x.doc(), "editedBy"@, 8) == opt_doc(x.edited_by),
        slot(x.doc(), "attachments"@, 9) == opt_doc(x.attachments),
        slot(x.doc(), "mentions"@, 10) == opt_doc(x.mentions),
        slot(x.doc(), "channels"@, 11) == opt_doc(x.channels),
        slot(x.doc(), "md"@, 12) == opt_doc(x.md),
        slot(x.doc(), "blocks"@, 13) == opt_doc(x.blocks),
        slot(x.doc(), "urls"@, 14) == opt_doc(x.urls),
        slot(x.doc(), "reactions"@, 15) == opt_doc(x.reactions),
        slot(x.doc(), "file"@, 16) == opt_doc(x.file),
        slot(x.doc(), "files"@, 17) == opt_doc(x.files),
        slot(x.doc(), "tmid"@, 18) == opt_doc(x.tmid),
        slot(x.doc(), "tshow"@, 19) == opt_doc(x.tshow),
        slot(x.doc(), "tcount"@, 20) == opt_doc(x.tcount),
        slot(x.doc(), "tlm"@, 21) == opt_doc(x.tlm),
        slot(x.doc(), "replies"@, 22) == opt_doc(x.replies),
        slot(x.doc(), "drid"@, 23) == opt_doc(x.drid),
        slot(x.doc(), "dcount"@, 24) == opt_doc(x.dcount),
        slot(x.doc(), "dlm"@, 25) == opt_doc(x.dlm),
        slot(x.doc(), "groupable"@, 26) == opt_doc(x.groupable),
        slot(x.doc(), "parseUrls"@, 27) == opt_doc(x.parse_urls),
        slot(x.doc(), "unread"@, 28) == opt_doc(x.unread),
        slot(x.doc(), "pinned"@, 29) == opt_doc(x.pinned),
        slot(x.doc(), "pinnedAt"@, 30) == opt_doc(x.pinned_at),
        slot(x.doc(), "pinnedBy"@, 31) == opt_doc(x.pinned_by),
        slot(x.doc(), "starred"@, 32) == opt_doc(x.starred),
        slot(x.doc(), "private"@, 33) == opt_doc(x.private),
        slot(x.doc(), "temp"@, 34) == opt_doc(x.temp),
        slot(x.doc(), "_hidden"@, 35) == opt_doc(x.hidden),
        slot(x.doc(), "imported"@, 36) == opt_doc(x.imported),
        slot(x.doc(), "e2e"@, 37) == opt_doc(x.e2e),
        slot(x.doc(), "alias"@, 38) == opt_doc(x.alias),
        slot(x.doc(), "avatar"@, 39) == opt_doc(x.avatar),
        slot(x.doc(), "emoji"@, 40) == opt_doc(x.emoji),
        slot(x.doc(), "role"@, 41) == opt_doc(x.role),
        slot(x.doc(), "bot"@, 42) == opt_doc(x.bot),
        slot(x.doc(), "token"@, 43) == opt_doc(x.token),
        slot(x.doc(), "customFields"@, 44) == opt_doc(x.custom_fields),
{
    lemma_message_keys();
    let key = |i: int| message_key(i);
    let value = |i: int| message_value(x, i);
    let position = |s: Seq<char>| message_position(s);
    let m0 = Map::<Seq<char>, JsonView>::empty();
    lemma_holds_none(key, value, 45);
    let m1 = with(m0, "_id"@, x.id.doc());
    lemma_with(m0, "_id"@, x.id.doc());
    lemma_holds_more(m0, key, value, position, 45, 0, m1);
    let m2 = with(m1, "_updatedAt"@, x.updated_at.doc());
    lemma_with(m1, "_updatedAt"@, x.updated_at.doc());
    lemma_holds_more(m1, key, value, position, 45, 1, m2);
    let m3 = with(m2, "rid"@, x.rid.doc());
    lemma_with(m2, "rid"@, x.rid.doc());
    lemma_holds_more(m2, key, value, position, 45, 2, m3);
    let m4 = with(m3, "msg"@, x.msg.doc());
    lemma_with(m3, "msg"@, x.msg.doc());
    lemma_holds_more(m3, key, value, position, 45, 3, m4);
    let m5 = with(m4, "ts"@, x.ts.doc());
    lemma_with(m4, "ts"@, x.ts.doc());
    lemma_holds_more(m4, key, value, position, 45, 4, m5);
    let m6 = with(m5, "u"@, x.u.doc());
    lemma_with(m5, "u"@, x.u.doc());
    lemma_holds_more(m5, key, value, position, 45, 5, m6);
    let m7 = with_some(m6, "t"@, x.t);
    lemma_with_some(m6, "t"@, x.t);
    lemma_holds_more(m6, key, value, position, 45, 6, m7);
    let m8 = with_some(m7, "editedAt"@, x.edited_at);
    lemma_with_some(m7, "editedAt"@, x.edited_at);
    lemma_holds_more(m7, key, value, position, 45, 7, m8);
    let m9 = with_some(m8, "editedBy"@, x.edited_by);
    lemma_with_some(m8, "editedBy"@, x.edited_by);
    lemma_holds_more(m8, key, value, position, 45, 8, m9);
    let m10 = with_some(m9, "attachments"@, x.attachments);
    lemma_with_some(m9, "attachments"@, x.attachments);
    lemma_holds_more(m9, key, value, position, 45, 9, m10);
    let m11 = with_some(m10, "mentions"@, x.mentions);
    lemma_with_some(m10, "mentions"@, x.mentions);
    lemma_holds_more(m10, key, value, position, 45, 10, m11);
    let m12 = with_some(m11, "channels"@, x.channels);
    lemma_with_some(m11, "channels"@, x.channels);
    lemma_holds_more(m11, key, value, position, 45, 11, m12);
    let m13 = with_some(m12, "md"@, x.md);
    lemma_with_some(m12, "md"@, x.md);
    lemma_holds_more(m12, key, value, position, 45, 12, m13);
    let m14 = with_some(m13, "blocks"@, x.blocks);
    lemma_with_some(m13, "blocks"@, x.blocks);
    lemma_holds_more(m13, key, value, position, 45, 13, m14);
    let m15 = with_some(m14, "urls"@, x.urls);
    lemma_with_some(m14, "urls"@, x.urls);
    lemma_holds_more(m14, key, value, position, 45, 14, m15);
    let m16 = with_some(m15, "reactions"@, x.reactions);
    lemma_with_some(m15, "reactions"@, x.reactions);
    lemma_holds_more(m15, key, value, position, 45, 15, m16);
    let m17 = with_some(m16, "file"@, x.file);
    lemma_with_some(m16, "file"@, x.file);
    lemma_holds_more(m16, key, value, position, 45, 16, m17);
    let m18 = with_some(m17, "files"@, x.files);
    lemma_with_some(m17, "files"@, x.files);
    lemma_holds_more(m17, key, value, position, 45, 17, m18);
    let m19 = with_some(m18, "tmid"@, x.tmid);
    lemma_with_some(m18, "tmid"@, x.tmid);
    lemma_holds_more(m18, key, value, position, 45, 18, m19);
    let m20 = with_some(m19, "tshow"@, x.tshow);
    lemma_with_some(m19, "tshow"@, x.tshow);
    lemma_holds_more(m19, key, value, position, 45, 19, m20);
    let m21 = with_some(m20, "tcount"@, x.tcount);
    lemma_with_some(m20, "tcount"@, x.tcount);
    lemma_holds_more(m20, key, value, position, 45, 20, m21);
    let m22 = with_some(m21, "tlm"@, x.tlm);
    lemma_with_some(m21, "tlm"@, x.tlm);
    lemma_holds_more(m21, key, value, position, 45, 21, m22);
    let m23 = with_some(m22, "replies"@, x.replies);
    lemma_with_some(m22, "replies"@, x.replies);
    lemma_holds_more(m22, key, value, position, 45, 22, m23);
    let m24 = with_some(m23, "drid"@, x.drid);
    lemma_with_some(m23, "drid"@, x.drid);
    lemma_holds_more(m23, key, value, position, 45, 23, m24);
    let m25 = with_some(m24, "dcount"@, x.dcount);
    lemma_with_some(m24, "dcount"@, x.dcount);
    lemma_holds_more(m24, key, value, position, 45, 24, m25);
    let m26 = with_some(m25, "dlm"@, x.dlm);
    lemma_with_some(m25, "dlm"@, x.dlm);
    lemma_holds_more(m25, key, value, position, 45, 25, m26);
    let m27 = with_some(m26, "groupable"@, x.groupable);
    lemma_with_some(m26, "groupable"@, x.groupable);
    lemma_holds_more(m26, key, value, position, 45, 26, m27);
    let m28 = with_some(m27, "parseUrls"@, x.parse_urls);
    lemma_with_some(m27, "parseUrls"@, x.parse_urls);
    lemma_holds_more(m27, key, value, position, 45, 27, m28);
    let m29 = with_some(m28, "unread"@, x.unread);
    lemma_with_some(m28, "unread"@, x.unread);
    lemma_holds_more(m28, key, value, position, 45, 28, m29);
    let m30 = with_some(m29, "pinned"@, x.pinned);
    lemma_with_some(m29, "pinned"@, x.pinned);
    lemma_holds_more(m29, key, value, position, 45, 29, m30);
    let m31 = with_some(m30, "pinnedAt"@, x.pinned_at);
    lemma_with_some(m30, "pinnedAt"@, x.pinned_at);
    lemma_holds_more(m30, key, value, position, 45, 30, m31);
    let m32 = with_some(m31, "pinnedBy"@, x.pinned_by);
    lemma_with_some(m31, "pinnedBy"@, x.pinned_by);
    lemma_holds_more(m31, key, value, position, 45, 31, m32);
    let m33 = with_some(m32, "starred"@, x.starred);
    lemma_with_some(m32, "starred"@, x.starred);
    lemma_holds_more(m32, key, value, position, 45, 32, m33);
    let m34 = with_some(m33, "private"@, x.private);
    lemma_with_some(m33, "private"@, x.private);
    lemma_holds_more(m33, key, value, position, 45, 33, m34);
    let m35 = with_some(m34, "temp"@, x.temp);
    lemma_with_some(m34, "temp"@, x.temp);
    lemma_holds_more(m34, key, value, position, 45, 34, m35);
    let m36 = with_some(m35, "_hidden"@, x.hidden);
    lemma_with_some(m35, "_hidden"@, x.hidden);
    lemma_holds_more(m35, key, value, position, 45, 35, m36);
    let m37 = with_some(m36, "imported"@, x.imported);
    lemma_with_some(m36, "imported"@, x.imported);
    lemma_holds_more(m36, key, value, position, 45, 36, m37);
    let m38 = with_some(m37, "e2e"@, x.e2e);
    lemma_with_some(m37, "e2e"@, x.e2e);
    lemma_holds_more(m37, key, value, position, 45, 37, m38);
    let m39 = with_some(m38, "alias"@, x.alias);
    lemma_with_some(m38, "alias"@, x.alias);
    lemma_holds_more(m38, key, value, position, 45, 38, m39);
    let m40 = with_some(m39, "avatar"@, x.avatar);
    lemma_with_some(m39, "avatar"@, x.avatar);
    lemma_holds_more(m39, key, value, position, 45, 39, m40);
    let m41 = with_some(m40, "emoji"@, x.emoji);
    lemma_with_some(m40, "emoji"@, x.emoji);
    lemma_holds_more(m40, key, value, position, 45, 40, m41);
    let m42 = with_some(m41, "role"@, x.role);
    lemma_with_some(m41, "role"@, x.role);
    lemma_holds_more(m41, key, value, position, 45, 41, m42);
    let m43 = with_some(m42, "bot"@, x.bot);
    lemma_with_some(m42, "bot"@, x.bot);
    lemma_holds_more(m42, key, value, position, 45, 42, m43);
    let m44 = with_some(m43, "token"@, x.token);
    lemma_with_some(m43, "token"@, x.token);
    lemma_holds_more(m43, key, value, position, 45, 43, m44);
    let m45 = with_some(m44, "customFields"@, x.custom_fields);
    lemma_with_some(m44, "customFields"@, x.custom_fields);
    lemma_holds_more(m44, key, value, position, 45, 44, m45);
    lemma_held(m45, key, value, 45, 0);
    lemma_held(m45, key, value, 45, 1);
    lemma_held(m45, key, value, 45, 2);
    lemma_held(m45, key, value, 45, 3);
    lemma_held(m45, key, value, 45, 4);
    lemma_held(m45, key, value, 45, 5);
    lemma_held(m45, key, value, 45, 6);
    lemma_held(m45, key, value, 45, 7);
    lemma_held(m45, key, value, 45, 8);
    lemma_held(m45, key, value, 45, 9);
    lemma_held(m45, key, value, 45, 10);
    lemma_held(m45, key, value, 45, 11);
    lemma_held(m45, key, value, 45, 12);
    lemma_held(m45, key, value, 45, 13);
    lemma_held(m45, key, value, 45, 14);
    lemma_held(m45, key, value, 45, 15);
    lemma_held(m45, key, value, 45, 16);
    lemma_held(m45, key, value, 45, 17);
    lemma_held(m45, key, value, 45, 18);
    lemma_held(m45, key, value, 45, 19);
    lemma_held(m45, key, value, 45, 20);
    lemma_held(m45, key, value, 45, 21);
    lemma_held(m45, key, value, 45, 22);
    lemma_held(m45, key, value, 45, 23);
    lemma_held(m45, key, value, 45, 24);
    lemma_held(m45, key, value, 45, 25);
    lemma_held(m45, key, value, 45, 26);
    lemma_held(m45, key, value, 45, 27);
    lemma_held(m45, key, value, 45, 28);
    lemma_held(m45, key, value, 45, 29);
    lemma_held(m45, key, value, 45, 30);
    lemma_held(m45, key, value, 45, 31);
    lemma_held(m45, key, value, 45, 32);
    lemma_held(m45, key, value, 45, 33);
    lemma_held(m45, key, value, 45, 34);
    lemma_held(m45, key, value, 45, 35);
    lemma_held(m45, key, value, 45, 36);
    lemma_held(m45, key, value, 45, 37);
    lemma_held(m45, key, value, 45, 38);
    lemma_held(m45, key, value, 45, 39);
    lemma_held(m45, key, value, 45, 40);
    lemma_held(m45, key, value, 45, 41);
    lemma_held(m45, key, value, 45, 42);
    lemma_held(m45, key, value, 45, 43);
    lemma_held(m45, key, value, 45, 44);
    assert(x.doc() == JsonView::Object(m45));
}

/// A written [`Message`] can be read.
proof fn lemma_message_accepted(x: Message)
    requires
        x.writable(),
    ensures
        Message::accepts(x.doc()),
{
    law_message_members(x);
    lemma_required(x.id, x.id);
    lemma_required(x.updated_at, x.updated_at);
    lemma_required(x.rid, x.rid);
    lemma_required(x.msg, x.msg);
    lemma_required(x.ts, x.ts);
    lemma_required(x.u, x.u);
    lemma_optional(x.t, x.t);
    lemma_date(x.edited_at, x.edited_at);
    lemma_optional(x.edited_by, x.edited_by);
    lemma_optional(x.attachments, x.attachments);
    lemma_optional(x.mentions, x.mentions);
    lemma_optional(x.channels, x.channels);
    lemma_optional(x.md, x.md);
    lemma_optional(x.blocks, x.blocks);
    lemma_optional(x.urls, x.urls);
    lemma_optional(x.reactions, x.reactions);
    lemma_optional(x.file, x.file);
    lemma_optional(x.files, x.files);
    lemma_optional(x.tmid, x.tmid);
    lemma_optional(x.tshow, x.tshow);
    lemma_optional(x.tcount, x.tcount);
    lemma_date(x.tlm, x.tlm);
    lemma_optional(x.replies, x.replies);
    lemma_optional(x.drid, x.drid);
    lemma_optional(x.dcount, x.dcount);
    lemma_date(x.dlm, x.dlm);
    lemma_optional(x.groupable, x.groupable);
    lemma_optional(x.parse_urls, x.parse_urls);
    lemma_optional(x.unread, x.unread);
    lemma_optional(x.pinned, x.pinned);
    lemma_date(x.pinned_at, x.pinned_at);
    lemma_optional(x.pinned_by, x.pinned_by);
    lemma_optional(x.starred, x.starred);
    lemma_optional(x.private, x.private);
    lemma_optional(x.temp, x.temp);
    lemma_optional(x.hidden, x.hidden);
    lemma_optional(x.imported, x.imported);
    lemma_optional(x.e2e, x.e2e);
    lemma_optional(x.alias, x.alias);
    lemma_optional(x.avatar, x.avatar);
    lemma_optional(x.emoji, x.emoji);
    lemma_optional(x.role, x.role);
    lemma_optional(x.bot, x.bot);
    lemma_optional(x.token, x.token);
    lemma_optional(x.custom_fields, x.custom_fields);
}

/// Two [`Message`]s whose fields are written the same are written the same.
pub proof fn lemma_message_same(x: Message, y: Message)
    requires
        x.id.doc() == y.id.doc(),
        x.updated_at.doc() == y.updated_at.doc(),
        x.rid.doc() == y.rid.doc(),
        x.msg.doc() == y.msg.doc(),
        x.ts.doc() == y.ts.doc(),
        x.u.doc() == y.u.doc(),
        same_doc(x.t, y.t),
        same_doc(x.edited_at, y.edited_at),
        same_doc(x.edited_by, y.edited_by),
        same_doc(x.attachments, y.attachments),
        same_doc(x.mentions, y.mentions),
        same_doc(x.channels, y.channels),
        same_doc(x.md, y.md),
        same_doc(x.blocks, y.blocks),
        same_doc(x.urls, y.urls),
        same_doc(x.reactions, y.reactions),
        same_doc(x.file, y.file),
        same_doc(x.files, y.files),
        same_doc(x.tmid, y.tmid),
        same_doc(x.tshow, y.tshow),
        same_doc(x.tcount, y.tcount),
        same_doc(x.tlm, y.tlm),
        same_doc(x.replies, y.replies),
        same_doc(x.drid, y.drid),
        same_doc(x.dcount, y.dcount),
        same_doc(x.dlm, y.dlm),
        same_doc(x.groupable, y.groupable),
        same_doc(x.parse_urls, y.parse_urls),
        same_doc(x.unread, y.unread),
        same_doc(x.pinned, y.pinned),
        same_doc(x.pinned_at, y.pinned_at),
        same_doc(x.pinned_by, y.pinned_by),
        same_doc(x.starred, y.starred),
        same_doc(x.private, y.private),
        same_doc(x.temp, y.temp),
        same_doc(x.hidden, y.hidden),
        same_doc(x.imported, y.imported),
        same_doc(x.e2e, y.e2e),
        same_doc(x.alias, y.alias),
        same_doc(x.avatar, y.avatar),
        same_doc(x.emoji, y.emoji),
        same_doc(x.role, y.role),
        same_doc(x.bot, y.bot),
        same_doc(x.token, y.token),
        same_doc(x.custom_fields, y.custom_fields),
    ensures
        x.doc() == y.doc(),
{
    let m0 = Map::<Seq<char>, JsonView>::empty();
    let m1 = with(m0, "_id"@, x.id.doc());
    let m2 = with(m1, "_updatedAt"@, x.updated_at.doc());
    let m3 = with(m2, "rid"@, x.rid.doc());
    let m4 = with(m3, "msg"@, x.msg.doc());
    let m5 = with(m4, "ts"@, x.ts.doc());
    let m6 = with(m5, "u"@, x.u.doc());
    let m7 = with_some(m6, "t"@, x.t);
    lemma_same_some(m6, "t"@, x.t, y.t);
    let m8 = with_some(m7, "editedAt"@, x.edited_at);
    lemma_same_some(m7, "editedAt"@, x.edited_at, y.edited_at);
    let m9 = with_some(m8, "editedBy"@, x.edited_by);
    lemma_same_some(m8, "editedBy"@, x.edited_by, y.edited_by);
    let m10 = with_some(m9, "attachments"@, x.attachments);
    lemma_same_some(m9, "attachments"@, x.attachments, y.attachments);
    let m11 = with_some(m10, "mentions"@, x.mentions);
    lemma_same_some(m10, "mentions"@, x.mentions, y.mentions);
    let m12 = with_some(m11, "channels"@, x.channels);
    lemma_same_some(m11, "channels"@, x.channels, y.channels);
    let m13 = with_some(m12, "md"@, x.md);
    lemma_same_some(m12, "md"@, x.md, y.md);
    let m14 = with_some(m13, "blocks"@, x.blocks);
    lemma_same_some(m13, "blocks"@, x.blocks, y.blocks);
    let m15 = with_some(m14, "urls"@, x.urls);
    lemma_same_some(m14, "urls"@, x.urls, y.urls);
    let m16 = with_some(m15, "reactions"@, x.reactions);
    lemma_same_some(m15, "reactions"@, x.reactions, y.reactions);
    let m17 = with_some(m16, "file"@, x.file);
    lemma_same_some(m16, "file"@, x.file, y.file);
    let m18 = with_some(m17, "files"@, x.files);
    lemma_same_some(m17, "files"@, x.files, y.files);
    let m19 = with_some(m18, "tmid"@, x.tmid);
    lemma_same_some(m18, "tmid"@, x.tmid, y.tmid);
    let m20 = with_some(m19, "tshow"@, x.tshow);
    lemma_same_some(m19, "tshow"@, x.tshow, y.tshow);
    let m21 = with_some(m20, "tcount"@, x.tcount);
    lemma_same_some(m20, "tcount"@, x.tcount, y.tcount);
    let m22 = with_some(m21, "tlm"@, x.tlm);
    lemma_same_some(m21, "tlm"@, x.tlm, y.tlm);
    let m23 = with_some(m22, "replies"@, x.replies);
    lemma_same_some(m22, "replies"@, x.replies, y.replies);
    let m24 = with_some(m23, "drid"@, x.drid);
    lemma_same_some(m23, "drid"@, x.drid, y.drid);
    let m25 = with_some(m24, "dcount"@, x.dcount);
    lemma_same_some(m24, "dcount"@, x.dcount, y.dcount);
    let m26 = with_some(m25, "dlm"@, x.dlm);
    lemma_same_some(m25, "dlm"@, x.dlm, y.dlm);
    let m27 = with_some(m26, "groupable"@, x.groupable);
    lemma_same_some(m26, "groupable"@, x.groupable, y.groupable);
    let m28 = with_some(m27, "parseUrls"@, x.parse_urls);
    lemma_same_some(m27, "parseUrls"@, x.parse_urls, y.parse_urls);
    let m29 = with_some(m28, "unread"@, x.unread);
    lemma_same_some(m28, "unread"@, x.unread, y.unread);
    let m30 = with_some(m29, "pinned"@, x.pinned);
    lemma_same_some(m29, "pinned"@, x.pinned, y.pinned);
    let m31 = with_some(m30, "pinnedAt"@, x.pinned_at);
    lemma_same_some(m30, "pinnedAt"@, x.pinned_at, y.pinned_at);
    let m32 = with_some(m31, "pinnedBy"@, x.pinned_by);
    lemma_same_some(m31, "pinnedBy"@, x.pinned_by, y.pinned_by);
    let m33 = with_some(m32, "starred"@, x.starred);
    lemma_same_some(m32, "starred"@, x.starred, y.starred);
    let m34 = with_some(m33, "private"@, x.private);
    lemma_same_some(m33, "private"@, x.private, y.private);
    let m35 = with_some(m34, "temp"@, x.temp);
    lemma_same_some(m34, "temp"@, x.temp, y.temp);
    let m36 = with_some(m35, "_hidden"@, x.hidden);
    lemma_same_some(m35, "_hidden"@, x.hidden, y.hidden);
    let m37 = with_some(m36, "imported"@, x.imported);
    lemma_same_some(m36, "imported"@, x.imported, y.imported);
    let m38 = with_some(m37, "e2e"@, x.e2e);
    lemma_same_some(m37, "e2e"@, x.e2e, y.e2e);
    let m39 = with_some(m38, "alias"@, x.alias);
    lemma_same_some(m38, "alias"@, x.alias, y.alias);
    let m40 = with_some(m39, "avatar"@, x.avatar);
    lemma_same_some(m39, "avatar"@, x.avatar, y.avatar);
    let m41 = with_some(m40, "emoji"@, x.emoji);
    lemma_same_some(m40, "emoji"@, x.emoji, y.emoji);
    let m42 = with_some(m41, "role"@, x.role);
    lemma_same_some(m41, "role"@, x.role, y.role);
    let m43 = with_some(m42, "bot"@, x.bot);
    lemma_same_some(m42, "bot"@, x.bot, y.bot);
    let m44 = with_some(m43, "token"@, x.token);
    lemma_same_some(m43, "token"@, x.token, y.token);
    let m45 = with_some(m44, "customFields"@, x.custom_fields);
    lemma_same_some(m44, "customFields"@, x.custom_fields, y.custom_fields);
}

impl RoundTrip for Message {
    open spec fn writable(&self) -> bool {
        &&& self.id.writable()
        &&& self.updated_at.writable()
        &&& self.rid.writable()
        &&& self.msg.writable()
        &&& self.ts.writable()
        &&& self.u.writable()
        &&& opt_writable(self.t)
        &&& opt_writable(self.edited_at)
        &&& opt_writable(self.edited_by)
        &&& opt_writable(self.attachments)
        &&& opt_writable(self.mentions)
        &&& opt_writable(self.channels)
        &&& opt_writable(self.md)
        &&& opt_writable(self.blocks)
        &&& opt_writable(self.urls)
        &&& opt_writable(self.reactions)
        &&& opt_writable(self.file)
        &&& opt_writable(self.files)
        &&& opt_writable(self.tmid)
        &&& opt_writable(self.tshow)
        &&& opt_writable(self.tcount)
        &&& opt_writable(self.tlm)
        &&& opt_writable(self.replies)
        &&& opt_writable(self.drid)
        &&& opt_writable(self.dcount)
        &&& opt_writable(self.dlm)
        &&& opt_writable(self.groupable)
        &&& opt_writable(self.parse_urls)
        &&& opt_writable(self.unread)
        &&& opt_writable(self.pinned)
        &&& opt_writable(self.pinned_at)
        &&& opt_writable(self.pinned_by)
        &&& opt_writable(self.starred)
        &&& opt_writable(self.private)
        &&& opt_writable(self.temp)
        &&& opt_writable(self.hidden)
        &&& opt_writable(self.imported)
        &&& opt_writable(self.e2e)
        &&& opt_writable(self.alias)
        &&& opt_writable(self.avatar)
        &&& opt_writable(self.emoji)
        &&& opt_writable(self.role)
        &&& opt_writable(self.bot)
        &&& opt_writable(self.token)
        &&& opt_writable(self.custom_fields)
    }

    proof fn law_round_trip(&self, back: &Message) {
        lemma_message_accepted(*self);
        if back.read_from(self.doc()) {
            law_message_members(*self);
            lemma_required(self.id, back.id);
            lemma_required(self.updated_at, back.updated_at);
            lemma_required(self.rid, back.rid);
            lemma_required(self.msg, back.msg);
            lemma_required(self.ts, back.ts);
            lemma_required(self.u, back.u);
            lemma_optional(self.t, back.t);
            lemma_date(self.edited_at, back.edited_at);
            lemma_optional(self.edited_by, back.edited_by);
            lemma_optional(self.attachments, back.attachments);
            lemma_optional(self.mentions, back.mentions);
            lemma_optional(self.channels, back.channels);
            lemma_optional(self.md, back.md);
            lemma_optional(self.blocks, back.blocks);
            lemma_optional(self.urls, back.urls);
            lemma_optional(self.reactions, back.reactions);
            lemma_optional(self.file, back.file);
            lemma_optional(self.files, back.files);
            lemma_optional(self.tmid, back.tmid);
            lemma_optional(self.tshow, back.tshow);
            lemma_optional(self.tcount, back.tcount);
            lemma_date(self.tlm, back.tlm);
            lemma_optional(self.replies, back.replies);
            lemma_optional(self.drid, back.drid);
            lemma_optional(self.dcount, back.dcount);
            lemma_date(self.dlm, back.dlm);
            lemma_optional(self.groupable, back.groupable);
            lemma_optional(self.parse_urls, back.parse_urls);
            lemma_optional(self.unread, back.unread);
            lemma_optional(self.pinned, back.pinned);
            lemma_date(self.pinned_at, back.pinned_at);
            lemma_optional(self.pinned_by, back.pinned_by);
            lemma_optional(self.starred, back.starred);
            lemma_optional(self.private, back.private);
            lemma_optional(self.temp, back.temp);
            lemma_optional(self.hidden, back.hidden);
            lemma_optional(self.imported, back.imported);
            lemma_optional(self.e2e, back.e2e);
            lemma_optional(self.alias, back.alias);
            lemma_optional(self.avatar, back.avatar);
            lemma_optional(self.emoji, back.emoji);
            lemma_optional(self.role, back.role);
            lemma_optional(self.bot, back.bot);
            lemma_optional(self.token, back.token);
            lemma_optional(self.custom_fields, back.custom_fields);
            lemma_message_same(*back, *self);
        }
    }
}

} // verus!

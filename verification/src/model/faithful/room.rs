//! A room comes back as it was.
use crate::model::entity::room::Room;
use crate::model::faithful::{
    lemma_date, lemma_held, lemma_holds_more, lemma_holds_none, lemma_optional, lemma_placed_more,
    lemma_placed_none, lemma_required, lemma_same_some, lemma_with, lemma_with_some, opt_doc,
    opt_writable, placed, tag, RoundTrip,
};
use crate::model::json::JsonView;
use crate::model::wire::{same_doc, slot, with, with_some, Decode, Encode};
use vstd::prelude::*;
use vstd::string::*;

verus! {

/// The names of the members of a [`Room`], in order.
spec fn room_key(i: int) -> Seq<char> {
    if i == 0 {
        "_id"@
    } else if i == 1 {
        "_updatedAt"@
    } else if i == 2 {
        "t"@
    } else if i == 3 {
        "name"@
    } else if i == 4 {
        "fname"@
    } else if i == 5 {
        "msgs"@
    } else if i == 6 {
        "usersCount"@
    } else if i == 7 {
        "u"@
    } else if i == 8 {
        "uids"@
    } else if i == 9 {
        "usernames"@
    } else if i == 10 {
        "default"@
    } else if i == 11 {
        "broadcast"@
    } else if i == 12 {
        "featured"@
    } else if i == 13 {
        "topic"@
    } else if i == 14 {
        "description"@
    } else if i == 15 {
        "announcement"@
    } else if i == 16 {
        "announcementDetails"@
    } else if i == 17 {
        "joinCodeRequired"@
    } else if i == 18 {
        "encrypted"@
    } else if i == 19 {
        "e2eKeyId"@
    } else if i == 20 {
        "usersWaitingForE2EKeys"@
    } else if i == 21 {
        "ro"@
    } else if i == 22 {
        "reactWhenReadOnly"@
    } else if i == 23 {
        "sysMes"@
    } else if i == 24 {
        "cl"@
    } else if i == 25 {
        "archived"@
    } else if i == 26 {
        "muted"@
    } else if i == 27 {
        "unmuted"@
    } else if i == 28 {
        "lastMessage"@
    } else if i == 29 {
        "lm"@
    } else if i == 30 {
        "ts"@
    } else if i == 31 {
        "webRtcCallStartTime"@
    } else if i == 32 {
        "prid"@
    } else if i == 33 {
        "avatarETag"@
    } else if i == 34 {
        "teamMain"@
    } else if i == 35 {
        "teamId"@
    } else if i == 36 {
        "teamDefault"@
    } else if i == 37 {
        "open"@
    } else if i == 38 {
        "unread"@
    } else if i == 39 {
        "alert"@
    } else if i == 40 {
        "favorite"@
    } else if i == 41 {
        "hideUnreadStatus"@
    } else if i == 42 {
        "hideMentionStatus"@
    } else if i == 43 {
        "autoTranslate"@
    } else if i == 44 {
        "autoTranslateLanguage"@
    } else if i == 45 {
        "retention"@
    } else if i == 46 {
        "abacAttributes"@
    } else if i == 47 {
        "rolePrioritiesCreated"@
    } else if i == 48 {
        "customFields"@
    } else if i == 49 {
        "federated"@
    } else if i == 50 {
        "federation"@
    } else if i == 51 {
        "v"@
    } else if i == 52 {
        "source"@
    } else if i == 53 {
        "servedBy"@
    } else if i == 54 {
        "departmentId"@
    } else if i == 55 {
        "onHold"@
    } else if i == 56 {
        "waitingResponse"@
    } else if i == 57 {
        "queuedAt"@
    } else if i == 58 {
        "tags"@
    } else if i == 59 {
        "livechatData"@
    } else if i == 60 {
        "metrics"@
    } else if i == 61 {
        "transcriptRequest"@
    } else if i == 62 {
        "priorityId"@
    } else if i == 63 {
        "priorityWeight"@
    } else if i == 64 {
        "slaId"@
    } else if i == 65 {
        "estimatedWaitingTimeQueue"@
    } else if i == 66 {
        "contactId"@
    } else if i == 67 {
        "verified"@
    } else if i == 68 {
        "sms"@
    } else if i == 69 {
        "code"@
    } else if i == 70 {
        "label"@
    } else if i == 71 {
        "sentiment"@
    } else {
        Seq::empty()
    }
}

/// What each member of a [`Room`] is written as.
spec fn room_value(x: Room, i: int) -> Option<JsonView> {
    if i == 0 {
        Some(x.id.doc())
    } else if i == 1 {
        Some(x.updated_at.doc())
    } else if i == 2 {
        Some(x.t.doc())
    } else if i == 3 {
        opt_doc(x.name)
    } else if i == 4 {
        opt_doc(x.fname)
    } else if i == 5 {
        opt_doc(x.msgs)
    } else if i == 6 {
        opt_doc(x.users_count)
    } else if i == 7 {
        opt_doc(x.u)
    } else if i == 8 {
        opt_doc(x.uids)
    } else if i == 9 {
        opt_doc(x.usernames)
    } else if i == 10 {
        opt_doc(x.default)
    } else if i == 11 {
        opt_doc(x.broadcast)
    } else if i == 12 {
        opt_doc(x.featured)
    } else if i == 13 {
        opt_doc(x.topic)
    } else if i == 14 {
        opt_doc(x.description)
    } else if i == 15 {
        opt_doc(x.announcement)
    } else if i == 16 {
        opt_doc(x.announcement_details)
    } else if i == 17 {
        opt_doc(x.join_code_required)
    } else if i == 18 {
        opt_doc(x.encrypted)
    } else if i == 19 {
        opt_doc(x.e2e_key_id)
    } else if i == 20 {
        opt_doc(x.users_waiting_for_e2e_keys)
    } else if i == 21 {
        opt_doc(x.ro)
    } else if i == 22 {
        opt_doc(x.react_when_read_only)
    } else if i == 23 {
        opt_doc(x.sys_mes)
    } else if i == 24 {
        opt_doc(x.cl)
    } else if i == 25 {
        opt_doc(x.archived)
    } else if i == 26 {
        opt_doc(x.muted)
    } else if i == 27 {
        opt_doc(x.unmuted)
    } else if i == 28 {
        opt_doc(x.last_message)
    } else if i == 29 {
        opt_doc(x.lm)
    } else if i == 30 {
        opt_doc(x.ts)
    } else if i == 31 {
        opt_doc(x.web_rtc_call_start_time)
    } else if i == 32 {
        opt_doc(x.prid)
    } else if i == 33 {
        opt_doc(x.avatar_etag)
    } else if i == 34 {
        opt_doc(x.team_main)
    } else if i == 35 {
        opt_doc(x.team_id)
    } else if i == 36 {
        opt_doc(x.team_default)
    } else if i == 37 {
        opt_doc(x.open)
    } else if i == 38 {
        opt_doc(x.unread)
    } else if i == 39 {
        opt_doc(x.alert)
    } else if i == 40 {
        opt_doc(x.favorite)
    } else if i == 41 {
        opt_doc(x.hide_unread_status)
    } else if i == 42 {
        opt_doc(x.hide_mention_status)
    } else if i == 43 {
        opt_doc(x.auto_translate)
    } else if i == 44 {
        opt_doc(x.auto_translate_language)
    } else if i == 45 {
        opt_doc(x.retention)
    } else if i == 46 {
        opt_doc(x.abac_attributes)
    } else if i == 47 {
        opt_doc(x.role_priorities_created)
    } else if i == 48 {
        opt_doc(x.custom_fields)
    } else if i == 49 {
        opt_doc(x.federated)
    } else if i == 50 {
        opt_doc(x.federation)
    } else if i == 51 {
        opt_doc(x.v)
    } else if i == 52 {
        opt_doc(x.source)
    } else if i == 53 {
        opt_doc(x.served_by)
    } else if i == 54 {
        opt_doc(x.department_id)
    } else if i == 55 {
        opt_doc(x.on_hold)
    } else if i == 56 {
        opt_doc(x.waiting_response)
    } else if i == 57 {
        opt_doc(x.queued_at)
    } else if i == 58 {
        opt_doc(x.tags)
    } else if i == 59 {
        opt_doc(x.livechat_data)
    } else if i == 60 {
        opt_doc(x.metrics)
    } else if i == 61 {
        opt_doc(x.transcript_request)
    } else if i == 62 {
        opt_doc(x.priority_id)
    } else if i == 63 {
        opt_doc(x.priority_weight)
    } else if i == 64 {
        opt_doc(x.sla_id)
    } else if i == 65 {
        opt_doc(x.estimated_waiting_time_queue)
    } else if i == 66 {
        opt_doc(x.contact_id)
    } else if i == 67 {
        opt_doc(x.verified)
    } else if i == 68 {
        opt_doc(x.sms)
    } else if i == 69 {
        opt_doc(x.code)
    } else if i == 70 {
        opt_doc(x.label)
    } else if i == 71 {
        opt_doc(x.sentiment)
    } else {
        None
    }
}

/// The position of a name.
spec fn room_position(s: Seq<char>) -> int {
    let t = tag(s, 0, 1, 2);
    if t == 100105095003 {
        0
    } else if t == 112117095010 {
        1
    } else if t == 116001 {
        2
    } else if t == 109097110004 {
        3
    } else if t == 97110102005 {
        4
    } else if t == 103115109004 {
        5
    } else if t == 101115117010 {
        6
    } else if t == 117001 {
        7
    } else if t == 100105117004 {
        8
    } else if t == 101115117009 {
        9
    } else if t == 102101100007 {
        10
    } else if t == 111114098009 {
        11
    } else if t == 97101102008 {
        12
    } else if t == 112111116005 {
        13
    } else if t == 115101100011 {
        14
    } else if t == 110110097012 {
        15
    } else if t == 110110097019 {
        16
    } else if t == 105111106016 {
        17
    } else if t == 99110101009 {
        18
    } else if t == 101050101008 {
        19
    } else if t == 101115117022 {
        20
    } else if t == 111114002 {
        21
    } else if t == 97101114017 {
        22
    } else if t == 115121115006 {
        23
    } else if t == 108099002 {
        24
    } else if t == 99114097008 {
        25
    } else if t == 116117109005 {
        26
    } else if t == 109110117007 {
        27
    } else if t == 115097108011 {
        28
    } else if t == 109108002 {
        29
    } else if t == 115116002 {
        30
    } else if t == 98101119019 {
        31
    } else if t == 105114112004 {
        32
    } else if t == 97118097010 {
        33
    } else if t == 97101116008 {
        34
    } else if t == 97101116006 {
        35
    } else if t == 97101116011 {
        36
    } else if t == 101112111004 {
        37
    } else if t == 114110117006 {
        38
    } else if t == 101108097005 {
        39
    } else if t == 118097102008 {
        40
    } else if t == 100105104016 {
        41
    } else if t == 100105104017 {
        42
    } else if t == 116117097013 {
        43
    } else if t == 116117097021 {
        44
    } else if t == 116101114009 {
        45
    } else if t == 97098097014 {
        46
    } else if t == 108111114021 {
        47
    } else if t == 115117099012 {
        48
    } else if t == 100101102009 {
        49
    } else if t == 100101102010 {
        50
    } else if t == 118001 {
        51
    } else if t == 117111115006 {
        52
    } else if t == 114101115008 {
        53
    } else if t == 112101100012 {
        54
    } else if t == 72110111006 {
        55
    } else if t == 105097119015 {
        56
    } else if t == 101117113008 {
        57
    } else if t == 103097116004 {
        58
    } else if t == 118105108012 {
        59
    } else if t == 116101109007 {
        60
    } else if t == 97114116017 {
        61
    } else if t == 105114112010 {
        62
    } else if t == 105114112014 {
        63
    } else if t == 97108115005 {
        64
    } else if t == 116115101025 {
        65
    } else if t == 110111099009 {
        66
    } else if t == 114101118008 {
        67
    } else if t == 115109115003 {
        68
    } else if t == 100111099004 {
        69
    } else if t == 98097108005 {
        70
    } else if t == 110101115009 {
        71
    } else {
        -1
    }
}

#[verifier::rlimit(60)]
proof fn lemma_room_keys()
    ensures
        placed(|i: int| room_key(i), |s: Seq<char>| room_position(s), 72),
{
    let key = |i: int| room_key(i);
    let position = |s: Seq<char>| room_position(s);
    lemma_placed_none(key, position);
    assert(room_position("_id"@) == 0) by {
        reveal_strlit("_id");
        assert("_id"@.len() == 3);
        assert("_id"@[0] == '_');
        assert("_id"@[1] == 'i');
        assert("_id"@[2] == 'd');
    }
    lemma_placed_more(key, position, 0);
    assert(room_position("_updatedAt"@) == 1) by {
        reveal_strlit("_updatedAt");
        assert("_updatedAt"@.len() == 10);
        assert("_updatedAt"@[0] == '_');
        assert("_updatedAt"@[1] == 'u');
        assert("_updatedAt"@[2] == 'p');
    }
    lemma_placed_more(key, position, 1);
    assert(room_position("t"@) == 2) by {
        reveal_strlit("t");
        assert("t"@.len() == 1);
        assert("t"@[0] == 't');
    }
    lemma_placed_more(key, position, 2);
    assert(room_position("name"@) == 3) by {
        reveal_strlit("name");
        assert("name"@.len() == 4);
        assert("name"@[0] == 'n');
        assert("name"@[1] == 'a');
        assert("name"@[2] == 'm');
    }
    lemma_placed_more(key, position, 3);
    assert(room_position("fname"@) == 4) by {
        reveal_strlit("fname");
        assert("fname"@.len() == 5);
        assert("fname"@[0] == 'f');
        assert("fname"@[1] == 'n');
        assert("fname"@[2] == 'a');
    }
    lemma_placed_more(key, position, 4);
    assert(room_position("msgs"@) == 5) by {
        reveal_strlit("msgs");
        assert("msgs"@.len() == 4);
        assert("msgs"@[0] == 'm');
        assert("msgs"@[1] == 's');
        assert("msgs"@[2] == 'g');
    }
    lemma_placed_more(key, position, 5);
    assert(room_position("usersCount"@) == 6) by {
        reveal_strlit("usersCount");
        assert("usersCount"@.len() == 10);
        assert("usersCount"@[0] == 'u');
        assert("usersCount"@[1] == 's');
        assert("usersCount"@[2] == 'e');
    }
    lemma_placed_more(key, position, 6);
    assert(room_position("u"@) == 7) by {
        reveal_strlit("u");
        assert("u"@.len() == 1);
        assert("u"@[0] == 'u');
    }
    lemma_placed_more(key, position, 7);
    assert(room_position("uids"@) == 8) by {
        reveal_strlit("uids");
        assert("uids"@.len() == 4);
        assert("uids"@[0] == 'u');
        assert("uids"@[1] == 'i');
        assert("uids"@[2] == 'd');
    }
    lemma_placed_more(key, position, 8);
    assert(room_position("usernames"@) == 9) by {
        reveal_strlit("usernames");
        assert("usernames"@.len() == 9);
        assert("usernames"@[0] == 'u');
        assert("usernames"@[1] == 's');
        assert("usernames"@[2] == 'e');
    }
    lemma_placed_more(key, position, 9);
    assert(room_position("default"@) == 10) by {
        reveal_strlit("default");
        assert("default"@.len() == 7);
        assert("default"@[0] == 'd');
        assert("default"@[1] == 'e');
        assert("default"@[2] == 'f');
    }
    lemma_placed_more(key, position, 10);
    assert(room_position("broadcast"@) == 11) by {
        reveal_strlit("broadcast");
        assert("broadcast"@.len() == 9);
        assert("broadcast"@[0] == 'b');
        assert("broadcast"@[1] == 'r');
        assert("broadcast"@[2] == 'o');
    }
    lemma_placed_more(key, position, 11);
    assert(room_position("featured"@) == 12) by {
        reveal_strlit("featured");
        assert("featured"@.len() == 8);
        assert("featured"@[0] == 'f');
        assert("featured"@[1] == 'e');
        assert("featured"@[2] == 'a');
    }
    lemma_placed_more(key, position, 12);
    assert(room_position("topic"@) == 13) by {
        reveal_strlit("topic");
        assert("topic"@.len() == 5);
        assert("topic"@[0] == 't');
        assert("topic"@[1] == 'o');
        assert("topic"@[2] == 'p');
    }
    lemma_placed_more(key, position, 13);
    assert(room_position("description"@) == 14) by {
        reveal_strlit("description");
        assert("description"@.len() == 11);
        assert("description"@[0] == 'd');
        assert("description"@[1] == 'e');
        assert("description"@[2] == 's');
    }
    lemma_placed_more(key, position, 14);
    assert(room_position("announcement"@) == 15) by {
        reveal_strlit("announcement");
        assert("announcement"@.len() == 12);
        assert("announcement"@[0] == 'a');
        assert("announcement"@[1] == 'n');
        assert("announcement"@[2] == 'n');
    }
    lemma_placed_more(key, position, 15);
    assert(room_position("announcementDetails"@) == 16) by {
        reveal_strlit("announcementDetails");
        assert("announcementDetails"@.len() == 19);
        assert("announcementDetails"@[0] == 'a');
        assert("announcementDetails"@[1] == 'n');
        assert("announcementDetails"@[2] == 'n');
    }
    lemma_placed_more(key, position, 16);
    assert(room_position("joinCodeRequired"@) == 17) by {
        reveal_strlit("joinCodeRequired");
        assert("joinCodeRequired"@.len() == 16);
        assert("joinCodeRequired"@[0] == 'j');
        assert("joinCodeRequired"@[1] == 'o');
        assert("joinCodeRequired"@[2] == 'i');
    }
    lemma_placed_more(key, position, 17);
    assert(room_position("encrypted"@) == 18) by {
        reveal_strlit("encrypted");
        assert("encrypted"@.len() == 9);
        assert("encrypted"@[0] == 'e');
        assert("encrypted"@[1] == 'n');
        assert("encrypted"@[2] == 'c');
    }
    lemma_placed_more(key, position, 18);
    assert(room_position("e2eKeyId"@) == 19) by {
        reveal_strlit("e2eKeyId");
        assert("e2eKeyId"@.len() == 8);
        assert("e2eKeyId"@[0] == 'e');
        assert("e2eKeyId"@[1] == '2');
        assert("e2eKeyId"@[2] == 'e');
    }
    lemma_placed_more(key, position, 19);
    assert(room_position("usersWaitingForE2EKeys"@) == 20) by {
        reveal_strlit("usersWaitingForE2EKeys");
        assert("usersWaitingForE2EKeys"@.len() == 22);
        assert("usersWaitingForE2EKeys"@[0] == 'u');
        assert("usersWaitingForE2EKeys"@[1] == 's');
        assert("usersWaitingForE2EKeys"@[2] == 'e');
    }
    lemma_placed_more(key, position, 20);
    assert(room_position("ro"@) == 21) by {
        reveal_strlit("ro");
        assert("ro"@.len() == 2);
        assert("ro"@[0] == 'r');
        assert("ro"@[1] == 'o');
    }
    lemma_placed_more(key, position, 21);
    assert(room_position("reactWhenReadOnly"@) == 22) by {
        reveal_strlit("reactWhenReadOnly");
        assert("reactWhenReadOnly"@.len() == 17);
        assert("reactWhenReadOnly"@[0] == 'r');
        assert("reactWhenReadOnly"@[1] == 'e');
        assert("reactWhenReadOnly"@[2] == 'a');
    }
    lemma_placed_more(key, position, 22);
    assert(room_position("sysMes"@) == 23) by {
        reveal_strlit("sysMes");
        assert("sysMes"@.len() == 6);
        assert("sysMes"@[0] == 's');
        assert("sysMes"@[1] == 'y');
        assert("sysMes"@[2] == 's');
    }
    lemma_placed_more(key, position, 23);
    assert(room_position("cl"@) == 24) by {
        reveal_strlit("cl");
        assert("cl"@.len() == 2);
        assert("cl"@[0] == 'c');
        assert("cl"@[1] == 'l');
    }
    lemma_placed_more(key, position, 24);
    assert(room_position("archived"@) == 25) by {
        reveal_strlit("archived");
        assert("archived"@.len() == 8);
        assert("archived"@[0] == 'a');
        assert("archived"@[1] == 'r');
        assert("archived"@[2] == 'c');
    }
    lemma_placed_more(key, position, 25);
    assert(room_position("muted"@) == 26) by {
        reveal_strlit("muted");
        assert("muted"@.len() == 5);
        assert("muted"@[0] == 'm');
        assert("muted"@[1] == 'u');
        assert("muted"@[2] == 't');
    }
    lemma_placed_more(key, position, 26);
    assert(room_position("unmuted"@) == 27) by {
        reveal_strlit("unmuted");
        assert("unmuted"@.len() == 7);
        assert("unmuted"@[0] == 'u');
        assert("unmuted"@[1] == 'n');
        assert("unmuted"@[2] == 'm');
    }
    lemma_placed_more(key, position, 27);
    assert(room_position("lastMessage"@) == 28) by {
        reveal_strlit("lastMessage");
        assert("lastMessage"@.len() == 11);
        assert("lastMessage"@[0] == 'l');
        assert("lastMessage"@[1] == 'a');
        assert("lastMessage"@[2] == 's');
    }
    lemma_placed_more(key, position, 28);
    assert(room_position("lm"@) == 29) by {
        reveal_strlit("lm");
        assert("lm"@.len() == 2);
        assert("lm"@[0] == 'l');
        assert("lm"@[1] == 'm');
    }
    lemma_placed_more(key, position, 29);
    assert(room_position("ts"@) == 30) by {
        reveal_strlit("ts");
        assert("ts"@.len() == 2);
        assert("ts"@[0] == 't');
        assert("ts"@[1] == 's');
    }
    lemma_placed_more(key, position, 30);
    assert(room_position("webRtcCallStartTime"@) == 31) by {
        reveal_strlit("webRtcCallStartTime");
        assert("webRtcCallStartTime"@.len() == 19);
        assert("webRtcCallStartTime"@[0] == 'w');
        assert("webRtcCallStartTime"@[1] == 'e');
        assert("webRtcCallStartTime"@[2] == 'b');
    }
    lemma_placed_more(key, position, 31);
    assert(room_position("prid"@) == 32) by {
        reveal_strlit("prid");
        assert("prid"@.len() == 4);
        assert("prid"@[0] == 'p');
        assert("prid"@[1] == 'r');
        assert("prid"@[2] == 'i');
    }
    lemma_placed_more(key, position, 32);
    assert(room_position("avatarETag"@) == 33) by {
        reveal_strlit("avatarETag");
        assert("avatarETag"@.len() == 10);
        assert("avatarETag"@[0] == 'a');
        assert("avatarETag"@[1] == 'v');
        assert("avatarETag"@[2] == 'a');
    }
    lemma_placed_more(key, position, 33);
    assert(room_position("teamMain"@) == 34) by {
        reveal_strlit("teamMain");
        assert("teamMain"@.len() == 8);
        assert("teamMain"@[0] == 't');
        assert("teamMain"@[1] == 'e');
        assert("teamMain"@[2] == 'a');
    }
    lemma_placed_more(key, position, 34);
    assert(room_position("teamId"@) == 35) by {
        reveal_strlit("teamId");
        assert("teamId"@.len() == 6);
        assert("teamId"@[0] == 't');
        assert("teamId"@[1] == 'e');
        assert("teamId"@[2] == 'a');
    }
    lemma_placed_more(key, position, 35);
    assert(room_position("teamDefault"@) == 36) by {
        reveal_strlit("teamDefault");
        assert("teamDefault"@.len() == 11);
        assert("teamDefault"@[0] == 't');
        assert("teamDefault"@[1] == 'e');
        assert("teamDefault"@[2] == 'a');
    }
    lemma_placed_more(key, position, 36);
    assert(room_position("open"@) == 37) by {
        reveal_strlit("open");
        assert("open"@.len() == 4);
        assert("open"@[0] == 'o');
        assert("open"@[1] == 'p');
        assert("open"@[2] == 'e');
    }
    lemma_placed_more(key, position, 37);
    assert(room_position("unread"@) == 38) by {
        reveal_strlit("unread");
        assert("unread"@.len() == 6);
        assert("unread"@[0] == 'u');
        assert("unread"@[1] == 'n');
        assert("unread"@[2] == 'r');
    }
    lemma_placed_more(key, position, 38);
    assert(room_position("alert"@) == 39) by {
        reveal_strlit("alert");
        assert("alert"@.len() == 5);
        assert("alert"@[0] == 'a');
        assert("alert"@[1] == 'l');
        assert("alert"@[2] == 'e');
    }
    lemma_placed_more(key, position, 39);
    assert(room_position("favorite"@) == 40) by {
        reveal_strlit("favorite");
        assert("favorite"@.len() == 8);
        assert("favorite"@[0] == 'f');
        assert("favorite"@[1] == 'a');
        assert("favorite"@[2] == 'v');
    }
    lemma_placed_more(key, position, 40);
    assert(room_position("hideUnreadStatus"@) == 41) by {
        reveal_strlit("hideUnreadStatus");
        assert("hideUnreadStatus"@.len() == 16);
        assert("hideUnreadStatus"@[0] == 'h');
        assert("hideUnreadStatus"@[1] == 'i');
        assert("hideUnreadStatus"@[2] == 'd');
    }
    lemma_placed_more(key, position, 41);
    assert(room_position("hideMentionStatus"@) == 42) by {
        reveal_strlit("hideMentionStatus");
        assert("hideMentionStatus"@.len() == 17);
        assert("hideMentionStatus"@[0] == 'h');
        assert("hideMentionStatus"@[1] == 'i');
        assert("hideMentionStatus"@[2] == 'd');
    }
    lemma_placed_more(key, position, 42);
    assert(room_position("autoTranslate"@) == 43) by {
        reveal_strlit("autoTranslate");
        assert("autoTranslate"@.len() == 13);
        assert("autoTranslate"@[0] == 'a');
        assert("autoTranslate"@[1] == 'u');
        assert("autoTranslate"@[2] == 't');
    }
    lemma_placed_more(key, position, 43);
    assert(room_position("autoTranslateLanguage"@) == 44) by {
        reveal_strlit("autoTranslateLanguage");
        assert("autoTranslateLanguage"@.len() == 21);
        assert("autoTranslateLanguage"@[0] == 'a');
        assert("autoTranslateLanguage"@[1] == 'u');
        assert("autoTranslateLanguage"@[2] == 't');
    }
    lemma_placed_more(key, position, 44);
    assert(room_position("retention"@) == 45) by {
        reveal_strlit("retention");
        assert("retention"@.len() == 9);
        assert("retention"@[0] == 'r');
        assert("retention"@[1] == 'e');
        assert("retention"@[2] == 't');
    }
    lemma_placed_more(key, position, 45);
    assert(room_position("abacAttributes"@) == 46) by {
        reveal_strlit("abacAttributes");
        assert("abacAttributes"@.len() == 14);
        assert("abacAttributes"@[0] == 'a');
        assert("abacAttributes"@[1] == 'b');
        assert("abacAttributes"@[2] == 'a');
    }
    lemma_placed_more(key, position, 46);
    assert(room_position("rolePrioritiesCreated"@) == 47) by {
        reveal_strlit("rolePrioritiesCreated");
        assert("rolePrioritiesCreated"@.len() == 21);
        assert("rolePrioritiesCreated"@[0] == 'r');
        assert("rolePrioritiesCreated"@[1] == 'o');
        assert("rolePrioritiesCreated"@[2] == 'l');
    }
    lemma_placed_more(key, position, 47);
    assert(room_position("customFields"@) == 48) by {
        reveal_strlit("customFields");
        assert("customFields"@.len() == 12);
        assert("customFields"@[0] == 'c');
        assert("customFields"@[1] == 'u');
        assert("customFields"@[2] == 's');
    }
    lemma_placed_more(key, position, 48);
    assert(room_position("federated"@) == 49) by {
        reveal_strlit("federated");
        assert("federated"@.len() == 9);
        assert("federated"@[0] == 'f');
        assert("federated"@[1] == 'e');
        assert("federated"@[2] == 'd');
    }
    lemma_placed_more(key, position, 49);
    assert(room_position("federation"@) == 50) by {
        reveal_strlit("federation");
        assert("federation"@.len() == 10);
        assert("federation"@[0] == 'f');
        assert("federation"@[1] == 'e');
        assert("federation"@[2] == 'd');
    }
    lemma_placed_more(key, position, 50);
    assert(room_position("v"@) == 51) by {
        reveal_strlit("v");
        assert("v"@.len() == 1);
        assert("v"@[0] == 'v');
    }
    lemma_placed_more(key, position, 51);
    assert(room_position("source"@) == 52) by {
        reveal_strlit("source");
        assert("source"@.len() == 6);
        assert("source"@[0] == 's');
        assert("source"@[1] == 'o');
        assert("source"@[2] == 'u');
    }
    lemma_placed_more(key, position, 52);
    assert(room_position("servedBy"@) == 53) by {
        reveal_strlit("servedBy");
        assert("servedBy"@.len() == 8);
        assert("servedBy"@[0] == 's');
        assert("servedBy"@[1] == 'e');
        assert("servedBy"@[2] == 'r');
    }
    lemma_placed_more(key, position, 53);
    assert(room_position("departmentId"@) == 54) by {
        reveal_strlit("departmentId");
        assert("departmentId"@.len() == 12);
        assert("departmentId"@[0] == 'd');
        assert("departmentId"@[1] == 'e');
        assert("departmentId"@[2] == 'p');
    }
    lemma_placed_more(key, position, 54);
    assert(room_position("onHold"@) == 55) by {
        reveal_strlit("onHold");
        assert("onHold"@.len() == 6);
        assert("onHold"@[0] == 'o');
        assert("onHold"@[1] == 'n');
        assert("onHold"@[2] == 'H');
    }
    lemma_placed_more(key, position, 55);
    assert(room_position("waitingResponse"@) == 56) by {
        reveal_strlit("waitingResponse");
        assert("waitingResponse"@.len() == 15);
        assert("waitingResponse"@[0] == 'w');
        assert("waitingResponse"@[1] == 'a');
        assert("waitingResponse"@[2] == 'i');
    }
    lemma_placed_more(key, position, 56);
    assert(room_position("queuedAt"@) == 57) by {
        reveal_strlit("queuedAt");
        assert("queuedAt"@.len() == 8);
        assert("queuedAt"@[0] == 'q');
        assert("queuedAt"@[1] == 'u');
        assert("queuedAt"@[2] == 'e');
    }
    lemma_placed_more(key, position, 57);
    assert(room_position("tags"@) == 58) by {
        reveal_strlit("tags");
        assert("tags"@.len() == 4);
        assert("tags"@[0] == 't');
        assert("tags"@[1] == 'a');
        assert("tags"@[2] == 'g');
    }
    lemma_placed_more(key, position, 58);
    assert(room_position("livechatData"@) == 59) by {
        reveal_strlit("livechatData");
        assert("livechatData"@.len() == 12);
        assert("livechatData"@[0] == 'l');
        assert("livechatData"@[1] == 'i');
        assert("livechatData"@[2] == 'v');
    }
    lemma_placed_more(key, position, 59);
    assert(room_position("metrics"@) == 60) by {
        reveal_strlit("metrics");
        assert("metrics"@.len() == 7);
        assert("metrics"@[0] == 'm');
        assert("metrics"@[1] == 'e');
        assert("metrics"@[2] == 't');
    }
    lemma_placed_more(key, position, 60);
    assert(room_position("transcriptRequest"@) == 61) by {
        reveal_strlit("transcriptRequest");
        assert("transcriptRequest"@.len() == 17);
        assert("transcriptRequest"@[0] == 't');
        assert("transcriptRequest"@[1] == 'r');
        assert("transcriptRequest"@[2] == 'a');
    }
    lemma_placed_more(key, position, 61);
    assert(room_position("priorityId"@) == 62) by {
        reveal_strlit("priorityId");
        assert("priorityId"@.len() == 10);
        assert("priorityId"@[0] == 'p');
        assert("priorityId"@[1] == 'r');
        assert("priorityId"@[2] == 'i');
    }
    lemma_placed_more(key, position, 62);
    assert(room_position("priorityWeight"@) == 63) by {
        reveal_strlit("priorityWeight");
        assert("priorityWeight"@.len() == 14);
        assert("priorityWeight"@[0] == 'p');
        assert("priorityWeight"@[1] == 'r');
        assert("priorityWeight"@[2] == 'i');
    }
    lemma_placed_more(key, position, 63);
    assert(room_position("slaId"@) == 64) by {
        reveal_strlit("slaId");
        assert("slaId"@.len() == 5);
        assert("slaId"@[0] == 's');
        assert("slaId"@[1] == 'l');
        assert("slaId"@[2] == 'a');
    }
    lemma_placed_more(key, position, 64);
    assert(room_position("estimatedWaitingTimeQueue"@) == 65) by {
        reveal_strlit("estimatedWaitingTimeQueue");
        assert("estimatedWaitingTimeQueue"@.len() == 25);
        assert("estimatedWaitingTimeQueue"@[0] == 'e');
        assert("estimatedWaitingTimeQueue"@[1] == 's');
        assert("estimatedWaitingTimeQueue"@[2] == 't');
    }
    lemma_placed_more(key, position, 65);
    assert(room_position("contactId"@) == 66) by {
        reveal_strlit("contactId");
        assert("contactId"@.len() == 9);
        assert("contactId"@[0] == 'c');
        assert("contactId"@[1] == 'o');
        assert("contactId"@[2] == 'n');
    }
    lemma_placed_more(key, position, 66);
    assert(room_position("verified"@) == 67) by {
        reveal_strlit("verified");
        assert("verified"@.len() == 8);
        assert("verified"@[0] == 'v');
        assert("verified"@[1] == 'e');
        assert("verified"@[2] == 'r');
    }
    lemma_placed_more(key, position, 67);
    assert(room_position("sms"@) == 68) by {
        reveal_strlit("sms");
        assert("sms"@.len() == 3);
        assert("sms"@[0] == 's');
        assert("sms"@[1] == 'm');
        assert("sms"@[2] == 's');
    }
    lemma_placed_more(key, position, 68);
    assert(room_position("code"@) == 69) by {
        reveal_strlit("code");
        assert("code"@.len() == 4);
        assert("code"@[0] == 'c');
        assert("code"@[1] == 'o');
        assert("code"@[2] == 'd');
    }
    lemma_placed_more(key, position, 69);
    assert(room_position("label"@) == 70) by {
        reveal_strlit("label");
        assert("label"@.len() == 5);
        assert("label"@[0] == 'l');
        assert("label"@[1] == 'a');
        assert("label"@[2] == 'b');
    }
    lemma_placed_more(key, position, 70);
    assert(room_position("sentiment"@) == 71) by {
        reveal_strlit("sentiment");
        assert("sentiment"@.len() == 9);
        assert("sentiment"@[0] == 's');
        assert("sentiment"@[1] == 'e');
        assert("sentiment"@[2] == 'n');
    }
    lemma_placed_more(key, position, 71);
}

/// Each member of a written [`Room`] is what its field is written as: a field that is unset has no
/// member.
pub proof fn law_room_members(x: Room)
    ensures
        slot(x.doc(), "_id"@, 0) == Some(x.id.doc()),
        slot(x.doc(), "_updatedAt"@, 1) == Some(x.updated_at.doc()),
        slot(x.doc(), "t"@, 2) == Some(x.t.doc()),
        slot(x.doc(), "name"@, 3) == opt_doc(x.name),
        slot(x.doc(), "fname"@, 4) == opt_doc(x.fname),
        slot(x.doc(), "msgs"@, 5) == opt_doc(x.msgs),
        slot(x.doc(), "usersCount"@, 6) == opt_doc(x.users_count),
        slot(x.doc(), "u"@, 7) == opt_doc(x.u),
        slot(x.doc(), "uids"@, 8) == opt_doc(x.uids),
        slot(x.doc(), "usernames"@, 9) == opt_doc(x.usernames),
        slot(x.doc(), "default"@, 10) == opt_doc(x.default),
        slot(x.doc(), "broadcast"@, 11) == opt_doc(x.broadcast),
        slot(x.doc(), "featured"@, 12) == opt_doc(x.featured),
        slot(x.doc(), "topic"@, 13) == opt_doc(x.topic),
        slot(x.doc(), "description"@, 14) == opt_doc(x.description),
        slot(x.doc(), "announcement"@, 15) == opt_doc(x.announcement),
        slot(x.doc(), "announcementDetails"@, 16) == opt_doc(x.announcement_details),
        slot(x.doc(), "joinCodeRequired"@, 17) == opt_doc(x.join_code_required),
        slot(x.doc(), "encrypted"@, 18) == opt_doc(x.encrypted),
        slot(x.doc(), "e2eKeyId"@, 19) == opt_doc(x.e2e_key_id),
        slot(x.doc(), "usersWaitingForE2EKeys"@, 20) == opt_doc(x.users_waiting_for_e2e_keys),
        slot(x.doc(), "ro"@, 21) == opt_doc(x.ro),
        slot(x.doc(), "reactWhenReadOnly"@, 22) == opt_doc(x.react_when_read_only),
        slot(x.doc(), "sysMes"@, 23) == opt_doc(x.sys_mes),
        slot(x.doc(), "cl"@, 24) == opt_doc(x.cl),
        slot(x.doc(), "archived"@, 25) == opt_doc(x.archived),
        slot(x.doc(), "muted"@, 26) == opt_doc(x.muted),
        slot(x.doc(), "unmuted"@, 27) == opt_doc(x.unmuted),
        slot(x.doc(), "lastMessage"@, 28) == opt_doc(x.last_message),
        slot(x.doc(), "lm"@, 29) == opt_doc(x.lm),
        slot(x.doc(), "ts"@, 30) == opt_doc(x.ts),
        slot(x.doc(), "webRtcCallStartTime"@, 31) == opt_doc(x.web_rtc_call_start_time),
        slot(x.doc(), "prid"@, 32) == opt_doc(x.prid),
        slot(x.doc(), "avatarETag"@, 33) == opt_doc(x.avatar_etag),
        slot(x.doc(), "teamMain"@, 34) == opt_doc(x.team_main),
        slot(x.doc(), "teamId"@, 35) == opt_doc(x.team_id),
        slot(x.doc(), "teamDefault"@, 36) == opt_doc(x.team_default),
        slot(x.doc(), "open"@, 37) == opt_doc(x.open),
        slot(x.doc(), "unread"@, 38) == opt_doc(x.unread),
        slot(x.doc(), "alert"@, 39) == opt_doc(x.alert),
        slot(x.doc(), "favorite"@, 40) == opt_doc(x.favorite),
        slot(x.doc(), "hideUnreadStatus"@, 41) == opt_doc(x.hide_unread_status),
        slot(x.doc(), "hideMentionStatus"@, 42) == opt_doc(x.hide_mention_status),
        slot(x.doc(), "autoTranslate"@, 43) == opt_doc(x.auto_translate),
        slot(x.doc(), "autoTranslateLanguage"@, 44) == opt_doc(x.auto_translate_language),
        slot(x.doc(), "retention"@, 45) == opt_doc(x.retention),
        slot(x.doc(), "abacAttributes"@, 46) == opt_doc(x.abac_attributes),
        slot(x.doc(), "rolePrioritiesCreated"@, 47) == opt_doc(x.role_priorities_created),
        slot(x.doc(), "customFields"@, 48) == opt_doc(x.custom_fields),
        slot(x.doc(), "federated"@, 49) == opt_doc(x.federated),
        slot(x.doc(), "federation"@, 50) == opt_doc(x.federation),
        slot(x.doc(), "v"@, 51) == opt_doc(x.v),
        slot(x.doc(), "source"@, 52) == opt_doc(x.source),
        slot(x.doc(), "servedBy"@, 53) == opt_doc(x.served_by),
        slot(x.doc(), "departmentId"@, 54) == opt_doc(x.department_id),
        slot(x.doc(), "onHold"@, 55) == opt_doc(x.on_hold),
        slot(x.doc(), "waitingResponse"@, 56) == opt_doc(x.waiting_response),
        slot(x.doc(), "queuedAt"@, 57) == opt_doc(x.queued_at),
        slot(x.doc(), "tags"@, 58) == opt_doc(x.tags),
        slot(x.doc(), "livechatData"@, 59) == opt_doc(x.livechat_data),
        slot(x.doc(), "metrics"@, 60) == opt_doc(x.metrics),
        slot(x.doc(), "transcriptRequest"@, 61) == opt_doc(x.transcript_request),
        slot(x.doc(), "priorityId"@, 62) == opt_doc(x.priority_id),
        slot(x.doc(), "priorityWeight"@, 63) == opt_doc(x.priority_weight),
        slot(x.doc(), "slaId"@, 64) == opt_doc(x.sla_id),
        slot(x.doc(), "estimatedWaitingTimeQueue"@, 65) == opt_doc(x.estimated_waiting_time_queue),
        slot(x.doc(), "contactId"@, 66) == opt_doc(x.contact_id),
        slot(x.doc(), "verified"@, 67) == opt_doc(x.verified),
        slot(x.doc(), "sms"@, 68) == opt_doc(x.sms),
        slot(x.doc(), "code"@, 69) == opt_doc(x.code),
        slot(x.doc(), "label"@, 70) == opt_doc(x.label),
        slot(x.doc(), "sentiment"@, 71) == opt_doc(x.sentiment),
{
    lemma_room_keys();
    let key = |i: int| room_key(i);
    let value = |i: int| room_value(x, i);
    let position = |s: Seq<char>| room_position(s);
    let m0 = Map::<Seq<char>, JsonView>::empty();
    lemma_holds_none(key, value, 72);
    let m1 = with(m0, "_id"@, x.id.doc());
    lemma_with(m0, "_id"@, x.id.doc());
    lemma_holds_more(m0, key, value, position, 72, 0, m1);
    let m2 = with(m1, "_updatedAt"@, x.updated_at.doc());
    lemma_with(m1, "_updatedAt"@, x.updated_at.doc());
    lemma_holds_more(m1, key, value, position, 72, 1, m2);
    let m3 = with(m2, "t"@, x.t.doc());
    lemma_with(m2, "t"@, x.t.doc());
    lemma_holds_more(m2, key, value, position, 72, 2, m3);
    let m4 = with_some(m3, "name"@, x.name);
    lemma_with_some(m3, "name"@, x.name);
    lemma_holds_more(m3, key, value, position, 72, 3, m4);
    let m5 = with_some(m4, "fname"@, x.fname);
    lemma_with_some(m4, "fname"@, x.fname);
    lemma_holds_more(m4, key, value, position, 72, 4, m5);
    let m6 = with_some(m5, "msgs"@, x.msgs);
    lemma_with_some(m5, "msgs"@, x.msgs);
    lemma_holds_more(m5, key, value, position, 72, 5, m6);
    let m7 = with_some(m6, "usersCount"@, x.users_count);
    lemma_with_some(m6, "usersCount"@, x.users_count);
    lemma_holds_more(m6, key, value, position, 72, 6, m7);
    let m8 = with_some(m7, "u"@, x.u);
    lemma_with_some(m7, "u"@, x.u);
    lemma_holds_more(m7, key, value, position, 72, 7, m8);
    let m9 = with_some(m8, "uids"@, x.uids);
    lemma_with_some(m8, "uids"@, x.uids);
    lemma_holds_more(m8, key, value, position, 72, 8, m9);
    let m10 = with_some(m9, "usernames"@, x.usernames);
    lemma_with_some(m9, "usernames"@, x.usernames);
    lemma_holds_more(m9, key, value, position, 72, 9, m10);
    let m11 = with_some(m10, "default"@, x.default);
    lemma_with_some(m10, "default"@, x.default);
    lemma_holds_more(m10, key, value, position, 72, 10, m11);
    let m12 = with_some(m11, "broadcast"@, x.broadcast);
    lemma_with_some(m11, "broadcast"@, x.broadcast);
    lemma_holds_more(m11, key, value, position, 72, 11, m12);
    let m13 = with_some(m12, "featured"@, x.featured);
    lemma_with_some(m12, "featured"@, x.featured);
    lemma_holds_more(m12, key, value, position, 72, 12, m13);
    let m14 = with_some(m13, "topic"@, x.topic);
    lemma_with_some(m13, "topic"@, x.topic);
    lemma_holds_more(m13, key, value, position, 72, 13, m14);
    let m15 = with_some(m14, "description"@, x.description);
    lemma_with_some(m14, "description"@, x.description);
    lemma_holds_more(m14, key, value, position, 72, 14, m15);
    let m16 = with_some(m15, "announcement"@, x.announcement);
    lemma_with_some(m15, "announcement"@, x.announcement);
    lemma_holds_more(m15, key, value, position, 72, 15, m16);
    let m17 = with_some(m16, "announcementDetails"@, x.announcement_details);
    lemma_with_some(m16, "announcementDetails"@, x.announcement_details);
    lemma_holds_more(m16, key, value, position, 72, 16, m17);
    let m18 = with_some(m17, "joinCodeRequired"@, x.join_code_required);
    lemma_with_some(m17, "joinCodeRequired"@, x.join_code_required);
    lemma_holds_more(m17, key, value, position, 72, 17, m18);
    let m19 = with_some(m18, "encrypted"@, x.encrypted);
    lemma_with_some(m18, "encrypted"@, x.encrypted);
    lemma_holds_more(m18, key, value, position, 72, 18, m19);
    let m20 = with_some(m19, "e2eKeyId"@, x.e2e_key_id);
    lemma_with_some(m19, "e2eKeyId"@, x.e2e_key_id);
    lemma_holds_more(m19, key, value, position, 72, 19, m20);
    let m21 = with_some(m20, "usersWaitingForE2EKeys"@, x.users_waiting_for_e2e_keys);
    lemma_with_some(m20, "usersWaitingForE2EKeys"@, x.users_waiting_for_e2e_keys);
    lemma_holds_more(m20, key, value, position, 72, 20, m21);
    let m22 = with_some(m21, "ro"@, x.ro);
    lemma_with_some(m21, "ro"@, x.ro);
    lemma_holds_more(m21, key, value, position, 72, 21, m22);
    let m23 = with_some(m22, "reactWhenReadOnly"@, x.react_when_read_only);
    lemma_with_some(m22, "reactWhenReadOnly"@, x.react_when_read_only);
    lemma_holds_more(m22, key, value, position, 72, 22, m23);
    let m24 = with_some(m23, "sysMes"@, x.sys_mes);
    lemma_with_some(m23, "sysMes"@, x.sys_mes);
    lemma_holds_more(m23, key, value, position, 72, 23, m24);
    let m25 = with_some(m24, "cl"@, x.cl);
    lemma_with_some(m24, "cl"@, x.cl);
    lemma_holds_more(m24, key, value, position, 72, 24, m25);
    let m26 = with_some(m25, "archived"@, x.archived);
    lemma_with_some(m25, "archived"@, x.archived);
    lemma_holds_more(m25, key, value, position, 72, 25, m26);
    let m27 = with_some(m26, "muted"@, x.muted);
    lemma_with_some(m26, "muted"@, x.muted);
    lemma_holds_more(m26, key, value, position, 72, 26, m27);
    let m28 = with_some(m27, "unmuted"@, x.unmuted);
    lemma_with_some(m27, "unmuted"@, x.unmuted);
    lemma_holds_more(m27, key, value, position, 72, 27, m28);
    let m29 = with_some(m28, "lastMessage"@, x.last_message);
    lemma_with_some(m28, "lastMessage"@, x.last_message);
    lemma_holds_more(m28, key, value, position, 72, 28, m29);
    let m30 = with_some(m29, "lm"@, x.lm);
    lemma_with_some(m29, "lm"@, x.lm);
    lemma_holds_more(m29, key, value, position, 72, 29, m30);
    let m31 = with_some(m30, "ts"@, x.ts);
    lemma_with_some(m30, "ts"@, x.ts);
    lemma_holds_more(m30, key, value, position, 72, 30, m31);
    let m32 = with_some(m31, "webRtcCallStartTime"@, x.web_rtc_call_start_time);
    lemma_with_some(m31, "webRtcCallStartTime"@, x.web_rtc_call_start_time);
    lemma_holds_more(m31, key, value, position, 72, 31, m32);
    let m33 = with_some(m32, "prid"@, x.prid);
    lemma_with_some(m32, "prid"@, x.prid);
    lemma_holds_more(m32, key, value, position, 72, 32, m33);
    let m34 = with_some(m33, "avatarETag"@, x.avatar_etag);
    lemma_with_some(m33, "avatarETag"@, x.avatar_etag);
    lemma_holds_more(m33, key, value, position, 72, 33, m34);
    let m35 = with_some(m34, "teamMain"@, x.team_main);
    lemma_with_some(m34, "teamMain"@, x.team_main);
    lemma_holds_more(m34, key, value, position, 72, 34, m35);
    let m36 = with_some(m35, "teamId"@, x.team_id);
    lemma_with_some(m35, "teamId"@, x.team_id);
    lemma_holds_more(m35, key, value, position, 72, 35, m36);
    let m37 = with_some(m36, "teamDefault"@, x.team_default);
    lemma_with_some(m36, "teamDefault"@, x.team_default);
    lemma_holds_more(m36, key, value, position, 72, 36, m37);
    let m38 = with_some(m37, "open"@, x.open);
    lemma_with_some(m37, "open"@, x.open);
    lemma_holds_more(m37, key, value, position, 72, 37, m38);
    let m39 = with_some(m38, "unread"@, x.unread);
    lemma_with_some(m38, "unread"@, x.unread);
    lemma_holds_more(m38, key, value, position, 72, 38, m39);
    let m40 = with_some(m39, "alert"@, x.alert);
    lemma_with_some(m39, "alert"@, x.alert);
    lemma_holds_more(m39, key, value, position, 72, 39, m40);
    let m41 = with_some(m40, "favorite"@, x.favorite);
    lemma_with_some(m40, "favorite"@, x.favorite);
    lemma_holds_more(m40, key, value, position, 72, 40, m41);
    let m42 = with_some(m41, "hideUnreadStatus"@, x.hide_unread_status);
    lemma_with_some(m41, "hideUnreadStatus"@, x.hide_unread_status);
    lemma_holds_more(m41, key, value, position, 72, 41, m42);
    let m43 = with_some(m42, "hideMentionStatus"@, x.hide_mention_status);
    lemma_with_some(m42, "hideMentionStatus"@, x.hide_mention_status);
    lemma_holds_more(m42, key, value, position, 72, 42, m43);
    let m44 = with_some(m43, "autoTranslate"@, x.auto_translate);
    lemma_with_some(m43, "autoTranslate"@, x.auto_translate);
    lemma_holds_more(m43, key, value, position, 72, 43, m44);
    let m45 = with_some(m44, "autoTranslateLanguage"@, x.auto_translate_language);
    lemma_with_some(m44, "autoTranslateLanguage"@, x.auto_translate_language);
    lemma_holds_more(m44, key, value, position, 72, 44, m45);
    let m46 = with_some(m45, "retention"@, x.retention);
    lemma_with_some(m45, "retention"@, x.retention);
    lemma_holds_more(m45, key, value, position, 72, 45, m46);
    let m47 = with_some(m46, "abacAttributes"@, x.abac_attributes);
    lemma_with_some(m46, "abacAttributes"@, x.abac_attributes);
    lemma_holds_more(m46, key, value, position, 72, 46, m47);
    let m48 = with_some(m47, "rolePrioritiesCreated"@, x.role_priorities_created);
    lemma_with_some(m47, "rolePrioritiesCreated"@, x.role_priorities_created);
    lemma_holds_more(m47, key, value, position, 72, 47, m48);
    let m49 = with_some(m48, "customFields"@, x.custom_fields);
    lemma_with_some(m48, "customFields"@, x.custom_fields);
    lemma_holds_more(m48, key, value, position, 72, 48, m49);
    let m50 = with_some(m49, "federated"@, x.federated);
    lemma_with_some(m49, "federated"@, x.federated);
    lemma_holds_more(m49, key, value, position, 72, 49, m50);
    let m51 = with_some(m50, "federation"@, x.federation);
    lemma_with_some(m50, "federation"@, x.federation);
    lemma_holds_more(m50, key, value, position, 72, 50, m51);
    let m52 = with_some(m51, "v"@, x.v);
    lemma_with_some(m51, "v"@, x.v);
    lemma_holds_more(m51, key, value, position, 72, 51, m52);
    let m53 = with_some(m52, "source"@, x.source);
    lemma_with_some(m52, "source"@, x.source);
    lemma_holds_more(m52, key, value, position, 72, 52, m53);
    let m54 = with_some(m53, "servedBy"@, x.served_by);
    lemma_with_some(m53, "servedBy"@, x.served_by);
    lemma_holds_more(m53, key, value, position, 72, 53, m54);
    let m55 = with_some(m54, "departmentId"@, x.department_id);
    lemma_with_some(m54, "departmentId"@, x.department_id);
    lemma_holds_more(m54, key, value, position, 72, 54, m55);
    let m56 = with_some(m55, "onHold"@, x.on_hold);
    lemma_with_some(m55, "onHold"@, x.on_hold);
    lemma_holds_more(m55, key, value, position, 72, 55, m56);
    let m57 = with_some(m56, "waitingResponse"@, x.waiting_response);
    lemma_with_some(m56, "waitingResponse"@, x.waiting_response);
    lemma_holds_more(m56, key, value, position, 72, 56, m57);
    let m58 = with_some(m57, "queuedAt"@, x.queued_at);
    lemma_with_some(m57, "queuedAt"@, x.queued_at);
    lemma_holds_more(m57, key, value, position, 72, 57, m58);
    let m59 = with_some(m58, "tags"@, x.tags);
    lemma_with_some(m58, "tags"@, x.tags);
    lemma_holds_more(m58, key, value, position, 72, 58, m59);
    let m60 = with_some(m59, "livechatData"@, x.livechat_data);
    lemma_with_some(m59, "livechatData"@, x.livechat_data);
    lemma_holds_more(m59, key, value, position, 72, 59, m60);
    let m61 = with_some(m60, "metrics"@, x.metrics);
    lemma_with_some(m60, "metrics"@, x.metrics);
    lemma_holds_more(m60, key, value, position, 72, 60, m61);
    let m62 = with_some(m61, "transcriptRequest"@, x.transcript_request);
    lemma_with_some(m61, "transcriptRequest"@, x.transcript_request);
    lemma_holds_more(m61, key, value, position, 72, 61, m62);
    let m63 = with_some(m62, "priorityId"@, x.priority_id);
    lemma_with_some(m62, "priorityId"@, x.priority_id);
    lemma_holds_more(m62, key, value, position, 72, 62, m63);
    let m64 = with_some(m63, "priorityWeight"@, x.priority_weight);
    lemma_with_some(m63, "priorityWeight"@, x.priority_weight);
    lemma_holds_more(m63, key, value, position, 72, 63, m64);
    let m65 = with_some(m64, "slaId"@, x.sla_id);
    lemma_with_some(m64, "slaId"@, x.sla_id);
    lemma_holds_more(m64, key, value, position, 72, 64, m65);
    let m66 = with_some(m65, "estimatedWaitingTimeQueue"@, x.estimated_waiting_time_queue);
    lemma_with_some(m65, "estimatedWaitingTimeQueue"@, x.estimated_waiting_time_queue);
    lemma_holds_more(m65, key, value, position, 72, 65, m66);
    let m67 = with_some(m66, "contactId"@, x.contact_id);
    lemma_with_some(m66, "contactId"@, x.contact_id);
    lemma_holds_more(m66, key, value, position, 72, 66, m67);
    let m68 = with_some(m67, "verified"@, x.verified);
    lemma_with_some(m67, "verified"@, x.verified);
    lemma_holds_more(m67, key, value, position, 72, 67, m68);
    let m69 = with_some(m68, "sms"@, x.sms);
    lemma_with_some(m68, "sms"@, x.sms);
    lemma_holds_more(m68, key, value, position, 72, 68, m69);
    let m70 = with_some(m69, "code"@, x.code);
    lemma_with_some(m69, "code"@, x.code);
    lemma_holds_more(m69, key, value, position, 72, 69, m70);
    let m71 = with_some(m70, "label"@, x.label);
    lemma_with_some(m70, "label"@, x.label);
    lemma_holds_more(m70, key, value, position, 72, 70, m71);
    let m72 = with_some(m71, "sentiment"@, x.sentiment);
    lemma_with_some(m71, "sentiment"@, x.sentiment);
    lemma_holds_more(m71, key, value, position, 72, 71, m72);
    lemma_held(m72, key, value, 72, 0);
    lemma_held(m72, key, value, 72, 1);
    lemma_held(m72, key, value, 72, 2);
    lemma_held(m72, key, value, 72, 3);
    lemma_held(m72, key, value, 72, 4);
    lemma_held(m72, key, value, 72, 5);
    lemma_held(m72, key, value, 72, 6);
    lemma_held(m72, key, value, 72, 7);
    lemma_held(m72, key, value, 72, 8);
    lemma_held(m72, key, value, 72, 9);
    lemma_held(m72, key, value, 72, 10);
    lemma_held(m72, key, value, 72, 11);
    lemma_held(m72, key, value, 72, 12);
    lemma_held(m72, key, value, 72, 13);
    lemma_held(m72, key, value, 72, 14);
    lemma_held(m72, key, value, 72, 15);
    lemma_held(m72, key, value, 72, 16);
    lemma_held(m72, key, value, 72, 17);
    lemma_held(m72, key, value, 72, 18);
    lemma_held(m72, key, value, 72, 19);
    lemma_held(m72, key, value, 72, 20);
    lemma_held(m72, key, value, 72, 21);
    lemma_held(m72, key, value, 72, 22);
    lemma_held(m72, key, value, 72, 23);
    lemma_held(m72, key, value, 72, 24);
    lemma_held(m72, key, value, 72, 25);
    lemma_held(m72, key, value, 72, 26);
    lemma_held(m72, key, value, 72, 27);
    lemma_held(m72, key, value, 72, 28);
    lemma_held(m72, key, value, 72, 29);
    lemma_held(m72, key, value, 72, 30);
    lemma_held(m72, key, value, 72, 31);
    lemma_held(m72, key, value, 72, 32);
    lemma_held(m72, key, value, 72, 33);
    lemma_held(m72, key, value, 72, 34);
    lemma_held(m72, key, value, 72, 35);
    lemma_held(m72, key, value, 72, 36);
    lemma_held(m72, key, value, 72, 37);
    lemma_held(m72, key, value, 72, 38);
    lemma_held(m72, key, value, 72, 39);
    lemma_held(m72, key, value, 72, 40);
    lemma_held(m72, key, value, 72, 41);
    lemma_held(m72, key, value, 72, 42);
    lemma_held(m72, key, value, 72, 43);
    lemma_held(m72, key, value, 72, 44);
    lemma_held(m72, key, value, 72, 45);
    lemma_held(m72, key, value, 72, 46);
    lemma_held(m72, key, value, 72, 47);
    lemma_held(m72, key, value, 72, 48);
    lemma_held(m72, key, value, 72, 49);
    lemma_held(m72, key, value, 72, 50);
    lemma_held(m72, key, value, 72, 51);
    lemma_held(m72, key, value, 72, 52);
    lemma_held(m72, key, value, 72, 53);
    lemma_held(m72, key, value, 72, 54);
    lemma_held(m72, key, value, 72, 55);
    lemma_held(m72, key, value, 72, 56);
    lemma_held(m72, key, value, 72, 57);
    lemma_held(m72, key, value, 72, 58);
    lemma_held(m72, key, value, 72, 59);
    lemma_held(m72, key, value, 72, 60);
    lemma_held(m72, key, value, 72, 61);
    lemma_held(m72, key, value, 72, 62);
    lemma_held(m72, key, value, 72, 63);
    lemma_held(m72, key, value, 72, 64);
    lemma_held(m72, key, value, 72, 65);
    lemma_held(m72, key, value, 72, 66);
    lemma_held(m72, key, value, 72, 67);
    lemma_held(m72, key, value, 72, 68);
    lemma_held(m72, key, value, 72, 69);
    lemma_held(m72, key, value, 72, 70);
    lemma_held(m72, key, value, 72, 71);
    assert(x.doc() == JsonView::Object(m72));
}

/// A written [`Room`] can be read.
proof fn lemma_room_accepted(x: Room)
    requires
        x.writable(),
    ensures
        Room::accepts(x.doc()),
{
    law_room_members(x);
    lemma_required(x.id, x.id);
    lemma_required(x.updated_at, x.updated_at);
    lemma_required(x.t, x.t);
    lemma_optional(x.name, x.name);
    lemma_optional(x.fname, x.fname);
    lemma_optional(x.msgs, x.msgs);
    lemma_optional(x.users_count, x.users_count);
    lemma_optional(x.u, x.u);
    lemma_optional(x.uids, x.uids);
    lemma_optional(x.usernames, x.usernames);
    lemma_optional(x.default, x.default);
    lemma_optional(x.broadcast, x.broadcast);
    lemma_optional(x.featured, x.featured);
    lemma_optional(x.topic, x.topic);
    lemma_optional(x.description, x.description);
    lemma_optional(x.announcement, x.announcement);
    lemma_optional(x.announcement_details, x.announcement_details);
    lemma_optional(x.join_code_required, x.join_code_required);
    lemma_optional(x.encrypted, x.encrypted);
    lemma_optional(x.e2e_key_id, x.e2e_key_id);
    lemma_optional(x.users_waiting_for_e2e_keys, x.users_waiting_for_e2e_keys);
    lemma_optional(x.ro, x.ro);
    lemma_optional(x.react_when_read_only, x.react_when_read_only);
    lemma_optional(x.sys_mes, x.sys_mes);
    lemma_optional(x.cl, x.cl);
    lemma_optional(x.archived, x.archived);
    lemma_optional(x.muted, x.muted);
    lemma_optional(x.unmuted, x.unmuted);
    lemma_optional(x.last_message, x.last_message);
    lemma_date(x.lm, x.lm);
    lemma_date(x.ts, x.ts);
    lemma_date(x.web_rtc_call_start_time, x.web_rtc_call_start_time);
    lemma_optional(x.prid, x.prid);
    lemma_optional(x.avatar_etag, x.avatar_etag);
    lemma_optional(x.team_main, x.team_main);
    lemma_optional(x.team_id, x.team_id);
    lemma_optional(x.team_default, x.team_default);
    lemma_optional(x.open, x.open);
    lemma_optional(x.unread, x.unread);
    lemma_optional(x.alert, x.alert);
    lemma_optional(x.favorite, x.favorite);
    lemma_optional(x.hide_unread_status, x.hide_unread_status);
    lemma_optional(x.hide_mention_status, x.hide_mention_status);
    lemma_optional(x.auto_translate, x.auto_translate);
    lemma_optional(x.auto_translate_language, x.auto_translate_language);
    lemma_optional(x.retention, x.retention);
    lemma_optional(x.abac_attributes, x.abac_attributes);
    lemma_optional(x.role_priorities_created, x.role_priorities_created);
    lemma_optional(x.custom_fields, x.custom_fields);
    lemma_optional(x.federated, x.federated);
    lemma_optional(x.federation, x.federation);
    lemma_optional(x.v, x.v);
    lemma_optional(x.source, x.source);
    lemma_optional(x.served_by, x.served_by);
    lemma_optional(x.department_id, x.department_id);
    lemma_optional(x.on_hold, x.on_hold);
    lemma_optional(x.waiting_response, x.waiting_response);
    lemma_date(x.queued_at, x.queued_at);
    lemma_optional(x.tags, x.tags);
    lemma_optional(x.livechat_data, x.livechat_data);
    lemma_optional(x.metrics, x.metrics);
    lemma_optional(x.transcript_request, x.transcript_request);
    lemma_optional(x.priority_id, x.priority_id);
    lemma_optional(x.priority_weight, x.priority_weight);
    lemma_optional(x.sla_id, x.sla_id);
    lemma_optional(x.estimated_waiting_time_queue, x.estimated_waiting_time_queue);
    lemma_optional(x.contact_id, x.contact_id);
    lemma_optional(x.verified, x.verified);
    lemma_optional(x.sms, x.sms);
    lemma_optional(x.code, x.code);
    lemma_optional(x.label, x.label);
    lemma_optional(x.sentiment, x.sentiment);
}

/// Two [`Room`]s whose fields are written the same are written the same.
pub proof fn lemma_room_same(x: Room, y: Room)
    requires
        x.id.doc() == y.id.doc(),
        x.updated_at.doc() == y.updated_at.doc(),
        x.t.doc() == y.t.doc(),
        same_doc(x.name, y.name),
        same_doc(x.fname, y.fname),
        same_doc(x.msgs, y.msgs),
        same_doc(x.users_count, y.users_count),
        same_doc(x.u, y.u),
        same_doc(x.uids, y.uids),
        same_doc(x.usernames, y.usernames),
        same_doc(x.default, y.default),
        same_doc(x.broadcast, y.broadcast),
        same_doc(x.featured, y.featured),
        same_doc(x.topic, y.topic),
        same_doc(x.description, y.description),
        same_doc(x.announcement, y.announcement),
        same_doc(x.announcement_details, y.announcement_details),
        same_doc(x.join_code_required, y.join_code_required),
        same_doc(x.encrypted, y.encrypted),
        same_doc(x.e2e_key_id, y.e2e_key_id),
        same_doc(x.users_waiting_for_e2e_keys, y.users_waiting_for_e2e_keys),
        same_doc(x.ro, y.ro),
        same_doc(x.react_when_read_only, y.react_when_read_only),
        same_doc(x.sys_mes, y.sys_mes),
        same_doc(x.cl, y.cl),
        same_doc(x.archived, y.archived),
        same_doc(x.muted, y.muted),
        same_doc(x.unmuted, y.unmuted),
        same_doc(x.last_message, y.last_message),
        same_doc(x.lm, y.lm),
        same_doc(x.ts, y.ts),
        same_doc(x.web_rtc_call_start_time, y.web_rtc_call_start_time),
        same_doc(x.prid, y.prid),
        same_doc(x.avatar_etag, y.avatar_etag),
        same_doc(x.team_main, y.team_main),
        same_doc(x.team_id, y.team_id),
        same_doc(x.team_default, y.team_default),
        same_doc(x.open, y.open),
        same_doc(x.unread, y.unread),
        same_doc(x.alert, y.alert),
        same_doc(x.favorite, y.favorite),
        same_doc(x.hide_unread_status, y.hide_unread_status),
        same_doc(x.hide_mention_status, y.hide_mention_status),
        same_doc(x.auto_translate, y.auto_translate),
        same_doc(x.auto_translate_language, y.auto_translate_language),
        same_doc(x.retention, y.retention),
        same_doc(x.abac_attributes, y.abac_attributes),
        same_doc(x.role_priorities_created, y.role_priorities_created),
        same_doc(x.custom_fields, y.custom_fields),
        same_doc(x.federated, y.federated),
        same_doc(x.federation, y.federation),
        same_doc(x.v, y.v),
        same_doc(x.source, y.source),
        same_doc(x.served_by, y.served_by),
        same_doc(x.department_id, y.department_id),
        same_doc(x.on_hold, y.on_hold),
        same_doc(x.waiting_response, y.waiting_response),
        same_doc(x.queued_at, y.queued_at),
        same_doc(x.tags, y.tags),
        same_doc(x.livechat_data, y.livechat_data),
        same_doc(x.metrics, y.metrics),
        same_doc(x.transcript_request, y.transcript_request),
        same_doc(x.priority_id, y.priority_id),
        same_doc(x.priority_weight, y.priority_weight),
        same_doc(x.sla_id, y.sla_id),
        same_doc(x.estimated_waiting_time_queue, y.estimated_waiting_time_queue),
        same_doc(x.contact_id, y.contact_id),
        same_doc(x.verified, y.verified),
        same_doc(x.sms, y.sms),
        same_doc(x.code, y.code),
        same_doc(x.label, y.label),
        same_doc(x.sentiment, y.sentiment),
    ensures
        x.doc() == y.doc(),
{
    let m0 = Map::<Seq<char>, JsonView>::empty();
    let m1 = with(m0, "_id"@, x.id.doc());
    let m2 = with(m1, "_updatedAt"@, x.updated_at.doc());
    let m3 = with(m2, "t"@, x.t.doc());
    let m4 = with_some(m3, "name"@, x.name);
    lemma_same_some(m3, "name"@, x.name, y.name);
    let m5 = with_some(m4, "fname"@, x.fname);
    lemma_same_some(m4, "fname"@, x.fname, y.fname);
    let m6 = with_some(m5, "msgs"@, x.msgs);
    lemma_same_some(m5, "msgs"@, x.msgs, y.msgs);
    let m7 = with_some(m6, "usersCount"@, x.users_count);
    lemma_same_some(m6, "usersCount"@, x.users_count, y.users_count);
    let m8 = with_some(m7, "u"@, x.u);
    lemma_same_some(m7, "u"@, x.u, y.u);
    let m9 = with_some(m8, "uids"@, x.uids);
    lemma_same_some(m8, "uids"@, x.uids, y.uids);
    let m10 = with_some(m9, "usernames"@, x.usernames);
    lemma_same_some(m9, "usernames"@, x.usernames, y.usernames);
    let m11 = with_some(m10, "default"@, x.default);
    lemma_same_some(m10, "default"@, x.default, y.default);
    let m12 = with_some(m11, "broadcast"@, x.broadcast);
    lemma_same_some(m11, "broadcast"@, x.broadcast, y.broadcast);
    let m13 = with_some(m12, "featured"@, x.featured);
    lemma_same_some(m12, "featured"@, x.featured, y.featured);
    let m14 = with_some(m13, "topic"@, x.topic);
    lemma_same_some(m13, "topic"@, x.topic, y.topic);
    let m15 = with_some(m14, "description"@, x.description);
    lemma_same_some(m14, "description"@, x.description, y.description);
    let m16 = with_some(m15, "announcement"@, x.announcement);
    lemma_same_some(m15, "announcement"@, x.announcement, y.announcement);
    let m17 = with_some(m16, "announcementDetails"@, x.announcement_details);
    lemma_same_some(m16, "announcementDetails"@, x.announcement_details, y.announcement_details);
    let m18 = with_some(m17, "joinCodeRequired"@, x.join_code_required);
    lemma_same_some(m17, "joinCodeRequired"@, x.join_code_required, y.join_code_required);
    let m19 = with_some(m18, "encrypted"@, x.encrypted);
    lemma_same_some(m18, "encrypted"@, x.encrypted, y.encrypted);
    let m20 = with_some(m19, "e2eKeyId"@, x.e2e_key_id);
    lemma_same_some(m19, "e2eKeyId"@, x.e2e_key_id, y.e2e_key_id);
    let m21 = with_some(m20, "usersWaitingForE2EKeys"@, x.users_waiting_for_e2e_keys);
    lemma_same_some(m20, "usersWaitingForE2EKeys"@, x.users_waiting_for_e2e_keys, y.users_waiting_for_e2e_keys);
    let m22 = with_some(m21, "ro"@, x.ro);
    lemma_same_some(m21, "ro"@, x.ro, y.ro);
    let m23 = with_some(m22, "reactWhenReadOnly"@, x.react_when_read_only);
    lemma_same_some(m22, "reactWhenReadOnly"@, x.react_when_read_only, y.react_when_read_only);
    let m24 = with_some(m23, "sysMes"@, x.sys_mes);
    lemma_same_some(m23, "sysMes"@, x.sys_mes, y.sys_mes);
    let m25 = with_some(m24, "cl"@, x.cl);
    lemma_same_some(m24, "cl"@, x.cl, y.cl);
    let m26 = with_some(m25, "archived"@, x.archived);
    lemma_same_some(m25, "archived"@, x.archived, y.archived);
    let m27 = with_some(m26, "muted"@, x.muted);
    lemma_same_some(m26, "muted"@, x.muted, y.muted);
    let m28 = with_some(m27, "unmuted"@, x.unmuted);
    lemma_same_some(m27, "unmuted"@, x.unmuted, y.unmuted);
    let m29 = with_some(m28, "lastMessage"@, x.last_message);
    lemma_same_some(m28, "lastMessage"@, x.last_message, y.last_message);
    let m30 = with_some(m29, "lm"@, x.lm);
    lemma_same_some(m29, "lm"@, x.lm, y.lm);
    let m31 = with_some(m30, "ts"@, x.ts);
    lemma_same_some(m30, "ts"@, x.ts, y.ts);
    let m32 = with_some(m31, "webRtcCallStartTime"@, x.web_rtc_call_start_time);
    lemma_same_some(m31, "webRtcCallStartTime"@, x.web_rtc_call_start_time, y.web_rtc_call_start_time);
    let m33 = with_some(m32, "prid"@, x.prid);
    lemma_same_some(m32, "prid"@, x.prid, y.prid);
    let m34 = with_some(m33, "avatarETag"@, x.avatar_etag);
    lemma_same_some(m33, "avatarETag"@, x.avatar_etag, y.avatar_etag);
    let m35 = with_some(m34, "teamMain"@, x.team_main);
    lemma_same_some(m34, "teamMain"@, x.team_main, y.team_main);
    let m36 = with_some(m35, "teamId"@, x.team_id);
    lemma_same_some(m35, "teamId"@, x.team_id, y.team_id);
    let m37 = with_some(m36, "teamDefault"@, x.team_default);
    lemma_same_some(m36, "teamDefault"@, x.team_default, y.team_default);
    let m38 = with_some(m37, "open"@, x.open);
    lemma_same_some(m37, "open"@, x.open, y.open);
    let m39 = with_some(m38, "unread"@, x.unread);
    lemma_same_some(m38, "unread"@, x.unread, y.unread);
    let m40 = with_some(m39, "alert"@, x.alert);
    lemma_same_some(m39, "alert"@, x.alert, y.alert);
    let m41 = with_some(m40, "favorite"@, x.favorite);
    lemma_same_some(m40, "favorite"@, x.favorite, y.favorite);
    let m42 = with_some(m41, "hideUnreadStatus"@, x.hide_unread_status);
    lemma_same_some(m41, "hideUnreadStatus"@, x.hide_unread_status, y.hide_unread_status);
    let m43 = with_some(m42, "hideMentionStatus"@, x.hide_mention_status);
    lemma_same_some(m42, "hideMentionStatus"@, x.hide_mention_status, y.hide_mention_status);
    let m44 = with_some(m43, "autoTranslate"@, x.auto_translate);
    lemma_same_some(m43, "autoTranslate"@, x.auto_translate, y.auto_translate);
    let m45 = with_some(m44, "autoTranslateLanguage"@, x.auto_translate_language);
    lemma_same_some(m44, "autoTranslateLanguage"@, x.auto_translate_language, y.auto_translate_language);
    let m46 = with_some(m45, "retention"@, x.retention);
    lemma_same_some(m45, "retention"@, x.retention, y.retention);
    let m47 = with_some(m46, "abacAttributes"@, x.abac_attributes);
    lemma_same_some(m46, "abacAttributes"@, x.abac_attributes, y.abac_attributes);
    let m48 = with_some(m47, "rolePrioritiesCreated"@, x.role_priorities_created);
    lemma_same_some(m47, "rolePrioritiesCreated"@, x.role_priorities_created, y.role_priorities_created);
    let m49 = with_some(m48, "customFields"@, x.custom_fields);
    lemma_same_some(m48, "customFields"@, x.custom_fields, y.custom_fields);
    let m50 = with_some(m49, "federated"@, x.federated);
    lemma_same_some(m49, "federated"@, x.federated, y.federated);
    let m51 = with_some(m50, "federation"@, x.federation);
    lemma_same_some(m50, "federation"@, x.federation, y.federation);
    let m52 = with_some(m51, "v"@, x.v);
    lemma_same_some(m51, "v"@, x.v, y.v);
    let m53 = with_some(m52, "source"@, x.source);
    lemma_same_some(m52, "source"@, x.source, y.source);
    let m54 = with_some(m53, "servedBy"@, x.served_by);
    lemma_same_some(m53, "servedBy"@, x.served_by, y.served_by);
    let m55 = with_some(m54, "departmentId"@, x.department_id);
    lemma_same_some(m54, "departmentId"@, x.department_id, y.department_id);
    let m56 = with_some(m55, "onHold"@, x.on_hold);
    lemma_same_some(m55, "onHold"@, x.on_hold, y.on_hold);
    let m57 = with_some(m56, "waitingResponse"@, x.waiting_response);
    lemma_same_some(m56, "waitingResponse"@, x.waiting_response, y.waiting_response);
    let m58 = with_some(m57, "queuedAt"@, x.queued_at);
    lemma_same_some(m57, "queuedAt"@, x.queued_at, y.queued_at);
    let m59 = with_some(m58, "tags"@, x.tags);
    lemma_same_some(m58, "tags"@, x.tags, y.tags);
    let m60 = with_some(m59, "livechatData"@, x.livechat_data);
    lemma_same_some(m59, "livechatData"@, x.livechat_data, y.livechat_data);
    let m61 = with_some(m60, "metrics"@, x.metrics);
    lemma_same_some(m60, "metrics"@, x.metrics, y.metrics);
    let m62 = with_some(m61, "transcriptRequest"@, x.transcript_request);
    lemma_same_some(m61, "transcriptRequest"@, x.transcript_request, y.transcript_request);
    let m63 = with_some(m62, "priorityId"@, x.priority_id);
    lemma_same_some(m62, "priorityId"@, x.priority_id, y.priority_id);
    let m64 = with_some(m63, "priorityWeight"@, x.priority_weight);
    lemma_same_some(m63, "priorityWeight"@, x.priority_weight, y.priority_weight);
    let m65 = with_some(m64, "slaId"@, x.sla_id);
    lemma_same_some(m64, "slaId"@, x.sla_id, y.sla_id);
    let m66 = with_some(m65, "estimatedWaitingTimeQueue"@, x.estimated_waiting_time_queue);
    lemma_same_some(m65, "estimatedWaitingTimeQueue"@, x.estimated_waiting_time_queue, y.estimated_waiting_time_queue);
    let m67 = with_some(m66, "contactId"@, x.contact_id);
    lemma_same_some(m66, "contactId"@, x.contact_id, y.contact_id);
    let m68 = with_some(m67, "verified"@, x.verified);
    lemma_same_some(m67, "verified"@, x.verified, y.verified);
    let m69 = with_some(m68, "sms"@, x.sms);
    lemma_same_some(m68, "sms"@, x.sms, y.sms);
    let m70 = with_some(m69, "code"@, x.code);
    lemma_same_some(m69, "code"@, x.code, y.code);
    let m71 = with_some(m70, "label"@, x.label);
    lemma_same_some(m70, "label"@, x.label, y.label);
    let m72 = with_some(m71, "sentiment"@, x.sentiment);
    lemma_same_some(m71, "sentiment"@, x.sentiment, y.sentiment);
}

impl RoundTrip for Room {
    open spec fn writable(&self) -> bool {
        &&& self.id.writable()
        &&& self.updated_at.writable()
        &&& self.t.writable()
        &&& opt_writable(self.name)
        &&& opt_writable(self.fname)
        &&& opt_writable(self.msgs)
        &&& opt_writable(self.users_count)
        &&& opt_writable(self.u)
        &&& opt_writable(self.uids)
        &&& opt_writable(self.usernames)
        &&& opt_writable(self.default)
        &&& opt_writable(self.broadcast)
        &&& opt_writable(self.featured)
        &&& opt_writable(self.topic)
        &&& opt_writable(self.description)
        &&& opt_writable(self.announcement)
        &&& opt_writable(self.announcement_details)
        &&& opt_writable(self.join_code_required)
        &&& opt_writable(self.encrypted)
        &&& opt_writable(self.e2e_key_id)
        &&& opt_writable(self.users_waiting_for_e2e_keys)
        &&& opt_writable(self.ro)
        &&& opt_writable(self.react_when_read_only)
        &&& opt_writable(self.sys_mes)
        &&& opt_writable(self.cl)
        &&& opt_writable(self.archived)
        &&& opt_writable(self.muted)
        &&& opt_writable(self.unmuted)
        &&& opt_writable(self.last_message)
        &&& opt_writable(self.lm)
        &&& opt_writable(self.ts)
        &&& opt_writable(self.web_rtc_call_start_time)
        &&& opt_writable(self.prid)
        &&& opt_writable(self.avatar_etag)
        &&& opt_writable(self.team_main)
        &&& opt_writable(self.team_id)
        &&& opt_writable(self.team_default)
        &&& opt_writable(self.open)
        &&& opt_writable(self.unread)
        &&& opt_writable(self.alert)
        &&& opt_writable(self.favorite)
        &&& opt_writable(self.hide_unread_status)
        &&& opt_writable(self.hide_mention_status)
        &&& opt_writable(self.auto_translate)
        &&& opt_writable(self.auto_translate_language)
        &&& opt_writable(self.retention)
        &&& opt_writable(self.abac_attributes)
        &&& opt_writable(self.role_priorities_created)
        &&& opt_writable(self.custom_fields)
        &&& opt_writable(self.federated)
        &&& opt_writable(self.federation)
        &&& opt_writable(self.v)
        &&& opt_writable(self.source)
        &&& opt_writable(self.served_by)
        &&& opt_writable(self.department_id)
        &&& opt_writable(self.on_hold)
        &&& opt_writable(self.waiting_response)
        &&& opt_writable(self.queued_at)
        &&& opt_writable(self.tags)
        &&& opt_writable(self.livechat_data)
        &&& opt_writable(self.metrics)
        &&& opt_writable(self.transcript_request)
        &&& opt_writable(self.priority_id)
        &&& opt_writable(self.priority_weight)
        &&& opt_writable(self.sla_id)
        &&& opt_writable(self.estimated_waiting_time_queue)
        &&& opt_writable(self.contact_id)
        &&& opt_writable(self.verified)
        &&& opt_writable(self.sms)
        &&& opt_writable(self.code)
        &&& opt_writable(self.label)
        &&& opt_writable(self.sentiment)
    }

    proof fn law_round_trip(&self, back: &Room) {
        lemma_room_accepted(*self);
        if back.read_from(self.doc()) {
            law_room_members(*self);
            lemma_required(self.id, back.id);
            lemma_required(self.updated_at, back.updated_at);
            lemma_required(self.t, back.t);
            lemma_optional(self.name, back.name);
            lemma_optional(self.fname, back.fname);
            lemma_optional(self.msgs, back.msgs);
            lemma_optional(self.users_count, back.users_count);
            lemma_optional(self.u, back.u);
            lemma_optional(self.uids, back.uids);
            lemma_optional(self.usernames, back.usernames);
            lemma_optional(self.default, back.default);
            lemma_optional(self.broadcast, back.broadcast);
            lemma_optional(self.featured, back.featured);
            lemma_optional(self.topic, back.topic);
            lemma_optional(self.description, back.description);
            lemma_optional(self.announcement, back.announcement);
            lemma_optional(self.announcement_details, back.announcement_details);
            lemma_optional(self.join_code_required, back.join_code_required);
            lemma_optional(self.encrypted, back.encrypted);
            lemma_optional(self.e2e_key_id, back.e2e_key_id);
            lemma_optional(self.users_waiting_for_e2e_keys, back.users_waiting_for_e2e_keys);
            lemma_optional(self.ro, back.ro);
            lemma_optional(self.react_when_read_only, back.react_when_read_only);
            lemma_optional(self.sys_mes, back.sys_mes);
            lemma_optional(self.cl, back.cl);
            lemma_optional(self.archived, back.archived);
            lemma_optional(self.muted, back.muted);
            lemma_optional(self.unmuted, back.unmuted);
            lemma_optional(self.last_message, back.last_message);
            lemma_date(self.lm, back.lm);
            lemma_date(self.ts, back.ts);
            lemma_date(self.web_rtc_call_start_time, back.web_rtc_call_start_time);
            lemma_optional(self.prid, back.prid);
            lemma_optional(self.avatar_etag, back.avatar_etag);
            lemma_optional(self.team_main, back.team_main);
            lemma_optional(self.team_id, back.team_id);
            lemma_optional(self.team_default, back.team_default);
            lemma_optional(self.open, back.open);
            lemma_optional(self.unread, back.unread);
            lemma_optional(self.alert, back.alert);
            lemma_optional(self.favorite, back.favorite);
            lemma_optional(self.hide_unread_status, back.hide_unread_status);
            lemma_optional(self.hide_mention_status, back.hide_mention_status);
            lemma_optional(self.auto_translate, back.auto_translate);
            lemma_optional(self.auto_translate_language, back.auto_translate_language);
            lemma_optional(self.retention, back.retention);
            lemma_optional(self.abac_attributes, back.abac_attributes);
            lemma_optional(self.role_priorities_created, back.role_priorities_created);
            lemma_optional(self.custom_fields, back.custom_fields);
            lemma_optional(self.federated, back.federated);
            lemma_optional(self.federation, back.federation);
            lemma_optional(self.v, back.v);
            lemma_optional(self.source, back.source);
            lemma_optional(self.served_by, back.served_by);
            lemma_optional(self.department_id, back.department_id);
            lemma_optional(self.on_hold, back.on_hold);
            lemma_optional(self.waiting_response, back.waiting_response);
            lemma_date(self.queued_at, back.queued_at);
            lemma_optional(self.tags, back.tags);
            lemma_optional(self.livechat_data, back.livechat_data);
            lemma_optional(self.metrics, back.metrics);
            lemma_optional(self.transcript_request, back.transcript_request);
            lemma_optional(self.priority_id, back.priority_id);
            lemma_optional(self.priority_weight, back.priority_weight);
            lemma_optional(self.sla_id, back.sla_id);
            lemma_optional(self.estimated_waiting_time_queue, back.estimated_waiting_time_queue);
            lemma_optional(self.contact_id, back.contact_id);
            lemma_optional(self.verified, back.verified);
            lemma_optional(self.sms, back.sms);
            lemma_optional(self.code, back.code);
            lemma_optional(self.label, back.label);
            lemma_optional(self.sentiment, back.sentiment);
            lemma_room_same(*back, *self);
        }
    }
}

} // verus!

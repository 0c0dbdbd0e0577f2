//! A subscription comes back as it was.
use crate::model::entity::subscription::Subscription;
use crate::model::faithful::{
    lemma_date, lemma_held, lemma_holds_more, lemma_holds_none, lemma_optional, lemma_placed_more,
    lemma_placed_none, lemma_required, lemma_same_some, lemma_with, lemma_with_some, opt_doc,
    opt_writable, placed, tag, RoundTrip,
};
use crate::model::json::JsonView;
use crate::model::wire::{same_doc, slot, with, with_some, Decode, Encode};
use vstd::prelude::*;
use vstd::string::*;

verus! {

/// The names of the members of a [`Subscription`], in order.
spec fn subscription_key(i: int) -> Seq<char> {
    if i == 0 {
        "_id"@
    } else if i == 1 {
        "_updatedAt"@
    } else if i == 2 {
        "rid"@
    } else if i == 3 {
        "u"@
    } else if i == 4 {
        "t"@
    } else if i == 5 {
        "ts"@
    } else if i == 6 {
        "name"@
    } else if i == 7 {
        "open"@
    } else if i == 8 {
        "unread"@
    } else if i == 9 {
        "userMentions"@
    } else if i == 10 {
        "groupMentions"@
    } else if i == 11 {
        "fname"@
    } else if i == 12 {
        "alert"@
    } else if i == 13 {
        "ls"@
    } else if i == 14 {
        "lr"@
    } else if i == 15 {
        "f"@
    } else if i == 16 {
        "hideUnreadStatus"@
    } else if i == 17 {
        "hideMentionStatus"@
    } else if i == 18 {
        "teamMain"@
    } else if i == 19 {
        "teamId"@
    } else if i == 20 {
        "broadcast"@
    } else if i == 21 {
        "prid"@
    } else if i == 22 {
        "tunread"@
    } else if i == 23 {
        "tunreadGroup"@
    } else if i == 24 {
        "tunreadUser"@
    } else if i == 25 {
        "roles"@
    } else if i == 26 {
        "onHold"@
    } else if i == 27 {
        "encrypted"@
    } else if i == 28 {
        "E2EKey"@
    } else if i == 29 {
        "E2ESuggestedKey"@
    } else if i == 30 {
        "oldRoomKeys"@
    } else if i == 31 {
        "suggestedOldRoomKeys"@
    } else if i == 32 {
        "unreadAlert"@
    } else if i == 33 {
        "desktopNotifications"@
    } else if i == 34 {
        "mobilePushNotifications"@
    } else if i == 35 {
        "emailNotifications"@
    } else if i == 36 {
        "desktopPrefOrigin"@
    } else if i == 37 {
        "mobilePrefOrigin"@
    } else if i == 38 {
        "emailPrefOrigin"@
    } else if i == 39 {
        "audioNotificationValue"@
    } else if i == 40 {
        "disableNotifications"@
    } else if i == 41 {
        "muteGroupMentions"@
    } else if i == 42 {
        "userHighlights"@
    } else if i == 43 {
        "ignored"@
    } else if i == 44 {
        "archived"@
    } else if i == 45 {
        "autoTranslate"@
    } else if i == 46 {
        "autoTranslateLanguage"@
    } else if i == 47 {
        "blocked"@
    } else if i == 48 {
        "blocker"@
    } else if i == 49 {
        "draft"@
    } else if i == 50 {
        "threadDrafts"@
    } else if i == 51 {
        "status"@
    } else if i == 52 {
        "inviter"@
    } else if i == 53 {
        "v"@
    } else if i == 54 {
        "department"@
    } else if i == 55 {
        "code"@
    } else if i == 56 {
        "abacLastTimeChecked"@
    } else if i == 57 {
        "customFields"@
    } else {
        Seq::empty()
    }
}

/// What each member of a [`Subscription`] is written as.
spec fn subscription_value(x: Subscription, i: int) -> Option<JsonView> {
    if i == 0 {
        Some(x.id.doc())
    } else if i == 1 {
        Some(x.updated_at.doc())
    } else if i == 2 {
        Some(x.rid.doc())
    } else if i == 3 {
        Some(x.u.doc())
    } else if i == 4 {
        Some(x.t.doc())
    } else if i == 5 {
        Some(x.ts.doc())
    } else if i == 6 {
        Some(x.name.doc())
    } else if i == 7 {
        Some(x.open.doc())
    } else if i == 8 {
        Some(x.unread.doc())
    } else if i == 9 {
        Some(x.user_mentions.doc())
    } else if i == 10 {
        Some(x.group_mentions.doc())
    } else if i == 11 {
        opt_doc(x.fname)
    } else if i == 12 {
        opt_doc(x.alert)
    } else if i == 13 {
        opt_doc(x.ls)
    } else if i == 14 {
        opt_doc(x.lr)
    } else if i == 15 {
        opt_doc(x.f)
    } else if i == 16 {
        opt_doc(x.hide_unread_status)
    } else if i == 17 {
        opt_doc(x.hide_mention_status)
    } else if i == 18 {
        opt_doc(x.team_main)
    } else if i == 19 {
        opt_doc(x.team_id)
    } else if i == 20 {
        opt_doc(x.broadcast)
    } else if i == 21 {
        opt_doc(x.prid)
    } else if i == 22 {
        opt_doc(x.tunread)
    } else if i == 23 {
        opt_doc(x.tunread_group)
    } else if i == 24 {
        opt_doc(x.tunread_user)
    } else if i == 25 {
        opt_doc(x.roles)
    } else if i == 26 {
        opt_doc(x.on_hold)
    } else if i == 27 {
        opt_doc(x.encrypted)
    } else if i == 28 {
        opt_doc(x.e2e_key)
    } else if i == 29 {
        opt_doc(x.e2e_suggested_key)
    } else if i == 30 {
        opt_doc(x.old_room_keys)
    } else if i == 31 {
        opt_doc(x.suggested_old_room_keys)
    } else if i == 32 {
        opt_doc(x.unread_alert)
    } else if i == 33 {
        opt_doc(x.desktop_notifications)
    } else if i == 34 {
        opt_doc(x.mobile_push_notifications)
    } else if i == 35 {
        opt_doc(x.email_notifications)
    } else if i == 36 {
        opt_doc(x.desktop_pref_origin)
    } else if i == 37 {
        opt_doc(x.mobile_pref_origin)
    } else if i == 38 {
        opt_doc(x.email_pref_origin)
    } else if i == 39 {
        opt_doc(x.audio_notification_value)
    } else if i == 40 {
        opt_doc(x.disable_notifications)
    } else if i == 41 {
        opt_doc(x.mute_group_mentions)
    } else if i == 42 {
        opt_doc(x.user_highlights)
    } else if i == 43 {
        opt_doc(x.ignored)
    } else if i == 44 {
        opt_doc(x.archived)
    } else if i == 45 {
        opt_doc(x.auto_translate)
    } else if i == 46 {
        opt_doc(x.auto_translate_language)
    } else if i == 47 {
        opt_doc(x.blocked)
    } else if i == 48 {
        opt_doc(x.blocker)
    } else if i == 49 {
        opt_doc(x.draft)
    } else if i == 50 {
        opt_doc(x.thread_drafts)
    } else if i == 51 {
        opt_doc(x.status)
    } else if i == 52 {
        opt_doc(x.inviter)
    } else if i == 53 {
        opt_doc(x.v)
    } else if i == 54 {
        opt_doc(x.department)
    } else if i == 55 {
        opt_doc(x.code)
    } else if i == 56 {
        opt_doc(x.abac_last_time_checked)
    } else if i == 57 {
        opt_doc(x.custom_fields)
    } else {
        None
    }
}

/// The position of a name.
spec fn subscription_position(s: Seq<char>) -> int {
    let t = tag(s, 0, 1, 6);
    if t == 105095003 {
        0
    } else if t == 101117095010 {
        1
    } else if t == 105114003 {
        2
    } else if t == 117001 {
        3
    } else if t == 116001 {
        4
    } else if t == 115116002 {
        5
    } else if t == 97110004 {
        6
    } else if t == 112111004 {
        7
    } else if t == 110117006 {
        8
    } else if t == 110115117012 {
        9
    } else if t == 101114103013 {
        10
    } else if t == 110102005 {
        11
    } else if t == 108097005 {
        12
    } else if t == 115108002 {
        13
    } else if t == 114108002 {
        14
    } else if t == 102001 {
        15
    } else if t == 114105104016 {
        16
    } else if t == 110105104017 {
        17
    } else if t == 105101116008 {
        18
    } else if t == 101116006 {
        19
    } else if t == 97114098009 {
        20
    } else if t == 114112004 {
        21
    } else if t == 100117116007 {
        22
    } else if t == 100117116012 {
        23
    } else if t == 100117116011 {
        24
    } else if t == 111114005 {
        25
    } else if t == 110111006 {
        26
    } else if t == 116110101009 {
        27
    } else if t == 50069006 {
        28
    } else if t == 103050069015 {
        29
    } else if t == 109108111011 {
        30
    } else if t == 116117115020 {
        31
    } else if t == 65110117011 {
        32
    } else if t == 112101100020 {
        33
    } else if t == 80111109023 {
        34
    } else if t == 111109101018 {
        35
    } else if t == 112101100017 {
        36
    } else if t == 80111109016 {
        37
    } else if t == 114109101015 {
        38
    } else if t == 111117097022 {
        39
    } else if t == 101105100020 {
        40
    } else if t == 111117109017 {
        41
    } else if t == 103115117014 {
        42
    } else if t == 100103105007 {
        43
    } else if t == 101114097008 {
        44
    } else if t == 97117097013 {
        45
    } else if t == 97117097021 {
        46
    } else if t == 100108098007 {
        47
    } else if t == 114108098007 {
        48
    } else if t == 114100005 {
        49
    } else if t == 68104116012 {
        50
    } else if t == 116115006 {
        51
    } else if t == 114110105007 {
        52
    } else if t == 118001 {
        53
    } else if t == 109101100010 {
        54
    } else if t == 111099004 {
        55
    } else if t == 115098097019 {
        56
    } else if t == 70117099012 {
        57
    } else {
        -1
    }
}

#[verifier::rlimit(60)]
proof fn lemma_subscription_keys()
    ensures
        placed(|i: int| subscription_key(i), |s: Seq<char>| subscription_position(s), 58),
{
    let key = |i: int| subscription_key(i);
    let position = |s: Seq<char>| subscription_position(s);
    lemma_placed_none(key, position);
    assert(subscription_position("_id"@) == 0) by {
        reveal_strlit("_id");
        assert("_id"@.len() == 3);
        assert("_id"@[0] == '_');
        assert("_id"@[1] == 'i');
    }
    lemma_placed_more(key, position, 0);
    assert(subscription_position("_updatedAt"@) == 1) by {
        reveal_strlit("_updatedAt");
        assert("_updatedAt"@.len() == 10);
        assert("_updatedAt"@[0] == '_');
        assert("_updatedAt"@[1] == 'u');
        assert("_updatedAt"@[6] == 'e');
    }
    lemma_placed_more(key, position, 1);
    assert(subscription_position("rid"@) == 2) by {
        reveal_strlit("rid");
        assert("rid"@.len() == 3);
        assert("rid"@[0] == 'r');
        assert("rid"@[1] == 'i');
    }
    lemma_placed_more(key, position, 2);
    assert(subscription_position("u"@) == 3) by {
        reveal_strlit("u");
        assert("u"@.len() == 1);
        assert("u"@[0] == 'u');
    }
    lemma_placed_more(key, position, 3);
    assert(subscription_position("t"@) == 4) by {
        reveal_strlit("t");
        assert("t"@.len() == 1);
        assert("t"@[0] == 't');
    }
    lemma_placed_more(key, position, 4);
    assert(subscription_position("ts"@) == 5) by {
        reveal_strlit("ts");
        assert("ts"@.len() == 2);
        assert("ts"@[0] == 't');
        assert("ts"@[1] == 's');
    }
    lemma_placed_more(key, position, 5);
    assert(subscription_position("name"@) == 6) by {
        reveal_strlit("name");
        assert("name"@.len() == 4);
        assert("name"@[0] == 'n');
        assert("name"@[1] == 'a');
    }
    lemma_placed_more(key, position, 6);
    assert(subscription_position("open"@) == 7) by {
        reveal_strlit("open");
        assert("open"@.len() == 4);
        assert("open"@[0] == 'o');
        assert("open"@[1] == 'p');
    }
    lemma_placed_more(key, position, 7);
    assert(subscription_position("unread"@) == 8) by {
        reveal_strlit("unread");
        assert("unread"@.len() == 6);
        assert("unread"@[0] == 'u');
        assert("unread"@[1] == 'n');
    }
    lemma_placed_more(key, position, 8);
    assert(subscription_position("userMentions"@) == 9) by {
        reveal_strlit("userMentions");
        assert("userMentions"@.len() == 12);
        assert("userMentions"@[0] == 'u');
        assert("userMentions"@[1] == 's');
        assert("userMentions"@[6] == 'n');
    }
    lemma_placed_more(key, position, 9);
    assert(subscription_position("groupMentions"@) == 10) by {
        reveal_strlit("groupMentions");
        assert("groupMentions"@.len() == 13);
        assert("groupMentions"@[0] == 'g');
        assert("groupMentions"@[1] == 'r');
        assert("groupMentions"@[6] == 'e');
    }
    lemma_placed_more(key, position, 10);
    assert(subscription_position("fname"@) == 11) by {
        reveal_strlit("fname");
        assert("fname"@.len() == 5);
        assert("fname"@[0] == 'f');
        assert("fname"@[1] == 'n');
    }
    lemma_placed_more(key, position, 11);
    assert(subscription_position("alert"@) == 12) by {
        reveal_strlit("alert");
        assert("alert"@.len() == 5);
        assert("alert"@[0] == 'a');
        assert("alert"@[1] == 'l');
    }
    lemma_placed_more(key, position, 12);
    assert(subscription_position("ls"@) == 13) by {
        reveal_strlit("ls");
        assert("ls"@.len() == 2);
        assert("ls"@[0] == 'l');
        assert("ls"@[1] == 's');
    }
    lemma_placed_more(key, position, 13);
    assert(subscription_position("lr"@) == 14) by {
        reveal_strlit("lr");
        assert("lr"@.len() == 2);
        assert("lr"@[0] == 'l');
        assert("lr"@[1] == 'r');
    }
    lemma_placed_more(key, position, 14);
    assert(subscription_position("f"@) == 15) by {
        reveal_strlit("f");
        assert("f"@.len() == 1);
        assert("f"@[0] == 'f');
    }
    lemma_placed_more(key, position, 15);
    assert(subscription_position("hideUnreadStatus"@) == 16) by {
        reveal_strlit("hideUnreadStatus");
        assert("hideUnreadStatus"@.len() == 16);
        assert("hideUnreadStatus"@[0] == 'h');
        assert("hideUnreadStatus"@[1] == 'i');
        assert("hideUnreadStatus"@[6] == 'r');
    }
    lemma_placed_more(key, position, 16);
    assert(subscription_position("hideMentionStatus"@) == 17) by {
        reveal_strlit("hideMentionStatus");
        assert("hideMentionStatus"@.len() == 17);
        assert("hideMentionStatus"@[0] == 'h');
        assert("hideMentionStatus"@[1] == 'i');
        assert("hideMentionStatus"@[6] == 'n');
    }
    lemma_placed_more(key, position, 17);
    assert(subscription_position("teamMain"@) == 18) by {
        reveal_strlit("teamMain");
        assert("teamMain"@.len() == 8);
        assert("teamMain"@[0] == 't');
        assert("teamMain"@[1] == 'e');
        assert("teamMain"@[6] == 'i');
    }
    lemma_placed_more(key, position, 18);
    assert(subscription_position("teamId"@) == 19) by {
        reveal_strlit("teamId");
        assert("teamId"@.len() == 6);
        assert("teamId"@[0] == 't');
        assert("teamId"@[1] == 'e');
    }
    lemma_placed_more(key, position, 19);
    assert(subscription_position("broadcast"@) == 20) by {
        reveal_strlit("broadcast");
        assert("broadcast"@.len() == 9);
        assert("broadcast"@[0] == 'b');
        assert("broadcast"@[1] == 'r');
        assert("broadcast"@[6] == 'a');
    }
    lemma_placed_more(key, position, 20);
    assert(subscription_position("prid"@) == 21) by {
        reveal_strlit("prid");
        assert("prid"@.len() == 4);
        assert("prid"@[0] == 'p');
        assert("prid"@[1] == 'r');
    }
    lemma_placed_more(key, position, 21);
    assert(subscription_position("tunread"@) == 22) by {
        reveal_strlit("tunread");
        assert("tunread"@.len() == 7);
        assert("tunread"@[0] == 't');
        assert("tunread"@[1] == 'u');
        assert("tunread"@[6] == 'd');
    }
    lemma_placed_more(key, position, 22);
    assert(subscription_position("tunreadGroup"@) == 23) by {
        reveal_strlit("tunreadGroup");
        assert("tunreadGroup"@.len() == 12);
        assert("tunreadGroup"@[0] == 't');
        assert("tunreadGroup"@[1] == 'u');
        assert("tunreadGroup"@[6] == 'd');
    }
    lemma_placed_more(key, position, 23);
    assert(subscription_position("tunreadUser"@) == 24) by {
        reveal_strlit("tunreadUser");
        assert("tunreadUser"@.len() == 11);
        assert("tunreadUser"@[0] == 't');
        assert("tunreadUser"@[1] == 'u');
        assert("tunreadUser"@[6] == 'd');
    }
    lemma_placed_more(key, position, 24);
    assert(subscription_position("roles"@) == 25) by {
        reveal_strlit("roles");
        assert("roles"@.len() == 5);
        assert("roles"@[0] == 'r');
        assert("roles"@[1] == 'o');
    }
    lemma_placed_more(key, position, 25);
    assert(subscription_position("onHold"@) == 26) by {
        reveal_strlit("onHold");
        assert("onHold"@.len() == 6);
        assert("onHold"@[0] == 'o');
        assert("onHold"@[1] == 'n');
    }
    lemma_placed_more(key, position, 26);
    assert(subscription_position("encrypted"@) == 27) by {
        reveal_strlit("encrypted");
        assert("encrypted"@.len() == 9);
        assert("encrypted"@[0] == 'e');
        assert("encrypted"@[1] == 'n');
        assert("encrypted"@[6] == 't');
    }
    lemma_placed_more(key, position, 27);
    assert(subscription_position("E2EKey"@) == 28) by {
        reveal_strlit("E2EKey");
        assert("E2EKey"@.len() == 6);
        assert("E2EKey"@[0] == 'E');
        assert("E2EKey"@[1] == '2');
    }
    lemma_placed_more(key, position, 28);
    assert(subscription_position("E2ESuggestedKey"@) == 29) by {
        reveal_strlit("E2ESuggestedKey");
        assert("E2ESuggestedKey"@.len() == 15);
        assert("E2ESuggestedKey"@[0] == 'E');
        assert("E2ESuggestedKey"@[1] == '2');
        assert("E2ESuggestedKey"@[6] == 'g');
    }
    lemma_placed_more(key, position, 29);
    assert(subscription_position("oldRoomKeys"@) == 30) by {
        reveal_strlit("oldRoomKeys");
        assert("oldRoomKeys"@.len() == 11);
        assert("oldRoomKeys"@[0] == 'o');
        assert("oldRoomKeys"@[1] == 'l');
        assert("oldRoomKeys"@[6] == 'm');
    }
    lemma_placed_more(key, position, 30);
    assert(subscription_position("suggestedOldRoomKeys"@) == 31) by {
        reveal_strlit("suggestedOldRoomKeys");
        assert("suggestedOldRoomKeys"@.len() == 20);
        assert("suggestedOldRoomKeys"@[0] == 's');
        assert("suggestedOldRoomKeys"@[1] == 'u');
        assert("suggestedOldRoomKeys"@[6] == 't');
    }
    lemma_placed_more(key, position, 31);
    assert(subscription_position("unreadAlert"@) == 32) by {
        reveal_strlit("unreadAlert");
        assert("unreadAlert"@.len() == 11);
        assert("unreadAlert"@[0] == 'u');
        assert("unreadAlert"@[1] == 'n');
        assert("unreadAlert"@[6] == 'A');
    }
    lemma_placed_more(key, position, 32);
    assert(subscription_position("desktopNotifications"@) == 33) by {
        reveal_strlit("desktopNotifications");
        assert("desktopNotifications"@.len() == 20);
        assert("desktopNotifications"@[0] == 'd');
        assert("desktopNotifications"@[1] == 'e');
        assert("desktopNotifications"@[6] == 'p');
    }
    lemma_placed_more(key, position, 33);
    assert(subscription_position("mobilePushNotifications"@) == 34) by {
        reveal_strlit("mobilePushNotifications");
        assert("mobilePushNotifications"@.len() == 23);
        assert("mobilePushNotifications"@[0] == 'm');
        assert("mobilePushNotifications"@[1] == 'o');
        assert("mobilePushNotifications"@[6] == 'P');
    }
    lemma_placed_more(key, position, 34);
    assert(subscription_position("emailNotifications"@) == 35) by {
        reveal_strlit("emailNotifications");
        assert("emailNotifications"@.len() == 18);
        assert("emailNotifications"@[0] == 'e');
        assert("emailNotifications"@[1] == 'm');
        assert("emailNotifications"@[6] == 'o');
    }
    lemma_placed_more(key, position, 35);
    assert(subscription_position("desktopPrefOrigin"@) == 36) by {
        reveal_strlit("desktopPrefOrigin");
        assert("desktopPrefOrigin"@.len() == 17);
        assert("desktopPrefOrigin"@[0] == 'd');
        assert("desktopPrefOrigin"@[1] == 'e');
        assert("desktopPrefOrigin"@[6] == 'p');
    }
    lemma_placed_more(key, position, 36);
    assert(subscription_position("mobilePrefOrigin"@) == 37) by {
        reveal_strlit("mobilePrefOrigin");
        assert("mobilePrefOrigin"@.len() == 16);
        assert("mobilePrefOrigin"@[0] == 'm');
        assert("mobilePrefOrigin"@[1] == 'o');
        assert("mobilePrefOrigin"@[6] == 'P');
    }
    lemma_placed_more(key, position, 37);
    assert(subscription_position("emailPrefOrigin"@) == 38) by {
        reveal_strlit("emailPrefOrigin");
        assert("emailPrefOrigin"@.len() == 15);
        assert("emailPrefOrigin"@[0] == 'e');
        assert("emailPrefOrigin"@[1] == 'm');
        assert("emailPrefOrigin"@[6] == 'r');
    }
    lemma_placed_more(key, position, 38);
    assert(subscription_position("audioNotificationValue"@) == 39) by {
        reveal_strlit("audioNotificationValue");
        assert("audioNotificationValue"@.len() == 22);
        assert("audioNotificationValue"@[0] == 'a');
        assert("audioNotificationValue"@[1] == 'u');
        assert("audioNotificationValue"@[6] == 'o');
    }
    lemma_placed_more(key, position, 39);
    assert(subscription_position("disableNotifications"@) == 40) by {
        reveal_strlit("disableNotifications");
        assert("disableNotifications"@.len() == 20);
        assert("disableNotifications"@[0] == 'd');
        assert("disableNotifications"@[1] == 'i');
        assert("disableNotifications"@[6] == 'e');
    }
    lemma_placed_more(key, position, 40);
    assert(subscription_position("muteGroupMentions"@) == 41) by {
        reveal_strlit("muteGroupMentions");
        assert("muteGroupMentions"@.len() == 17);
        assert("muteGroupMentions"@[0] == 'm');
        assert("muteGroupMentions"@[1] == 'u');
        assert("muteGroupMentions"@[6] == 'o');
    }
    lemma_placed_more(key, position, 41);
    assert(subscription_position("userHighlights"@) == 42) by {
        reveal_strlit("userHighlights");
        assert("userHighlights"@.len() == 14);
        assert("userHighlights"@[0] == 'u');
        assert("userHighlights"@[1] == 's');
        assert("userHighlights"@[6] == 'g');
    }
    lemma_placed_more(key, position, 42);
    assert(subscription_position("ignored"@) == 43) by {
        reveal_strlit("ignored");
        assert("ignored"@.len() == 7);
        assert("ignored"@[0] == 'i');
        assert("ignored"@[1] == 'g');
        assert("ignored"@[6] == 'd');
    }
    lemma_placed_more(key, position, 43);
    assert(subscription_position("archived"@) == 44) by {
        reveal_strlit("archived");
        assert("archived"@.len() == 8);
        assert("archived"@[0] == 'a');
        assert("archived"@[1] == 'r');
        assert("archived"@[6] == 'e');
    }
    lemma_placed_more(key, position, 44);
    assert(subscription_position("autoTranslate"@) == 45) by {
        reveal_strlit("autoTranslate");
        assert("autoTranslate"@.len() == 13);
        assert("autoTranslate"@[0] == 'a');
        assert("autoTranslate"@[1] == 'u');
        assert("autoTranslate"@[6] == 'a');
    }
    lemma_placed_more(key, position, 45);
    assert(subscription_position("autoTranslateLanguage"@) == 46) by {
        reveal_strlit("autoTranslateLanguage");
        assert("autoTranslateLanguage"@.len() == 21);
        assert("autoTranslateLanguage"@[0] == 'a');
        assert("autoTranslateLanguage"@[1] == 'u');
        assert("autoTranslateLanguage"@[6] == 'a');
    }
    lemma_placed_more(key, position, 46);
    assert(subscription_position("blocked"@) == 47) by {
        reveal_strlit("blocked");
        assert("blocked"@.len() == 7);
        assert("blocked"@[0] == 'b');
        assert("blocked"@[1] == 'l');
        assert("blocked"@[6] == 'd');
    }
    lemma_placed_more(key, position, 47);
    assert(subscription_position("blocker"@) == 48) by {
        reveal_strlit("blocker");
        assert("blocker"@.len() == 7);
        assert("blocker"@[0] == 'b');
        assert("blocker"@[1] == 'l');
        assert("blocker"@[6] == 'r');
    }
    lemma_placed_more(key, position, 48);
    assert(subscription_position("draft"@) == 49) by {
        reveal_strlit("draft");
        assert("draft"@.len() == 5);
        assert("draft"@[0] == 'd');
        assert("draft"@[1] == 'r');
    }
    lemma_placed_more(key, position, 49);
    assert(subscription_position("threadDrafts"@) == 50) by {
        reveal_strlit("threadDrafts");
        assert("threadDrafts"@.len() == 12);
        assert("threadDrafts"@[0] == 't');
        assert("threadDrafts"@[1] == 'h');
        assert("threadDrafts"@[6] == 'D');
    }
    lemma_placed_more(key, position, 50);
    assert(subscription_position("status"@) == 51) by {
        reveal_strlit("status");
        assert("status"@.len() == 6);
        assert("status"@[0] == 's');
        assert("status"@[1] == 't');
    }
    lemma_placed_more(key, position, 51);
    assert(subscription_position("inviter"@) == 52) by {
        reveal_strlit("inviter");
        assert("inviter"@.len() == 7);
        assert("inviter"@[0] == 'i');
        assert("inviter"@[1] == 'n');
        assert("inviter"@[6] == 'r');
    }
    lemma_placed_more(key, position, 52);
    assert(subscription_position("v"@) == 53) by {
        reveal_strlit("v");
        assert("v"@.len() == 1);
        assert("v"@[0] == 'v');
    }
    lemma_placed_more(key, position, 53);
    assert(subscription_position("department"@) == 54) by {
        reveal_strlit("department");
        assert("department"@.len() == 10);
        assert("department"@[0] == 'd');
        assert("department"@[1] == 'e');
        assert("department"@[6] == 'm');
    }
    lemma_placed_more(key, position, 54);
    assert(subscription_position("code"@) == 55) by {
        reveal_strlit("code");
        assert("code"@.len() == 4);
        assert("code"@[0] == 'c');
        assert("code"@[1] == 'o');
    }
    lemma_placed_more(key, position, 55);
    assert(subscription_position("abacLastTimeChecked"@) == 56) by {
        reveal_strlit("abacLastTimeChecked");
        assert("abacLastTimeChecked"@.len() == 19);
        assert("abacLastTimeChecked"@[0] == 'a');
        assert("abacLastTimeChecked"@[1] == 'b');
        assert("abacLastTimeChecked"@[6] == 's');
    }
    lemma_placed_more(key, position, 56);
    assert(subscription_position("customFields"@) == 57) by {
        reveal_strlit("customFields");
        assert("customFields"@.len() == 12);
        assert("customFields"@[0] == 'c');
        assert("customFields"@[1] == 'u');
        assert("customFields"@[6] == 'F');
    }
    lemma_placed_more(key, position, 57);
}

/// Each member of a written [`Subscription`] is what its field is written as: a field that is unset has no
/// member.
pub proof fn law_subscription_members(x: Subscription)
    ensures
        slot(x.doc(), "_id"@, 0) == Some(x.id.doc()),
        slot(x.doc(), "_updatedAt"@, 1) == Some(x.updated_at.doc()),
        slot(x.doc(), "rid"@, 2) == Some(x.rid.doc()),
        slot(x.doc(), "u"@, 3) == Some(x.u.doc()),
        slot(x.doc(), "t"@, 4) == Some(x.t.doc()),
        slot(x.doc(), "ts"@, 5) == Some(x.ts.doc()),
        slot(x.doc(), "name"@, 6) == Some(x.name.doc()),
        slot(x.doc(), "open"@, 7) == Some(x.open.doc()),
        slot(x.doc(), "unread"@, 8) == Some(x.unread.doc()),
        slot(x.doc(), "userMentions"@, 9) == Some(x.user_mentions.doc()),
        slot(x.doc(), "groupMentions"@, 10) == Some(x.group_mentions.doc()),
        slot(x.doc(), "fname"@, 11) == opt_doc(x.fname),
        slot(x.doc(), "alert"@, 12) == opt_doc(x.alert),
        slot(x.doc(), "ls"@, 13) == opt_doc(x.ls),
        slot(x.doc(), "lr"@, 14) == opt_doc(x.lr),
        slot(x.doc(), "f"@, 15) == opt_doc(x.f),
        slot(x.doc(), "hideUnreadStatus"@, 16) == opt_doc(x.hide_unread_status),
        slot(x.doc(), "hideMentionStatus"@, 17) == opt_doc(x.hide_mention_status),
        slot(x.doc(), "teamMain"@, 18) == opt_doc(x.team_main),
        slot(x.doc(), "teamId"@, 19) == opt_doc(x.team_id),
        slot(x.doc(), "broadcast"@, 20) == opt_doc(x.broadcast),
        slot(x.doc(), "prid"@, 21) == opt_doc(x.prid),
        slot(x.doc(), "tunread"@, 22) == opt_doc(x.tunread),
        slot(x.doc(), "tunreadGroup"@, 23) == opt_doc(x.tunread_group),
        slot(x.doc(), "tunreadUser"@, 24) == opt_doc(x.tunread_user),
        slot(x.doc(), "roles"@, 25) == opt_doc(x.roles),
        slot(x.doc(), "onHold"@, 26) == opt_doc(x.on_hold),
        slot(x.doc(), "encrypted"@, 27) == opt_doc(x.encrypted),
        slot(x.doc(), "E2EKey"@, 28) == opt_doc(x.e2e_key),
        slot(x.doc(), "E2ESuggestedKey"@, 29) == opt_doc(x.e2e_suggested_key),
        slot(x.doc(), "oldRoomKeys"@, 30) == opt_doc(x.old_room_keys),
        slot(x.doc(), "suggestedOldRoomKeys"@, 31) == opt_doc(x.suggested_old_room_keys),
        slot(x.doc(), "unreadAlert"@, 32) == opt_doc(x.unread_alert),
        slot(x.doc(), "desktopNotifications"@, 33) == opt_doc(x.desktop_notifications),
        slot(x.doc(), "mobilePushNotifications"@, 34) == opt_doc(x.mobile_push_notifications),
        slot(x.doc(), "emailNotifications"@, 35) == opt_doc(x.email_notifications),
        slot(x.doc(), "desktopPrefOrigin"@, 36) == opt_doc(x.desktop_pref_origin),
        slot(x.doc(), "mobilePrefOrigin"@, 37) == opt_doc(x.mobile_pref_origin),
        slot(x.doc(), "emailPrefOrigin"@, 38) == opt_doc(x.email_pref_origin),
        slot(x.doc(), "audioNotificationValue"@, 39) == opt_doc(x.audio_notification_value),
        slot(x.doc(), "disableNotifications"@, 40) == opt_doc(x.disable_notifications),
        slot(x.doc(), "muteGroupMentions"@, 41) == opt_doc(x.mute_group_mentions),
        slot(x.doc(), "userHighlights"@, 42) == opt_doc(x.user_highlights),
        slot(x.doc(), "ignored"@, 43) == opt_doc(x.ignored),
        slot(x.doc(), "archived"@, 44) == opt_doc(x.archived),
        slot(x.doc(), "autoTranslate"@, 45) == opt_doc(x.auto_translate),
        slot(x.doc(), "autoTranslateLanguage"@, 46) == opt_doc(x.auto_translate_language),
        slot(x.doc(), "blocked"@, 47) == opt_doc(x.blocked),
        slot(x.doc(), "blocker"@, 48) == opt_doc(x.blocker),
        slot(x.doc(), "draft"@, 49) == opt_doc(x.draft),
        slot(x.doc(), "threadDrafts"@, 50) == opt_doc(x.thread_drafts),
        slot(x.doc(), "status"@, 51) == opt_doc(x.status),
        slot(x.doc(), "inviter"@, 52) == opt_doc(x.inviter),
        slot(x.doc(), "v"@, 53) == opt_doc(x.v),
        slot(x.doc(), "department"@, 54) == opt_doc(x.department),
        slot(x.doc(), "code"@, 55) == opt_doc(x.code),
        slot(x.doc(), "abacLastTimeChecked"@, 56) == opt_doc(x.abac_last_time_checked),
        slot(x.doc(), "customFields"@, 57) == opt_doc(x.custom_fields),
{
    lemma_subscription_keys();
    let key = |i: int| subscription_key(i);
    let value = |i: int| subscription_value(x, i);
    let position = |s: Seq<char>| subscription_position(s);
    let m0 = Map::<Seq<char>, JsonView>::empty();
    lemma_holds_none(key, value, 58);
    let m1 = with(m0, "_id"@, x.id.doc());
    lemma_with(m0, "_id"@, x.id.doc());
    lemma_holds_more(m0, key, value, position, 58, 0, m1);
    let m2 = with(m1, "_updatedAt"@, x.updated_at.doc());
    lemma_with(m1, "_updatedAt"@, x.updated_at.doc());
    lemma_holds_more(m1, key, value, position, 58, 1, m2);
    let m3 = with(m2, "rid"@, x.rid.doc());
    lemma_with(m2, "rid"@, x.rid.doc());
    lemma_holds_more(m2, key, value, position, 58, 2, m3);
    let m4 = with(m3, "u"@, x.u.doc());
    lemma_with(m3, "u"@, x.u.doc());
    lemma_holds_more(m3, key, value, position, 58, 3, m4);
    let m5 = with(m4, "t"@, x.t.doc());
    lemma_with(m4, "t"@, x.t.doc());
    lemma_holds_more(m4, key, value, position, 58, 4, m5);
    let m6 = with(m5, "ts"@, x.ts.doc());
    lemma_with(m5, "ts"@, x.ts.doc());
    lemma_holds_more(m5, key, value, position, 58, 5, m6);
    let m7 = with(m6, "name"@, x.name.doc());
    lemma_with(m6, "name"@, x.name.doc());
    lemma_holds_more(m6, key, value, position, 58, 6, m7);
    let m8 = with(m7, "open"@, x.open.doc());
    lemma_with(m7, "open"@, x.open.doc());
    lemma_holds_more(m7, key, value, position, 58, 7, m8);
    let m9 = with(m8, "unread"@, x.unread.doc());
    lemma_with(m8, "unread"@, x.unread.doc());
    lemma_holds_more(m8, key, value, position, 58, 8, m9);
    let m10 = with(m9, "userMentions"@, x.user_mentions.doc());
    lemma_with(m9, "userMentions"@, x.user_mentions.doc());
    lemma_holds_more(m9, key, value, position, 58, 9, m10);
    let m11 = with(m10, "groupMentions"@, x.group_mentions.doc());
    lemma_with(m10, "groupMentions"@, x.group_mentions.doc());
    lemma_holds_more(m10, key, value, position, 58, 10, m11);
    let m12 = with_some(m11, "fname"@, x.fname);
    lemma_with_some(m11, "fname"@, x.fname);
    lemma_holds_more(m11, key, value, position, 58, 11, m12);
    let m13 = with_some(m12, "alert"@, x.alert);
    lemma_with_some(m12, "alert"@, x.alert);
    lemma_holds_more(m12, key, value, position, 58, 12, m13);
    let m14 = with_some(m13, "ls"@, x.ls);
    lemma_with_some(m13, "ls"@, x.ls);
    lemma_holds_more(m13, key, value, position, 58, 13, m14);
    let m15 = with_some(m14, "lr"@, x.lr);
    lemma_with_some(m14, "lr"@, x.lr);
    lemma_holds_more(m14, key, value, position, 58, 14, m15);
    let m16 = with_some(m15, "f"@, x.f);
    lemma_with_some(m15, "f"@, x.f);
    lemma_holds_more(m15, key, value, position, 58, 15, m16);
    let m17 = with_some(m16, "hideUnreadStatus"@, x.hide_unread_status);
    lemma_with_some(m16, "hideUnreadStatus"@, x.hide_unread_status);
    lemma_holds_more(m16, key, value, position, 58, 16, m17);
    let m18 = with_some(m17, "hideMentionStatus"@, x.hide_mention_status);
    lemma_with_some(m17, "hideMentionStatus"@, x.hide_mention_status);
    lemma_holds_more(m17, key, value, position, 58, 17, m18);
    let m19 = with_some(m18, "teamMain"@, x.team_main);
    lemma_with_some(m18, "teamMain"@, x.team_main);
    lemma_holds_more(m18, key, value, position, 58, 18, m19);
    let m20 = with_some(m19, "teamId"@, x.team_id);
    lemma_with_some(m19, "teamId"@, x.team_id);
    lemma_holds_more(m19, key, value, position, 58, 19, m20);
    let m21 = with_some(m20, "broadcast"@, x.broadcast);
    lemma_with_some(m20, "broadcast"@, x.broadcast);
    lemma_holds_more(m20, key, value, position, 58, 20, m21);
    let m22 = with_some(m21, "prid"@, x.prid);
    lemma_with_some(m21, "prid"@, x.prid);
    lemma_holds_more(m21, key, value, position, 58, 21, m22);
    let m23 = with_some(m22, "tunread"@, x.tunread);
    lemma_with_some(m22, "tunread"@, x.tunread);
    lemma_holds_more(m22, key, value, position, 58, 22, m23);
    let m24 = with_some(m23, "tunreadGroup"@, x.tunread_group);
    lemma_with_some(m23, "tunreadGroup"@, x.tunread_group);
    lemma_holds_more(m23, key, value, position, 58, 23, m24);
    let m25 = with_some(m24, "tunreadUser"@, x.tunread_user);
    lemma_with_some(m24, "tunreadUser"@, x.tunread_user);
    lemma_holds_more(m24, key, value, position, 58, 24, m25);
    let m26 = with_some(m25, "roles"@, x.roles);
    lemma_with_some(m25, "roles"@, x.roles);
    lemma_holds_more(m25, key, value, position, 58, 25, m26);
    let m27 = with_some(m26, "onHold"@, x.on_hold);
    lemma_with_some(m26, "onHold"@, x.on_hold);
    lemma_holds_more(m26, key, value, position, 58, 26, m27);
    let m28 = with_some(m27, "encrypted"@, x.encrypted);
    lemma_with_some(m27, "encrypted"@, x.encrypted);
    lemma_holds_more(m27, key, value, position, 58, 27, m28);
    let m29 = with_some(m28, "E2EKey"@, x.e2e_key);
    lemma_with_some(m28, "E2EKey"@, x.e2e_key);
    lemma_holds_more(m28, key, value, position, 58, 28, m29);
    let m30 = with_some(m29, "E2ESuggestedKey"@, x.e2e_suggested_key);
    lemma_with_some(m29, "E2ESuggestedKey"@, x.e2e_suggested_key);
    lemma_holds_more(m29, key, value, position, 58, 29, m30);
    let m31 = with_some(m30, "oldRoomKeys"@, x.old_room_keys);
    lemma_with_some(m30, "oldRoomKeys"@, x.old_room_keys);
    lemma_holds_more(m30, key, value, position, 58, 30, m31);
    let m32 = with_some(m31, "suggestedOldRoomKeys"@, x.suggested_old_room_keys);
    lemma_with_some(m31, "suggestedOldRoomKeys"@, x.suggested_old_room_keys);
    lemma_holds_more(m31, key, value, position, 58, 31, m32);
    let m33 = with_some(m32, "unreadAlert"@, x.unread_alert);
    lemma_with_some(m32, "unreadAlert"@, x.unread_alert);
    lemma_holds_more(m32, key, value, position, 58, 32, m33);
    let m34 = with_some(m33, "desktopNotifications"@, x.desktop_notifications);
    lemma_with_some(m33, "desktopNotifications"@, x.desktop_notifications);
    lemma_holds_more(m33, key, value, position, 58, 33, m34);
    let m35 = with_some(m34, "mobilePushNotifications"@, x.mobile_push_notifications);
    lemma_with_some(m34, "mobilePushNotifications"@, x.mobile_push_notifications);
    lemma_holds_more(m34, key, value, position, 58, 34, m35);
    let m36 = with_some(m35, "emailNotifications"@, x.email_notifications);
    lemma_with_some(m35, "emailNotifications"@, x.email_notifications);
    lemma_holds_more(m35, key, value, position, 58, 35, m36);
    let m37 = with_some(m36, "desktopPrefOrigin"@, x.desktop_pref_origin);
    lemma_with_some(m36, "desktopPrefOrigin"@, x.desktop_pref_origin);
    lemma_holds_more(m36, key, value, position, 58, 36, m37);
    let m38 = with_some(m37, "mobilePrefOrigin"@, x.mobile_pref_origin);
    lemma_with_some(m37, "mobilePrefOrigin"@, x.mobile_pref_origin);
    lemma_holds_more(m37, key, value, position, 58, 37, m38);
    let m39 = with_some(m38, "emailPrefOrigin"@, x.email_pref_origin);
    lemma_with_some(m38, "emailPrefOrigin"@, x.email_pref_origin);
    lemma_holds_more(m38, key, value, position, 58, 38, m39);
    let m40 = with_some(m39, "audioNotificationValue"@, x.audio_notification_value);
    lemma_with_some(m39, "audioNotificationValue"@, x.audio_notification_value);
    lemma_holds_more(m39, key, value, position, 58, 39, m40);
    let m41 = with_some(m40, "disableNotifications"@, x.disable_notifications);
    lemma_with_some(m40, "disableNotifications"@, x.disable_notifications);
    lemma_holds_more(m40, key, value, position, 58, 40, m41);
    let m42 = with_some(m41, "muteGroupMentions"@, x.mute_group_mentions);
    lemma_with_some(m41, "muteGroupMentions"@, x.mute_group_mentions);
    lemma_holds_more(m41, key, value, position, 58, 41, m42);
    let m43 = with_some(m42, "userHighlights"@, x.user_highlights);
    lemma_with_some(m42, "userHighlights"@, x.user_highlights);
    lemma_holds_more(m42, key, value, position, 58, 42, m43);
    let m44 = with_some(m43, "ignored"@, x.ignored);
    lemma_with_some(m43, "ignored"@, x.ignored);
    lemma_holds_more(m43, key, value, position, 58, 43, m44);
    let m45 = with_some(m44, "archived"@, x.archived);
    lemma_with_some(m44, "archived"@, x.archived);
    lemma_holds_more(m44, key, value, position, 58, 44, m45);
    let m46 = with_some(m45, "autoTranslate"@, x.auto_translate);
    lemma_with_some(m45, "autoTranslate"@, x.auto_translate);
    lemma_holds_more(m45, key, value, position, 58, 45, m46);
    let m47 = with_some(m46, "autoTranslateLanguage"@, x.auto_translate_language);
    lemma_with_some(m46, "autoTranslateLanguage"@, x.auto_translate_language);
    lemma_holds_more(m46, key, value, position, 58, 46, m47);
    let m48 = with_some(m47, "blocked"@, x.blocked);
    lemma_with_some(m47, "blocked"@, x.blocked);
    lemma_holds_more(m47, key, value, position, 58, 47, m48);
    let m49 = with_some(m48, "blocker"@, x.blocker);
    lemma_with_some(m48, "blocker"@, x.blocker);
    lemma_holds_more(m48, key, value, position, 58, 48, m49);
    let m50 = with_some(m49, "draft"@, x.draft);
    lemma_with_some(m49, "draft"@, x.draft);
    lemma_holds_more(m49, key, value, position, 58, 49, m50);
    let m51 = with_some(m50, "threadDrafts"@, x.thread_drafts);
    lemma_with_some(m50, "threadDrafts"@, x.thread_drafts);
    lemma_holds_more(m50, key, value, position, 58, 50, m51);
    let m52 = with_some(m51, "status"@, x.status);
    lemma_with_some(m51, "status"@, x.status);
    lemma_holds_more(m51, key, value, position, 58, 51, m52);
    let m53 = with_some(m52, "inviter"@, x.inviter);
    lemma_with_some(m52, "inviter"@, x.inviter);
    lemma_holds_more(m52, key, value, position, 58, 52, m53);
    let m54 = with_some(m53, "v"@, x.v);
    lemma_with_some(m53, "v"@, x.v);
    lemma_holds_more(m53, key, value, position, 58, 53, m54);
    let m55 = with_some(m54, "department"@, x.department);
    lemma_with_some(m54, "department"@, x.department);
    lemma_holds_more(m54, key, value, position, 58, 54, m55);
    let m56 = with_some(m55, "code"@, x.code);
    lemma_with_some(m55, "code"@, x.code);
    lemma_holds_more(m55, key, value, position, 58, 55, m56);
    let m57 = with_some(m56, "abacLastTimeChecked"@, x.abac_last_time_checked);
    lemma_with_some(m56, "abacLastTimeChecked"@, x.abac_last_time_checked);
    lemma_holds_more(m56, key, value, position, 58, 56, m57);
    let m58 = with_some(m57, "customFields"@, x.custom_fields);
    lemma_with_some(m57, "customFields"@, x.custom_fields);
    lemma_holds_more(m57, key, value, position, 58, 57, m58);
    lemma_held(m58, key, value, 58, 0);
    lemma_held(m58, key, value, 58, 1);
    lemma_held(m58, key, value, 58, 2);
    lemma_held(m58, key, value, 58, 3);
    lemma_held(m58, key, value, 58, 4);
    lemma_held(m58, key, value, 58, 5);
    lemma_held(m58, key, value, 58, 6);
    lemma_held(m58, key, value, 58, 7);
    lemma_held(m58, key, value, 58, 8);
    lemma_held(m58, key, value, 58, 9);
    lemma_held(m58, key, value, 58, 10);
    lemma_held(m58, key, value, 58, 11);
    lemma_held(m58, key, value, 58, 12);
    lemma_held(m58, key, value, 58, 13);
    lemma_held(m58, key, value, 58, 14);
    lemma_held(m58, key, value, 58, 15);
    lemma_held(m58, key, value, 58, 16);
    lemma_held(m58, key, value, 58, 17);
    lemma_held(m58, key, value, 58, 18);
    lemma_held(m58, key, value, 58, 19);
    lemma_held(m58, key, value, 58, 20);
    lemma_held(m58, key, value, 58, 21);
    lemma_held(m58, key, value, 58, 22);
    lemma_held(m58, key, value, 58, 23);
    lemma_held(m58, key, value, 58, 24);
    lemma_held(m58, key, value, 58, 25);
    lemma_held(m58, key, value, 58, 26);
    lemma_held(m58, key, value, 58, 27);
    lemma_held(m58, key, value, 58, 28);
    lemma_held(m58, key, value, 58, 29);
    lemma_held(m58, key, value, 58, 30);
    lemma_held(m58, key, value, 58, 31);
    lemma_held(m58, key, value, 58, 32);
    lemma_held(m58, key, value, 58, 33);
    lemma_held(m58, key, value, 58, 34);
    lemma_held(m58, key, value, 58, 35);
    lemma_held(m58, key, value, 58, 36);
    lemma_held(m58, key, value, 58, 37);
    lemma_held(m58, key, value, 58, 38);
    lemma_held(m58, key, value, 58, 39);
    lemma_held(m58, key, value, 58, 40);
    lemma_held(m58, key, value, 58, 41);
    lemma_held(m58, key, value, 58, 42);
    lemma_held(m58, key, value, 58, 43);
    lemma_held(m58, key, value, 58, 44);
    lemma_held(m58, key, value, 58, 45);
    lemma_held(m58, key, value, 58, 46);
    lemma_held(m58, key, value, 58, 47);
    lemma_held(m58, key, value, 58, 48);
    lemma_held(m58, key, value, 58, 49);
    lemma_held(m58, key, value, 58, 50);
    lemma_held(m58, key, value, 58, 51);
    lemma_held(m58, key, value, 58, 52);
    lemma_held(m58, key, value, 58, 53);
    lemma_held(m58, key, value, 58, 54);
    lemma_held(m58, key, value, 58, 55);
    lemma_held(m58, key, value, 58, 56);
    lemma_held(m58, key, value, 58, 57);
    assert(x.doc() == JsonView::Object(m58));
}

/// A written [`Subscription`] can be read.
proof fn lemma_subscription_accepted(x: Subscription)
    requires
        x.writable(),
    ensures
        Subscription::accepts(x.doc()),
{
    law_subscription_members(x);
    lemma_required(x.id, x.id);
    lemma_required(x.updated_at, x.updated_at);
    lemma_required(x.rid, x.rid);
    lemma_required(x.u, x.u);
    lemma_required(x.t, x.t);
    lemma_required(x.ts, x.ts);
    lemma_required(x.name, x.name);
    lemma_required(x.open, x.open);
    lemma_required(x.unread, x.unread);
    lemma_required(x.user_mentions, x.user_mentions);
    lemma_required(x.group_mentions, x.group_mentions);
    lemma_optional(x.fname, x.fname);
    lemma_optional(x.alert, x.alert);
    lemma_date(x.ls, x.ls);
    lemma_date(x.lr, x.lr);
    lemma_optional(x.f, x.f);
    lemma_optional(x.hide_unread_status, x.hide_unread_status);
    lemma_optional(x.hide_mention_status, x.hide_mention_status);
    lemma_optional(x.team_main, x.team_main);
    lemma_optional(x.team_id, x.team_id);
    lemma_optional(x.broadcast, x.broadcast);
    lemma_optional(x.prid, x.prid);
    lemma_optional(x.tunread, x.tunread);
    lemma_optional(x.tunread_group, x.tunread_group);
    lemma_optional(x.tunread_user, x.tunread_user);
    lemma_optional(x.roles, x.roles);
    lemma_optional(x.on_hold, x.on_hold);
    lemma_optional(x.encrypted, x.encrypted);
    lemma_optional(x.e2e_key, x.e2e_key);
    lemma_optional(x.e2e_suggested_key, x.e2e_suggested_key);
    lemma_optional(x.old_room_keys, x.old_room_keys);
    lemma_optional(x.suggested_old_room_keys, x.suggested_old_room_keys);
    lemma_optional(x.unread_alert, x.unread_alert);
    lemma_optional(x.desktop_notifications, x.desktop_notifications);
    lemma_optional(x.mobile_push_notifications, x.mobile_push_notifications);
    lemma_optional(x.email_notifications, x.email_notifications);
    lemma_optional(x.desktop_pref_origin, x.desktop_pref_origin);
    lemma_optional(x.mobile_pref_origin, x.mobile_pref_origin);
    lemma_optional(x.email_pref_origin, x.email_pref_origin);
    lemma_optional(x.audio_notification_value, x.audio_notification_value);
    lemma_optional(x.disable_notifications, x.disable_notifications);
    lemma_optional(x.mute_group_mentions, x.mute_group_mentions);
    lemma_optional(x.user_highlights, x.user_highlights);
    lemma_optional(x.ignored, x.ignored);
    lemma_optional(x.archived, x.archived);
    lemma_optional(x.auto_translate, x.auto_translate);
    lemma_optional(x.auto_translate_language, x.auto_translate_language);
    lemma_optional(x.blocked, x.blocked);
    lemma_optional(x.blocker, x.blocker);
    lemma_optional(x.draft, x.draft);
    lemma_optional(x.thread_drafts, x.thread_drafts);
    lemma_optional(x.status, x.status);
    lemma_optional(x.inviter, x.inviter);
    lemma_optional(x.v, x.v);
    lemma_optional(x.department, x.department);
    lemma_optional(x.code, x.code);
    lemma_date(x.abac_last_time_checked, x.abac_last_time_checked);
    lemma_optional(x.custom_fields, x.custom_fields);
}

/// Two [`Subscription`]s whose fields are written the same are written the same.
pub proof fn lemma_subscription_same(x: Subscription, y: Subscription)
    requires
        x.id.doc() == y.id.doc(),
        x.updated_at.doc() == y.updated_at.doc(),
        x.rid.doc() == y.rid.doc(),
        x.u.doc() == y.u.doc(),
        x.t.doc() == y.t.doc(),
        x.ts.doc() == y.ts.doc(),
        x.name.doc() == y.name.doc(),
        x.open.doc() == y.open.doc(),
        x.unread.doc() == y.unread.doc(),
        x.user_mentions.doc() == y.user_mentions.doc(),
        x.group_mentions.doc() == y.group_mentions.doc(),
        same_doc(x.fname, y.fname),
        same_doc(x.alert, y.alert),
        same_doc(x.ls, y.ls),
        same_doc(x.lr, y.lr),
        same_doc(x.f, y.f),
        same_doc(x.hide_unread_status, y.hide_unread_status),
        same_doc(x.hide_mention_status, y.hide_mention_status),
        same_doc(x.team_main, y.team_main),
        same_doc(x.team_id, y.team_id),
        same_doc(x.broadcast, y.broadcast),
        same_doc(x.prid, y.prid),
        same_doc(x.tunread, y.tunread),
        same_doc(x.tunread_group, y.tunread_group),
        same_doc(x.tunread_user, y.tunread_user),
        same_doc(x.roles, y.roles),
        same_doc(x.on_hold, y.on_hold),
        same_doc(x.encrypted, y.encrypted),
        same_doc(x.e2e_key, y.e2e_key),
        same_doc(x.e2e_suggested_key, y.e2e_suggested_key),
        same_doc(x.old_room_keys, y.old_room_keys),
        same_doc(x.suggested_old_room_keys, y.suggested_old_room_keys),
        same_doc(x.unread_alert, y.unread_alert),
        same_doc(x.desktop_notifications, y.desktop_notifications),
        same_doc(x.mobile_push_notifications, y.mobile_push_notifications),
        same_doc(x.email_notifications, y.email_notifications),
        same_doc(x.desktop_pref_origin, y.desktop_pref_origin),
        same_doc(x.mobile_pref_origin, y.mobile_pref_origin),
        same_doc(x.email_pref_origin, y.email_pref_origin),
        same_doc(x.audio_notification_value, y.audio_notification_value),
        same_doc(x.disable_notifications, y.disable_notifications),
        same_doc(x.mute_group_mentions, y.mute_group_mentions),
        same_doc(x.user_highlights, y.user_highlights),
        same_doc(x.ignored, y.ignored),
        same_doc(x.archived, y.archived),
        same_doc(x.auto_translate, y.auto_translate),
        same_doc(x.auto_translate_language, y.auto_translate_language),
        same_doc(x.blocked, y.blocked),
        same_doc(x.blocker, y.blocker),
        same_doc(x.draft, y.draft),
        same_doc(x.thread_drafts, y.thread_drafts),
        same_doc(x.status, y.status),
        same_doc(x.inviter, y.inviter),
        same_doc(x.v, y.v),
        same_doc(x.department, y.department),
        same_doc(x.code, y.code),
        same_doc(x.abac_last_time_checked, y.abac_last_time_checked),
        same_doc(x.custom_fields, y.custom_fields),
    ensures
        x.doc() == y.doc(),
{
    let m0 = Map::<Seq<char>, JsonView>::empty();
    let m1 = with(m0, "_id"@, x.id.doc());
    let m2 = with(m1, "_updatedAt"@, x.updated_at.doc());
    let m3 = with(m2, "rid"@, x.rid.doc());
    let m4 = with(m3, "u"@, x.u.doc());
    let m5 = with(m4, "t"@, x.t.doc());
    let m6 = with(m5, "ts"@, x.ts.doc());
    let m7 = with(m6, "name"@, x.name.doc());
    let m8 = with(m7, "open"@, x.open.doc());
    let m9 = with(m8, "unread"@, x.unread.doc());
    let m10 = with(m9, "userMentions"@, x.user_mentions.doc());
    let m11 = with(m10, "groupMentions"@, x.group_mentions.doc());
    let m12 = with_some(m11, "fname"@, x.fname);
    lemma_same_some(m11, "fname"@, x.fname, y.fname);
    let m13 = with_some(m12, "alert"@, x.alert);
    lemma_same_some(m12, "alert"@, x.alert, y.alert);
    let m14 = with_some(m13, "ls"@, x.ls);
    lemma_same_some(m13, "ls"@, x.ls, y.ls);
    let m15 = with_some(m14, "lr"@, x.lr);
    lemma_same_some(m14, "lr"@, x.lr, y.lr);
    let m16 = with_some(m15, "f"@, x.f);
    lemma_same_some(m15, "f"@, x.f, y.f);
    let m17 = with_some(m16, "hideUnreadStatus"@, x.hide_unread_status);
    lemma_same_some(m16, "hideUnreadStatus"@, x.hide_unread_status, y.hide_unread_status);
    let m18 = with_some(m17, "hideMentionStatus"@, x.hide_mention_status);
    lemma_same_some(m17, "hideMentionStatus"@, x.hide_mention_status, y.hide_mention_status);
    let m19 = with_some(m18, "teamMain"@, x.team_main);
    lemma_same_some(m18, "teamMain"@, x.team_main, y.team_main);
    let m20 = with_some(m19, "teamId"@, x.team_id);
    lemma_same_some(m19, "teamId"@, x.team_id, y.team_id);
    let m21 = with_some(m20, "broadcast"@, x.broadcast);
    lemma_same_some(m20, "broadcast"@, x.broadcast, y.broadcast);
    let m22 = with_some(m21, "prid"@, x.prid);
    lemma_same_some(m21, "prid"@, x.prid, y.prid);
    let m23 = with_some(m22, "tunread"@, x.tunread);
    lemma_same_some(m22, "tunread"@, x.tunread, y.tunread);
    let m24 = with_some(m23, "tunreadGroup"@, x.tunread_group);
    lemma_same_some(m23, "tunreadGroup"@, x.tunread_group, y.tunread_group);
    let m25 = with_some(m24, "tunreadUser"@, x.tunread_user);
    lemma_same_some(m24, "tunreadUser"@, x.tunread_user, y.tunread_user);
    let m26 = with_some(m25, "roles"@, x.roles);
    lemma_same_some(m25, "roles"@, x.roles, y.roles);
    let m27 = with_some(m26, "onHold"@, x.on_hold);
    lemma_same_some(m26, "onHold"@, x.on_hold, y.on_hold);
    let m28 = with_some(m27, "encrypted"@, x.encrypted);
    lemma_same_some(m27, "encrypted"@, x.encrypted, y.encrypted);
    let m29 = with_some(m28, "E2EKey"@, x.e2e_key);
    lemma_same_some(m28, "E2EKey"@, x.e2e_key, y.e2e_key);
    let m30 = with_some(m29, "E2ESuggestedKey"@, x.e2e_suggested_key);
    lemma_same_some(m29, "E2ESuggestedKey"@, x.e2e_suggested_key, y.e2e_suggested_key);
    let m31 = with_some(m30, "oldRoomKeys"@, x.old_room_keys);
    lemma_same_some(m30, "oldRoomKeys"@, x.old_room_keys, y.old_room_keys);
    let m32 = with_some(m31, "suggestedOldRoomKeys"@, x.suggested_old_room_keys);
    lemma_same_some(m31, "suggestedOldRoomKeys"@, x.suggested_old_room_keys, y.suggested_old_room_keys);
    let m33 = with_some(m32, "unreadAlert"@, x.unread_alert);
    lemma_same_some(m32, "unreadAlert"@, x.unread_alert, y.unread_alert);
    let m34 = with_some(m33, "desktopNotifications"@, x.desktop_notifications);
    lemma_same_some(m33, "desktopNotifications"@, x.desktop_notifications, y.desktop_notifications);
    let m35 = with_some(m34, "mobilePushNotifications"@, x.mobile_push_notifications);
    lemma_same_some(m34, "mobilePushNotifications"@, x.mobile_push_notifications, y.mobile_push_notifications);
    let m36 = with_some(m35, "emailNotifications"@, x.email_notifications);
    lemma_same_some(m35, "emailNotifications"@, x.email_notifications, y.email_notifications);
    let m37 = with_some(m36, "desktopPrefOrigin"@, x.desktop_pref_origin);
    lemma_same_some(m36, "desktopPrefOrigin"@, x.desktop_pref_origin, y.desktop_pref_origin);
    let m38 = with_some(m37, "mobilePrefOrigin"@, x.mobile_pref_origin);
    lemma_same_some(m37, "mobilePrefOrigin"@, x.mobile_pref_origin, y.mobile_pref_origin);
    let m39 = with_some(m38, "emailPrefOrigin"@, x.email_pref_origin);
    lemma_same_some(m38, "emailPrefOrigin"@, x.email_pref_origin, y.email_pref_origin);
    let m40 = with_some(m39, "audioNotificationValue"@, x.audio_notification_value);
    lemma_same_some(m39, "audioNotificationValue"@, x.audio_notification_value, y.audio_notification_value);
    let m41 = with_some(m40, "disableNotifications"@, x.disable_notifications);
    lemma_same_some(m40, "disableNotifications"@, x.disable_notifications, y.disable_notifications);
    let m42 = with_some(m41, "muteGroupMentions"@, x.mute_group_mentions);
    lemma_same_some(m41, "muteGroupMentions"@, x.mute_group_mentions, y.mute_group_mentions);
    let m43 = with_some(m42, "userHighlights"@, x.user_highlights);
    lemma_same_some(m42, "userHighlights"@, x.user_highlights, y.user_highlights);
    let m44 = with_some(m43, "ignored"@, x.ignored);
    lemma_same_some(m43, "ignored"@, x.ignored, y.ignored);
    let m45 = with_some(m44, "archived"@, x.archived);
    lemma_same_some(m44, "archived"@, x.archived, y.archived);
    let m46 = with_some(m45, "autoTranslate"@, x.auto_translate);
    lemma_same_some(m45, "autoTranslate"@, x.auto_translate, y.auto_translate);
    let m47 = with_some(m46, "autoTranslateLanguage"@, x.auto_translate_language);
    lemma_same_some(m46, "autoTranslateLanguage"@, x.auto_translate_language, y.auto_translate_language);
    let m48 = with_some(m47, "blocked"@, x.blocked);
    lemma_same_some(m47, "blocked"@, x.blocked, y.blocked);
    let m49 = with_some(m48, "blocker"@, x.blocker);
    lemma_same_some(m48, "blocker"@, x.blocker, y.blocker);
    let m50 = with_some(m49, "draft"@, x.draft);
    lemma_same_some(m49, "draft"@, x.draft, y.draft);
    let m51 = with_some(m50, "threadDrafts"@, x.thread_drafts);
    lemma_same_some(m50, "threadDrafts"@, x.thread_drafts, y.thread_drafts);
    let m52 = with_some(m51, "status"@, x.status);
    lemma_same_some(m51, "status"@, x.status, y.status);
    let m53 = with_some(m52, "inviter"@, x.inviter);
    lemma_same_some(m52, "inviter"@, x.inviter, y.inviter);
    let m54 = with_some(m53, "v"@, x.v);
    lemma_same_some(m53, "v"@, x.v, y.v);
    let m55 = with_some(m54, "department"@, x.department);
    lemma_same_some(m54, "department"@, x.department, y.department);
    let m56 = with_some(m55, "code"@, x.code);
    lemma_same_some(m55, "code"@, x.code, y.code);
    let m57 = with_some(m56, "abacLastTimeChecked"@, x.abac_last_time_checked);
    lemma_same_some(m56, "abacLastTimeChecked"@, x.abac_last_time_checked, y.abac_last_time_checked);
    let m58 = with_some(m57, "customFields"@, x.custom_fields);
    lemma_same_some(m57, "customFields"@, x.custom_fields, y.custom_fields);
}

impl RoundTrip for Subscription {
    open spec fn writable(&self) -> bool {
        &&& self.id.writable()
        &&& self.updated_at.writable()
        &&& self.rid.writable()
        &&& self.u.writable()
        &&& self.t.writable()
        &&& self.ts.writable()
        &&& self.name.writable()
        &&& self.open.writable()
        &&& self.unread.writable()
        &&& self.user_mentions.writable()
        &&& self.group_mentions.writable()
        &&& opt_writable(self.fname)
        &&& opt_writable(self.alert)
        &&& opt_writable(self.ls)
        &&& opt_writable(self.lr)
        &&& opt_writable(self.f)
        &&& opt_writable(self.hide_unread_status)
        &&& opt_writable(self.hide_mention_status)
        &&& opt_writable(self.team_main)
        &&& opt_writable(self.team_id)
        &&& opt_writable(self.broadcast)
        &&& opt_writable(self.prid)
        &&& opt_writable(self.tunread)
        &&& opt_writable(self.tunread_group)
        &&& opt_writable(self.tunread_user)
        &&& opt_writable(self.roles)
        &&& opt_writable(self.on_hold)
        &&& opt_writable(self.encrypted)
        &&& opt_writable(self.e2e_key)
        &&& opt_writable(self.e2e_suggested_key)
        &&& opt_writable(self.old_room_keys)
        &&& opt_writable(self.suggested_old_room_keys)
        &&& opt_writable(self.unread_alert)
        &&& opt_writable(self.desktop_notifications)
        &&& opt_writable(self.mobile_push_notifications)
        &&& opt_writable(self.email_notifications)
        &&& opt_writable(self.desktop_pref_origin)
        &&& opt_writable(self.mobile_pref_origin)
        &&& opt_writable(self.email_pref_origin)
        &&& opt_writable(self.audio_notification_value)
        &&& opt_writable(self.disable_notifications)
        &&& opt_writable(self.mute_group_mentions)
        &&& opt_writable(self.user_highlights)
        &&& opt_writable(self.ignored)
        &&& opt_writable(self.archived)
        &&& opt_writable(self.auto_translate)
        &&& opt_writable(self.auto_translate_language)
        &&& opt_writable(self.blocked)
        &&& opt_writable(self.blocker)
        &&& opt_writable(self.draft)
        &&& opt_writable(self.thread_drafts)
        &&& opt_writable(self.status)
        &&& opt_writable(self.inviter)
        &&& opt_writable(self.v)
        &&& opt_writable(self.department)
        &&& opt_writable(self.code)
        &&& opt_writable(self.abac_last_time_checked)
        &&& opt_writable(self.custom_fields)
    }

    proof fn law_round_trip(&self, back: &Subscription) {
        lemma_subscription_accepted(*self);
        if back.read_from(self.doc()) {
            law_subscription_members(*self);
            lemma_required(self.id, back.id);
            lemma_required(self.updated_at, back.updated_at);
            lemma_required(self.rid, back.rid);
            lemma_required(self.u, back.u);
            lemma_required(self.t, back.t);
            lemma_required(self.ts, back.ts);
            lemma_required(self.name, back.name);
            lemma_required(self.open, back.open);
            lemma_required(self.unread, back.unread);
            lemma_required(self.user_mentions, back.user_mentions);
            lemma_required(self.group_mentions, back.group_mentions);
            lemma_optional(self.fname, back.fname);
            lemma_optional(self.alert, back.alert);
            lemma_date(self.ls, back.ls);
            lemma_date(self.lr, back.lr);
            lemma_optional(self.f, back.f);
            lemma_optional(self.hide_unread_status, back.hide_unread_status);
            lemma_optional(self.hide_mention_status, back.hide_mention_status);
            lemma_optional(self.team_main, back.team_main);
            lemma_optional(self.team_id, back.team_id);
            lemma_optional(self.broadcast, back.broadcast);
            lemma_optional(self.prid, back.prid);
            lemma_optional(self.tunread, back.tunread);
            lemma_optional(self.tunread_group, back.tunread_group);
            lemma_optional(self.tunread_user, back.tunread_user);
            lemma_optional(self.roles, back.roles);
            lemma_optional(self.on_hold, back.on_hold);
            lemma_optional(self.encrypted, back.encrypted);
            lemma_optional(self.e2e_key, back.e2e_key);
            lemma_optional(self.e2e_suggested_key, back.e2e_suggested_key);
            lemma_optional(self.old_room_keys, back.old_room_keys);
            lemma_optional(self.suggested_old_room_keys, back.suggested_old_room_keys);
            lemma_optional(self.unread_alert, back.unread_alert);
            lemma_optional(self.desktop_notifications, back.desktop_notifications);
            lemma_optional(self.mobile_push_notifications, back.mobile_push_notifications);
            lemma_optional(self.email_notifications, back.email_notifications);
            lemma_optional(self.desktop_pref_origin, back.desktop_pref_origin);
            lemma_optional(self.mobile_pref_origin, back.mobile_pref_origin);
            lemma_optional(self.email_pref_origin, back.email_pref_origin);
            lemma_optional(self.audio_notification_value, back.audio_notification_value);
            lemma_optional(self.disable_notifications, back.disable_notifications);
            lemma_optional(self.mute_group_mentions, back.mute_group_mentions);
            lemma_optional(self.user_highlights, back.user_highlights);
            lemma_optional(self.ignored, back.ignored);
            lemma_optional(self.archived, back.archived);
            lemma_optional(self.auto_translate, back.auto_translate);
            lemma_optional(self.auto_translate_language, back.auto_translate_language);
            lemma_optional(self.blocked, back.blocked);
            lemma_optional(self.blocker, back.blocker);
            lemma_optional(self.draft, back.draft);
            lemma_optional(self.thread_drafts, back.thread_drafts);
            lemma_optional(self.status, back.status);
            lemma_optional(self.inviter, back.inviter);
            lemma_optional(self.v, back.v);
            lemma_optional(self.department, back.department);
            lemma_optional(self.code, back.code);
            lemma_date(self.abac_last_time_checked, back.abac_last_time_checked);
            lemma_optional(self.custom_fields, back.custom_fields);
            lemma_subscription_same(*back, *self);
        }
    }
}

} // verus!

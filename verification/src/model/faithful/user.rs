//! A user comes back as it was.
use crate::model::entity::user::User;
use crate::model::faithful::{
    lemma_date, lemma_held, lemma_holds_more, lemma_holds_none, lemma_optional, lemma_placed_more,
    lemma_placed_none, lemma_required, lemma_same_some, lemma_with, lemma_with_some, opt_doc,
    opt_writable, placed, tag, RoundTrip,
};
use crate::model::json::JsonView;
use crate::model::wire::{same_doc, slot, with, with_some, Decode, Encode};
use vstd::prelude::*;
use vstd::string::*;

verus! {

/// The names of the members of a [`User`], in order.
spec fn user_key(i: int) -> Seq<char> {
    if i == 0 {
        "_id"@
    } else if i == 1 {
        "_updatedAt"@
    } else if i == 2 {
        "createdAt"@
    } else if i == 3 {
        "username"@
    } else if i == 4 {
        "name"@
    } else if i == 5 {
        "nickname"@
    } else if i == 6 {
        "bio"@
    } else if i == 7 {
        "roles"@
    } else if i == 8 {
        "type"@
    } else if i == 9 {
        "active"@
    } else if i == 10 {
        "inactiveReason"@
    } else if i == 11 {
        "status"@
    } else if i == 12 {
        "statusDefault"@
    } else if i == 13 {
        "statusConnection"@
    } else if i == 14 {
        "statusText"@
    } else if i == 15 {
        "statusSource"@
    } else if i == 16 {
        "statusExpiresAt"@
    } else if i == 17 {
        "statusId"@
    } else if i == 18 {
        "lastLogin"@
    } else if i == 19 {
        "emails"@
    } else if i == 20 {
        "avatarOrigin"@
    } else if i == 21 {
        "avatarETag"@
    } else if i == 22 {
        "avatarUrl"@
    } else if i == 23 {
        "utcOffset"@
    } else if i == 24 {
        "language"@
    } else if i == 25 {
        "phone"@
    } else if i == 26 {
        "reason"@
    } else if i == 27 {
        "e2e"@
    } else if i == 28 {
        "settings"@
    } else if i == 29 {
        "customFields"@
    } else if i == 30 {
        "banners"@
    } else if i == 31 {
        "defaultRoom"@
    } else if i == 32 {
        "ldap"@
    } else if i == 33 {
        "requirePasswordChange"@
    } else if i == 34 {
        "requirePasswordChangeReason"@
    } else if i == 35 {
        "roomRolePriorities"@
    } else if i == 36 {
        "__rooms"@
    } else if i == 37 {
        "importIds"@
    } else if i == 38 {
        "inviteToken"@
    } else if i == 39 {
        "freeSwitchExtension"@
    } else if i == 40 {
        "canViewAllInfo"@
    } else if i == 41 {
        "providerId"@
    } else if i == 42 {
        "abacAttributes"@
    } else if i == 43 {
        "federated"@
    } else if i == 44 {
        "federation"@
    } else {
        Seq::empty()
    }
}

/// What each member of a [`User`] is written as.
spec fn user_value(x: User, i: int) -> Option<JsonView> {
    if i == 0 {
        Some(x.id.doc())
    } else if i == 1 {
        opt_doc(x.updated_at)
    } else if i == 2 {
        opt_doc(x.created_at)
    } else if i == 3 {
        opt_doc(x.username)
    } else if i == 4 {
        opt_doc(x.name)
    } else if i == 5 {
        opt_doc(x.nickname)
    } else if i == 6 {
        opt_doc(x.bio)
    } else if i == 7 {
        opt_doc(x.roles)
    } else if i == 8 {
        opt_doc(x.user_type)
    } else if i == 9 {
        opt_doc(x.active)
    } else if i == 10 {
        opt_doc(x.inactive_reason)
    } else if i == 11 {
        opt_doc(x.status)
    } else if i == 12 {
        opt_doc(x.status_default)
    } else if i == 13 {
        opt_doc(x.status_connection)
    } else if i == 14 {
        opt_doc(x.status_text)
    } else if i == 15 {
        opt_doc(x.status_source)
    } else if i == 16 {
        opt_doc(x.status_expires_at)
    } else if i == 17 {
        opt_doc(x.status_id)
    } else if i == 18 {
        opt_doc(x.last_login)
    } else if i == 19 {
        opt_doc(x.emails)
    } else if i == 20 {
        opt_doc(x.avatar_origin)
    } else if i == 21 {
        opt_doc(x.avatar_etag)
    } else if i == 22 {
        opt_doc(x.avatar_url)
    } else if i == 23 {
        opt_doc(x.utc_offset)
    } else if i == 24 {
        opt_doc(x.language)
    } else if i == 25 {
        opt_doc(x.phone)
    } else if i == 26 {
        opt_doc(x.reason)
    } else if i == 27 {
        opt_doc(x.e2e)
    } else if i == 28 {
        opt_doc(x.settings)
    } else if i == 29 {
        opt_doc(x.custom_fields)
    } else if i == 30 {
        opt_doc(x.banners)
    } else if i == 31 {
        opt_doc(x.default_room)
    } else if i == 32 {
        opt_doc(x.ldap)
    } else if i == 33 {
        opt_doc(x.require_password_change)
    } else if i == 34 {
        opt_doc(x.require_password_change_reason)
    } else if i == 35 {
        opt_doc(x.room_role_priorities)
    } else if i == 36 {
        opt_doc(x.rooms)
    } else if i == 37 {
        opt_doc(x.import_ids)
    } else if i == 38 {
        opt_doc(x.invite_token)
    } else if i == 39 {
        opt_doc(x.free_switch_extension)
    } else if i == 40 {
        opt_doc(x.can_view_all_info)
    } else if i == 41 {
        opt_doc(x.provider_id)
    } else if i == 42 {
        opt_doc(x.abac_attributes)
    } else if i == 43 {
        opt_doc(x.federated)
    } else if i == 44 {
        opt_doc(x.federation)
    } else {
        None
    }
}

/// The position of a name.
spec fn user_position(s: Seq<char>) -> int {
    let t = tag(s, 0, 1, 2);
    if t == 100105095003 {
        0
    } else if t == 112117095010 {
        1
    } else if t == 101114099009 {
        2
    } else if t == 101115117008 {
        3
    } else if t == 109097110004 {
        4
    } else if t == 99105110008 {
        5
    } else if t == 111105098003 {
        6
    } else if t == 108111114005 {
        7
    } else if t == 112121116004 {
        8
    } else if t == 116099097006 {
        9
    } else if t == 97110105014 {
        10
    } else if t == 97116115006 {
        11
    } else if t == 97116115013 {
        12
    } else if t == 97116115016 {
        13
    } else if t == 97116115010 {
        14
    } else if t == 97116115012 {
        15
    } else if t == 97116115015 {
        16
    } else if t == 97116115008 {
        17
    } else if t == 115097108009 {
        18
    } else if t == 97109101006 {
        19
    } else if t == 97118097012 {
        20
    } else if t == 97118097010 {
        21
    } else if t == 97118097009 {
        22
    } else if t == 99116117009 {
        23
    } else if t == 110097108008 {
        24
    } else if t == 111104112005 {
        25
    } else if t == 97101114006 {
        26
    } else if t == 101050101003 {
        27
    } else if t == 116101115008 {
        28
    } else if t == 115117099012 {
        29
    } else if t == 110097098007 {
        30
    } else if t == 102101100011 {
        31
    } else if t == 97100108004 {
        32
    } else if t == 113101114021 {
        33
    } else if t == 113101114027 {
        34
    } else if t == 111111114018 {
        35
    } else if t == 114095095007 {
        36
    } else if t == 112109105009 {
        37
    } else if t == 118110105011 {
        38
    } else if t == 101114102019 {
        39
    } else if t == 110097099014 {
        40
    } else if t == 111114112010 {
        41
    } else if t == 97098097014 {
        42
    } else if t == 100101102009 {
        43
    } else if t == 100101102010 {
        44
    } else {
        -1
    }
}

proof fn lemma_user_keys()
    ensures
        placed(|i: int| user_key(i), |s: Seq<char>| user_position(s), 45),
{
    let key = |i: int| user_key(i);
    let position = |s: Seq<char>| user_position(s);
    lemma_placed_none(key, position);
    assert(user_position("_id"@) == 0) by {
        reveal_strlit("_id");
        assert("_id"@.len() == 3);
        assert("_id"@[0] == '_');
        assert("_id"@[1] == 'i');
        assert("_id"@[2] == 'd');
    }
    lemma_placed_more(key, position, 0);
    assert(user_position("_updatedAt"@) == 1) by {
        reveal_strlit("_updatedAt");
        assert("_updatedAt"@.len() == 10);
        assert("_updatedAt"@[0] == '_');
        assert("_updatedAt"@[1] == 'u');
        assert("_updatedAt"@[2] == 'p');
    }
    lemma_placed_more(key, position, 1);
    assert(user_position("createdAt"@) == 2) by {
        reveal_strlit("createdAt");
        assert("createdAt"@.len() == 9);
        assert("createdAt"@[0] == 'c');
        assert("createdAt"@[1] == 'r');
        assert("createdAt"@[2] == 'e');
    }
    lemma_placed_more(key, position, 2);
    assert(user_position("username"@) == 3) by {
        reveal_strlit("username");
        assert("username"@.len() == 8);
        assert("username"@[0] == 'u');
        assert("username"@[1] == 's');
        assert("username"@[2] == 'e');
    }
    lemma_placed_more(key, position, 3);
    assert(user_position("name"@) == 4) by {
        reveal_strlit("name");
        assert("name"@.len() == 4);
        assert("name"@[0] == 'n');
        assert("name"@[1] == 'a');
        assert("name"@[2] == 'm');
    }
    lemma_placed_more(key, position, 4);
    assert(user_position("nickname"@) == 5) by {
        reveal_strlit("nickname");
        assert("nickname"@.len() == 8);
        assert("nickname"@[0] == 'n');
        assert("nickname"@[1] == 'i');
        assert("nickname"@[2] == 'c');
    }
    lemma_placed_more(key, position, 5);
    assert(user_position("bio"@) == 6) by {
        reveal_strlit("bio");
        assert("bio"@.len() == 3);
        assert("bio"@[0] == 'b');
        assert("bio"@[1] == 'i');
        assert("bio"@[2] == 'o');
    }
    lemma_placed_more(key, position, 6);
    assert(user_position("roles"@) == 7) by {
        reveal_strlit("roles");
        assert("roles"@.len() == 5);
        assert("roles"@[0] == 'r');
        assert("roles"@[1] == 'o');
        assert("roles"@[2] == 'l');
    }
    lemma_placed_more(key, position, 7);
    assert(user_position("type"@) == 8) by {
        reveal_strlit("type");
        assert("type"@.len() == 4);
        assert("type"@[0] == 't');
        assert("type"@[1] == 'y');
        assert("type"@[2] == 'p');
    }
    lemma_placed_more(key, position, 8);
    assert(user_position("active"@) == 9) by {
        reveal_strlit("active");
        assert("active"@.len() == 6);
        assert("active"@[0] == 'a');
        assert("active"@[1] == 'c');
        assert("active"@[2] == 't');
    }
    lemma_placed_more(key, position, 9);
    assert(user_position("inactiveReason"@) == 10) by {
        reveal_strlit("inactiveReason");
        assert("inactiveReason"@.len() == 14);
        assert("inactiveReason"@[0] == 'i');
        assert("inactiveReason"@[1] == 'n');
        assert("inactiveReason"@[2] == 'a');
    }
    lemma_placed_more(key, position, 10);
    assert(user_position("status"@) == 11) by {
        reveal_strlit("status");
        assert("status"@.len() == 6);
        assert("status"@[0] == 's');
        assert("status"@[1] == 't');
        assert("status"@[2] == 'a');
    }
    lemma_placed_more(key, position, 11);
    assert(user_position("statusDefault"@) == 12) by {
        reveal_strlit("statusDefault");
        assert("statusDefault"@.len() == 13);
        assert("statusDefault"@[0] == 's');
        assert("statusDefault"@[1] == 't');
        assert("statusDefault"@[2] == 'a');
    }
    lemma_placed_more(key, position, 12);
    assert(user_position("statusConnection"@) == 13) by {
        reveal_strlit("statusConnection");
        assert("statusConnection"@.len() == 16);
        assert("statusConnection"@[0] == 's');
        assert("statusConnection"@[1] == 't');
        assert("statusConnection"@[2] == 'a');
    }
    lemma_placed_more(key, position, 13);
    assert(user_position("statusText"@) == 14) by {
        reveal_strlit("statusText");
        assert("statusText"@.len() == 10);
        assert("statusText"@[0] == 's');
        assert("statusText"@[1] == 't');
        assert("statusText"@[2] == 'a');
    }
    lemma_placed_more(key, position, 14);
    assert(user_position("statusSource"@) == 15) by {
        reveal_strlit("statusSource");
        assert("statusSource"@.len() == 12);
        assert("statusSource"@[0] == 's');
        assert("statusSource"@[1] == 't');
        assert("statusSource"@[2] == 'a');
    }
    lemma_placed_more(key, position, 15);
    assert(user_position("statusExpiresAt"@) == 16) by {
        reveal_strlit("statusExpiresAt");
        assert("statusExpiresAt"@.len() == 15);
        assert("statusExpiresAt"@[0] == 's');
        assert("statusExpiresAt"@[1] == 't');
        assert("statusExpiresAt"@[2] == 'a');
    }
    lemma_placed_more(key, position, 16);
    assert(user_position("statusId"@) == 17) by {
        reveal_strlit("statusId");
        assert("statusId"@.len() == 8);
        assert("statusId"@[0] == 's');
        assert("statusId"@[1] == 't');
        assert("statusId"@[2] == 'a');
    }
    lemma_placed_more(key, position, 17);
    assert(user_position("lastLogin"@) == 18) by {
        reveal_strlit("lastLogin");
        assert("lastLogin"@.len() == 9);
        assert("lastLogin"@[0] == 'l');
        assert("lastLogin"@[1] == 'a');
        assert("lastLogin"@[2] == 's');
    }
    lemma_placed_more(key, position, 18);
    assert(user_position("emails"@) == 19) by {
        reveal_strlit("emails");
        assert("emails"@.len() == 6);
        assert("emails"@[0] == 'e');
        assert("emails"@[1] == 'm');
        assert("emails"@[2] == 'a');
    }
    lemma_placed_more(key, position, 19);
    assert(user_position("avatarOrigin"@) == 20) by {
        reveal_strlit("avatarOrigin");
        assert("avatarOrigin"@.len() == 12);
        assert("avatarOrigin"@[0] == 'a');
        assert("avatarOrigin"@[1] == 'v');
        assert("avatarOrigin"@[2] == 'a');
    }
    lemma_placed_more(key, position, 20);
    assert(user_position("avatarETag"@) == 21) by {
        reveal_strlit("avatarETag");
        assert("avatarETag"@.len() == 10);
        assert("avatarETag"@[0] == 'a');
        assert("avatarETag"@[1] == 'v');
        assert("avatarETag"@[2] == 'a');
    }
    lemma_placed_more(key, position, 21);
    assert(user_position("avatarUrl"@) == 22) by {
        reveal_strlit("avatarUrl");
        assert("avatarUrl"@.len() == 9);
        assert("avatarUrl"@[0] == 'a');
        assert("avatarUrl"@[1] == 'v');
        assert("avatarUrl"@[2] == 'a');
    }
    lemma_placed_more(key, position, 22);
    assert(user_position("utcOffset"@) == 23) by {
        reveal_strlit("utcOffset");
        assert("utcOffset"@.len() == 9);
        assert("utcOffset"@[0] == 'u');
        assert("utcOffset"@[1] == 't');
        assert("utcOffset"@[2] == 'c');
    }
    lemma_placed_more(key, position, 23);
    assert(user_position("language"@) == 24) by {
        reveal_strlit("language");
        assert("language"@.len() == 8);
        assert("language"@[0] == 'l');
        assert("language"@[1] == 'a');
        assert("language"@[2] == 'n');
    }
    lemma_placed_more(key, position, 24);
    assert(user_position("phone"@) == 25) by {
        reveal_strlit("phone");
        assert("phone"@.len() == 5);
        assert("phone"@[0] == 'p');
        assert("phone"@[1] == 'h');
        assert("phone"@[2] == 'o');
    }
    lemma_placed_more(key, position, 25);
    assert(user_position("reason"@) == 26) by {
        reveal_strlit("reason");
        assert("reason"@.len() == 6);
        assert("reason"@[0] == 'r');
        assert("reason"@[1] == 'e');
        assert("reason"@[2] == 'a');
    }
    lemma_placed_more(key, position, 26);
    assert(user_position("e2e"@) == 27) by {
        reveal_strlit("e2e");
        assert("e2e"@.len() == 3);
        assert("e2e"@[0] == 'e');
        assert("e2e"@[1] == '2');
        assert("e2e"@[2] == 'e');
    }
    lemma_placed_more(key, position, 27);
    assert(user_position("settings"@) == 28) by {
        reveal_strlit("settings");
        assert("settings"@.len() == 8);
        assert("settings"@[0] == 's');
        assert("settings"@[1] == 'e');
        assert("settings"@[2] == 't');
    }
    lemma_placed_more(key, position, 28);
    assert(user_position("customFields"@) == 29) by {
        reveal_strlit("customFields");
        assert("customFields"@.len() == 12);
        assert("customFields"@[0] == 'c');
        assert("customFields"@[1] == 'u');
        assert("customFields"@[2] == 's');
    }
    lemma_placed_more(key, position, 29);
    assert(user_position("banners"@) == 30) by {
        reveal_strlit("banners");
        assert("banners"@.len() == 7);
        assert("banners"@[0] == 'b');
        assert("banners"@[1] == 'a');
        assert("banners"@[2] == 'n');
    }
    lemma_placed_more(key, position, 30);
    assert(user_position("defaultRoom"@) == 31) by {
        reveal_strlit("defaultRoom");
        assert("defaultRoom"@.len() == 11);
        assert("defaultRoom"@[0] == 'd');
        assert("defaultRoom"@[1] == 'e');
        assert("defaultRoom"@[2] == 'f');
    }
    lemma_placed_more(key, position, 31);
    assert(user_position("ldap"@) == 32) by {
        reveal_strlit("ldap");
        assert("ldap"@.len() == 4);
        assert("ldap"@[0] == 'l');
        assert("ldap"@[1] == 'd');
        assert("ldap"@[2] == 'a');
    }
    lemma_placed_more(key, position, 32);
    assert(user_position("requirePasswordChange"@) == 33) by {
        reveal_strlit("requirePasswordChange");
        assert("requirePasswordChange"@.len() == 21);
        assert("requirePasswordChange"@[0] == 'r');
        assert("requirePasswordChange"@[1] == 'e');
        assert("requirePasswordChange"@[2] == 'q');
    }
    lemma_placed_more(key, position, 33);
    assert(user_position("requirePasswordChangeReason"@) == 34) by {
        reveal_strlit("requirePasswordChangeReason");
        assert("requirePasswordChangeReason"@.len() == 27);
        assert("requirePasswordChangeReason"@[0] == 'r');
        assert("requirePasswordChangeReason"@[1] == 'e');
        assert("requirePasswordChangeReason"@[2] == 'q');
    }
    lemma_placed_more(key, position, 34);
    assert(user_position("roomRolePriorities"@) == 35) by {
        reveal_strlit("roomRolePriorities");
        assert("roomRolePriorities"@.len() == 18);
        assert("roomRolePriorities"@[0] == 'r');
        assert("roomRolePriorities"@[1] == 'o');
        assert("roomRolePriorities"@[2] == 'o');
    }
    lemma_placed_more(key, position, 35);
    assert(user_position("__rooms"@) == 36) by {
        reveal_strlit("__rooms");
        assert("__rooms"@.len() == 7);
        assert("__rooms"@[0] == '_');
        assert("__rooms"@[1] == '_');
        assert("__rooms"@[2] == 'r');
    }
    lemma_placed_more(key, position, 36);
    assert(user_position("importIds"@) == 37) by {
        reveal_strlit("importIds");
        assert("importIds"@.len() == 9);
        assert("importIds"@[0] == 'i');
        assert("importIds"@[1] == 'm');
        assert("importIds"@[2] == 'p');
    }
    lemma_placed_more(key, position, 37);
    assert(user_position("inviteToken"@) == 38) by {
        reveal_strlit("inviteToken");
        assert("inviteToken"@.len() == 11);
        assert("inviteToken"@[0] == 'i');
        assert("inviteToken"@[1] == 'n');
        assert("inviteToken"@[2] == 'v');
    }
    lemma_placed_more(key, position, 38);
    assert(user_position("freeSwitchExtension"@) == 39) by {
        reveal_strlit("freeSwitchExtension");
        assert("freeSwitchExtension"@.len() == 19);
        assert("freeSwitchExtension"@[0] == 'f');
        assert("freeSwitchExtension"@[1] == 'r');
        assert("freeSwitchExtension"@[2] == 'e');
    }
    lemma_placed_more(key, position, 39);
    assert(user_position("canViewAllInfo"@) == 40) by {
        reveal_strlit("canViewAllInfo");
        assert("canViewAllInfo"@.len() == 14);
        assert("canViewAllInfo"@[0] == 'c');
        assert("canViewAllInfo"@[1] == 'a');
        assert("canViewAllInfo"@[2] == 'n');
    }
    lemma_placed_more(key, position, 40);
    assert(user_position("providerId"@) == 41) by {
        reveal_strlit("providerId");
        assert("providerId"@.len() == 10);
        assert("providerId"@[0] == 'p');
        assert("providerId"@[1] == 'r');
        assert("providerId"@[2] == 'o');
    }
    lemma_placed_more(key, position, 41);
    assert(user_position("abacAttributes"@) == 42) by {
        reveal_strlit("abacAttributes");
        assert("abacAttributes"@.len() == 14);
        assert("abacAttributes"@[0] == 'a');
        assert("abacAttributes"@[1] == 'b');
        assert("abacAttributes"@[2] == 'a');
    }
    lemma_placed_more(key, position, 42);
    assert(user_position("federated"@) == 43) by {
        reveal_strlit("federated");
        assert("federated"@.len() == 9);
        assert("federated"@[0] == 'f');
        assert("federated"@[1] == 'e');
        assert("federated"@[2] == 'd');
    }
    lemma_placed_more(key, position, 43);
    assert(user_position("federation"@) == 44) by {
        reveal_strlit("federation");
        assert("federation"@.len() == 10);
        assert("federation"@[0] == 'f');
        assert("federation"@[1] == 'e');
        assert("federation"@[2] == 'd');
    }
    lemma_placed_more(key, position, 44);
}

/// Each member of a written [`User`] is what its field is written as: a field that is unset has no
/// member.
pub proof fn law_user_members(x: User)
    ensures
        slot(x.doc(), "_id"@, 0) == Some(x.id.doc()),
        slot(x.doc(), "_updatedAt"@, 1) == opt_doc(x.updated_at),
        slot(x.doc(), "createdAt"@, 2) == opt_doc(x.created_at),
        slot(x.doc(), "username"@, 3) == opt_doc(x.username),
        slot(x.doc(), "name"@, 4) == opt_doc(x.name),
        slot(x.doc(), "nickname"@, 5) == opt_doc(x.nickname),
        slot(x.doc(), "bio"@, 6) == opt_doc(x.bio),
        slot(x.doc(), "roles"@, 7) == opt_doc(x.roles),
        slot(x.doc(), "type"@, 8) == opt_doc(x.user_type),
        slot(x.doc(), "active"@, 9) == opt_doc(x.active),
        slot(x.doc(), "inactiveReason"@, 10) == opt_doc(x.inactive_reason),
        slot(x.doc(), "status"@, 11) == opt_doc(x.status),
        slot(x.doc(), "statusDefault"@, 12) == opt_doc(x.status_default),
        slot(x.doc(), "statusConnection"@, 13) == opt_doc(x.status_connection),
        slot(x.doc(), "statusText"@, 14) == opt_doc(x.status_text),
        slot(x.doc(), "statusSource"@, 15) == opt_doc(x.status_source),
        slot(x.doc(), "statusExpiresAt"@, 16) == opt_doc(x.status_expires_at),
        slot(x.doc(), "statusId"@, 17) == opt_doc(x.status_id),
        slot(x.doc(), "lastLogin"@, 18) == opt_doc(x.last_login),
        slot(x.doc(), "emails"@, 19) == opt_doc(x.emails),
        slot(x.doc(), "avatarOrigin"@, 20) == opt_doc(x.avatar_origin),
        slot(x.doc(), "avatarETag"@, 21) == opt_doc(x.avatar_etag),
        slot(x.doc(), "avatarUrl"@, 22) == opt_doc(x.avatar_url),
        slot(x.doc(), "utcOffset"@, 23) == opt_doc(x.utc_offset),
        slot(x.doc(), "language"@, 24) == opt_doc(x.language),
        slot(x.doc(), "phone"@, 25) == opt_doc(x.phone),
        slot(x.doc(), "reason"@, 26) == opt_doc(x.reason),
        slot(x.doc(), "e2e"@, 27) == opt_doc(x.e2e),
        slot(x.doc(), "settings"@, 28) == opt_doc(x.settings),
        slot(x.doc(), "customFields"@, 29) == opt_doc(x.custom_fields),
        slot(x.doc(), "banners"@, 30) == opt_doc(x.banners),
        slot(x.doc(), "defaultRoom"@, 31) == opt_doc(x.default_room),
        slot(x.doc(), "ldap"@, 32) == opt_doc(x.ldap),
        slot(x.doc(), "requirePasswordChange"@, 33) == opt_doc(x.require_password_change),
        slot(x.doc(), "requirePasswordChangeReason"@, 34) == opt_doc(x.require_password_change_reason),
        slot(x.doc(), "roomRolePriorities"@, 35) == opt_doc(x.room_role_priorities),
        slot(x.doc(), "__rooms"@, 36) == opt_doc(x.rooms),
        slot(x.doc(), "importIds"@, 37) == opt_doc(x.import_ids),
        slot(x.doc(), "inviteToken"@, 38) == opt_doc(x.invite_token),
        slot(x.doc(), "freeSwitchExtension"@, 39) == opt_doc(x.free_switch_extension),
        slot(x.doc(), "canViewAllInfo"@, 40) == opt_doc(x.can_view_all_info),
        slot(x.doc(), "providerId"@, 41) == opt_doc(x.provider_id),
        slot(x.doc(), "abacAttributes"@, 42) == opt_doc(x.abac_attributes),
        slot(x.doc(), "federated"@, 43) == opt_doc(x.federated),
        slot(x.doc(), "federation"@, 44) == opt_doc(x.federation),
{
    lemma_user_keys();
    let key = |i: int| user_key(i);
    let value = |i: int| user_value(x, i);
    let position = |s: Seq<char>| user_position(s);
    let m0 = Map::<Seq<char>, JsonView>::empty();
    lemma_holds_none(key, value, 45);
    let m1 = with(m0, "_id"@, x.id.doc());
    lemma_with(m0, "_id"@, x.id.doc());
    lemma_holds_more(m0, key, value, position, 45, 0, m1);
    let m2 = with_some(m1, "_updatedAt"@, x.updated_at);
    lemma_with_some(m1, "_updatedAt"@, x.updated_at);
    lemma_holds_more(m1, key, value, position, 45, 1, m2);
    let m3 = with_some(m2, "createdAt"@, x.created_at);
    lemma_with_some(m2, "createdAt"@, x.created_at);
    lemma_holds_more(m2, key, value, position, 45, 2, m3);
    let m4 = with_some(m3, "username"@, x.username);
    lemma_with_some(m3, "username"@, x.username);
    lemma_holds_more(m3, key, value, position, 45, 3, m4);
    let m5 = with_some(m4, "name"@, x.name);
    lemma_with_some(m4, "name"@, x.name);
    lemma_holds_more(m4, key, value, position, 45, 4, m5);
    let m6 = with_some(m5, "nickname"@, x.nickname);
    lemma_with_some(m5, "nickname"@, x.nickname);
    lemma_holds_more(m5, key, value, position, 45, 5, m6);
    let m7 = with_some(m6, "bio"@, x.bio);
    lemma_with_some(m6, "bio"@, x.bio);
    lemma_holds_more(m6, key, value, position, 45, 6, m7);
    let m8 = with_some(m7, "roles"@, x.roles);
    lemma_with_some(m7, "roles"@, x.roles);
    lemma_holds_more(m7, key, value, position, 45, 7, m8);
    let m9 = with_some(m8, "type"@, x.user_type);
    lemma_with_some(m8, "type"@, x.user_type);
    lemma_holds_more(m8, key, value, position, 45, 8, m9);
    let m10 = with_some(m9, "active"@, x.active);
    lemma_with_some(m9, "active"@, x.active);
    lemma_holds_more(m9, key, value, position, 45, 9, m10);
    let m11 = with_some(m10, "inactiveReason"@, x.inactive_reason);
    lemma_with_some(m10, "inactiveReason"@, x.inactive_reason);
    lemma_holds_more(m10, key, value, position, 45, 10, m11);
    let m12 = with_some(m11, "status"@, x.status);
    lemma_with_some(m11, "status"@, x.status);
    lemma_holds_more(m11, key, value, position, 45, 11, m12);
    let m13 = with_some(m12, "statusDefault"@, x.status_default);
    lemma_with_some(m12, "statusDefault"@, x.status_default);
    lemma_holds_more(m12, key, value, position, 45, 12, m13);
    let m14 = with_some(m13, "statusConnection"@, x.status_connection);
    lemma_with_some(m13, "statusConnection"@, x.status_connection);
    lemma_holds_more(m13, key, value, position, 45, 13, m14);
    let m15 = with_some(m14, "statusText"@, x.status_text);
    lemma_with_some(m14, "statusText"@, x.status_text);
    lemma_holds_more(m14, key, value, position, 45, 14, m15);
    let m16 = with_some(m15, "statusSource"@, x.status_source);
    lemma_with_some(m15, "statusSource"@, x.status_source);
    lemma_holds_more(m15, key, value, position, 45, 15, m16);
    let m17 = with_some(m16, "statusExpiresAt"@, x.status_expires_at);
    lemma_with_some(m16, "statusExpiresAt"@, x.status_expires_at);
    lemma_holds_more(m16, key, value, position, 45, 16, m17);
    let m18 = with_some(m17, "statusId"@, x.status_id);
    lemma_with_some(m17, "statusId"@, x.status_id);
    lemma_holds_more(m17, key, value, position, 45, 17, m18);
    let m19 = with_some(m18, "lastLogin"@, x.last_login);
    lemma_with_some(m18, "lastLogin"@, x.last_login);
    lemma_holds_more(m18, key, value, position, 45, 18, m19);
    let m20 = with_some(m19, "emails"@, x.emails);
    lemma_with_some(m19, "emails"@, x.emails);
    lemma_holds_more(m19, key, value, position, 45, 19, m20);
    let m21 = with_some(m20, "avatarOrigin"@, x.avatar_origin);
    lemma_with_some(m20, "avatarOrigin"@, x.avatar_origin);
    lemma_holds_more(m20, key, value, position, 45, 20, m21);
    let m22 = with_some(m21, "avatarETag"@, x.avatar_etag);
    lemma_with_some(m21, "avatarETag"@, x.avatar_etag);
    lemma_holds_more(m21, key, value, position, 45, 21, m22);
    let m23 = with_some(m22, "avatarUrl"@, x.avatar_url);
    lemma_with_some(m22, "avatarUrl"@, x.avatar_url);
    lemma_holds_more(m22, key, value, position, 45, 22, m23);
    let m24 = with_some(m23, "utcOffset"@, x.utc_offset);
    lemma_with_some(m23, "utcOffset"@, x.utc_offset);
    lemma_holds_more(m23, key, value, position, 45, 23, m24);
    let m25 = with_some(m24, "language"@, x.language);
    lemma_with_some(m24, "language"@, x.language);
    lemma_holds_more(m24, key, value, position, 45, 24, m25);
    let m26 = with_some(m25, "phone"@, x.phone);
    lemma_with_some(m25, "phone"@, x.phone);
    lemma_holds_more(m25, key, value, position, 45, 25, m26);
    let m27 = with_some(m26, "reason"@, x.reason);
    lemma_with_some(m26, "reason"@, x.reason);
    lemma_holds_more(m26, key, value, position, 45, 26, m27);
    let m28 = with_some(m27, "e2e"@, x.e2e);
    lemma_with_some(m27, "e2e"@, x.e2e);
    lemma_holds_more(m27, key, value, position, 45, 27, m28);
    let m29 = with_some(m28, "settings"@, x.settings);
    lemma_with_some(m28, "settings"@, x.settings);
    lemma_holds_more(m28, key, value, position, 45, 28, m29);
    let m30 = with_some(m29, "customFields"@, x.custom_fields);
    lemma_with_some(m29, "customFields"@, x.custom_fields);
    lemma_holds_more(m29, key, value, position, 45, 29, m30);
    let m31 = with_some(m30, "banners"@, x.banners);
    lemma_with_some(m30, "banners"@, x.banners);
    lemma_holds_more(m30, key, value, position, 45, 30, m31);
    let m32 = with_some(m31, "defaultRoom"@, x.default_room);
    lemma_with_some(m31, "defaultRoom"@, x.default_room);
    lemma_holds_more(m31, key, value, position, 45, 31, m32);
    let m33 = with_some(m32, "ldap"@, x.ldap);
    lemma_with_some(m32, "ldap"@, x.ldap);
    lemma_holds_more(m32, key, value, position, 45, 32, m33);
    let m34 = with_some(m33, "requirePasswordChange"@, x.require_password_change);
    lemma_with_some(m33, "requirePasswordChange"@, x.require_password_change);
    lemma_holds_more(m33, key, value, position, 45, 33, m34);
    let m35 = with_some(m34, "requirePasswordChangeReason"@, x.require_password_change_reason);
    lemma_with_some(m34, "requirePasswordChangeReason"@, x.require_password_change_reason);
    lemma_holds_more(m34, key, value, position, 45, 34, m35);
    let m36 = with_some(m35, "roomRolePriorities"@, x.room_role_priorities);
    lemma_with_some(m35, "roomRolePriorities"@, x.room_role_priorities);
    lemma_holds_more(m35, key, value, position, 45, 35, m36);
    let m37 = with_some(m36, "__rooms"@, x.rooms);
    lemma_with_some(m36, "__rooms"@, x.rooms);
    lemma_holds_more(m36, key, value, position, 45, 36, m37);
    let m38 = with_some(m37, "importIds"@, x.import_ids);
    lemma_with_some(m37, "importIds"@, x.import_ids);
    lemma_holds_more(m37, key, value, position, 45, 37, m38);
    let m39 = with_some(m38, "inviteToken"@, x.invite_token);
    lemma_with_some(m38, "inviteToken"@, x.invite_token);
    lemma_holds_more(m38, key, value, position, 45, 38, m39);
    let m40 = with_some(m39, "freeSwitchExtension"@, x.free_switch_extension);
    lemma_with_some(m39, "freeSwitchExtension"@, x.free_switch_extension);
    lemma_holds_more(m39, key, value, position, 45, 39, m40);
    let m41 = with_some(m40, "canViewAllInfo"@, x.can_view_all_info);
    lemma_with_some(m40, "canViewAllInfo"@, x.can_view_all_info);
    lemma_holds_more(m40, key, value, position, 45, 40, m41);
    let m42 = with_some(m41, "providerId"@, x.provider_id);
    lemma_with_some(m41, "providerId"@, x.provider_id);
    lemma_holds_more(m41, key, value, position, 45, 41, m42);
    let m43 = with_some(m42, "abacAttributes"@, x.abac_attributes);
    lemma_with_some(m42, "abacAttributes"@, x.abac_attributes);
    lemma_holds_more(m42, key, value, position, 45, 42, m43);
    let m44 = with_some(m43, "federated"@, x.federated);
    lemma_with_some(m43, "federated"@, x.federated);
    lemma_holds_more(m43, key, value, position, 45, 43, m44);
    let m45 = with_some(m44, "federation"@, x.federation);
    lemma_with_some(m44, "federation"@, x.federation);
    lemma_holds_more(m44, key, value, position, 45, 44, m45);
    lemma_held(m45, key, value, 45, 0);
    lemma_held(m45, key, value, 45, 1);
    lemma_held(m45, key, value, 45, 2);
    lemma_held(m45, key, value, 45, 3);
    lemma_held(m45, key, value, 45, 4);
    lemma_held(m45, key, value, 45, 5);
    lemma_held(m45, key, value, 45, 6);
    lemma_held(m45, key, value, 45, 7);
    lemma_held(m45, key, value, 45, 8);
    lemma_held(m45, key, value, 45, 9);
    lemma_held(m45, key, value, 45, 10);
    lemma_held(m45, key, value, 45, 11);
    lemma_held(m45, key, value, 45, 12);
    lemma_held(m45, key, value, 45, 13);
    lemma_held(m45, key, value, 45, 14);
    lemma_held(m45, key, value, 45, 15);
    lemma_held(m45, key, value, 45, 16);
    lemma_held(m45, key, value, 45, 17);
    lemma_held(m45, key, value, 45, 18);
    lemma_held(m45, key, value, 45, 19);
    lemma_held(m45, key, value, 45, 20);
    lemma_held(m45, key, value, 45, 21);
    lemma_held(m45, key, value, 45, 22);
    lemma_held(m45, key, value, 45, 23);
    lemma_held(m45, key, value, 45, 24);
    lemma_held(m45, key, value, 45, 25);
    lemma_held(m45, key, value, 45, 26);
    lemma_held(m45, key, value, 45, 27);
    lemma_held(m45, key, value, 45, 28);
    lemma_held(m45, key, value, 45, 29);
    lemma_held(m45, key, value, 45, 30);
    lemma_held(m45, key, value, 45, 31);
    lemma_held(m45, key, value, 45, 32);
    lemma_held(m45, key, value, 45, 33);
    lemma_held(m45, key, value, 45, 34);
    lemma_held(m45, key, value, 45, 35);
    lemma_held(m45, key, value, 45, 36);
    lemma_held(m45, key, value, 45, 37);
    lemma_held(m45, key, value, 45, 38);
    lemma_held(m45, key, value, 45, 39);
    lemma_held(m45, key, value, 45, 40);
    lemma_held(m45, key, value, 45, 41);
    lemma_held(m45, key, value, 45, 42);
    lemma_held(m45, key, value, 45, 43);
    lemma_held(m45, key, value, 45, 44);
    assert(x.doc() == JsonView::Object(m45));
}

/// A written [`User`] can be read.
proof fn lemma_user_accepted(x: User)
    requires
        x.writable(),
    ensures
        User::accepts(x.doc()),
{
    law_user_members(x);
    lemma_required(x.id, x.id);
    lemma_date(x.updated_at, x.updated_at);
    lemma_date(x.created_at, x.created_at);
    lemma_optional(x.username, x.username);
    lemma_optional(x.name, x.name);
    lemma_optional(x.nickname, x.nickname);
    lemma_optional(x.bio, x.bio);
    lemma_optional(x.roles, x.roles);
    lemma_optional(x.user_type, x.user_type);
    lemma_optional(x.active, x.active);
    lemma_optional(x.inactive_reason, x.inactive_reason);
    lemma_optional(x.status, x.status);
    lemma_optional(x.status_default, x.status_default);
    lemma_optional(x.status_connection, x.status_connection);
    lemma_optional(x.status_text, x.status_text);
    lemma_optional(x.status_source, x.status_source);
    lemma_date(x.status_expires_at, x.status_expires_at);
    lemma_optional(x.status_id, x.status_id);
    lemma_date(x.last_login, x.last_login);
    lemma_optional(x.emails, x.emails);
    lemma_optional(x.avatar_origin, x.avatar_origin);
    lemma_optional(x.avatar_etag, x.avatar_etag);
    lemma_optional(x.avatar_url, x.avatar_url);
    lemma_optional(x.utc_offset, x.utc_offset);
    lemma_optional(x.language, x.language);
    lemma_optional(x.phone, x.phone);
    lemma_optional(x.reason, x.reason);
    lemma_optional(x.e2e, x.e2e);
    lemma_optional(x.settings, x.settings);
    lemma_optional(x.custom_fields, x.custom_fields);
    lemma_optional(x.banners, x.banners);
    lemma_optional(x.default_room, x.default_room);
    lemma_optional(x.ldap, x.ldap);
    lemma_optional(x.require_password_change, x.require_password_change);
    lemma_optional(x.require_password_change_reason, x.require_password_change_reason);
    lemma_optional(x.room_role_priorities, x.room_role_priorities);
    lemma_optional(x.rooms, x.rooms);
    lemma_optional(x.import_ids, x.import_ids);
    lemma_optional(x.invite_token, x.invite_token);
    lemma_optional(x.free_switch_extension, x.free_switch_extension);
    lemma_optional(x.can_view_all_info, x.can_view_all_info);
    lemma_optional(x.provider_id, x.provider_id);
    lemma_optional(x.abac_attributes, x.abac_attributes);
    lemma_optional(x.federated, x.federated);
    lemma_optional(x.federation, x.federation);
}

/// Two [`User`]s whose fields are written the same are written the same.
pub proof fn lemma_user_same(x: User, y: User)
    requires
        x.id.doc() == y.id.doc(),
        same_doc(x.updated_at, y.updated_at),
        same_doc(x.created_at, y.created_at),
        same_doc(x.username, y.username),
        same_doc(x.name, y.name),
        same_doc(x.nickname, y.nickname),
        same_doc(x.bio, y.bio),
        same_doc(x.roles, y.roles),
        same_doc(x.user_type, y.user_type),
        same_doc(x.active, y.active),
        same_doc(x.inactive_reason, y.inactive_reason),
        same_doc(x.status, y.status),
        same_doc(x.status_default, y.status_default),
        same_doc(x.status_connection, y.status_connection),
        same_doc(x.status_text, y.status_text),
        same_doc(x.status_source, y.status_source),
        same_doc(x.status_expires_at, y.status_expires_at),
        same_doc(x.status_id, y.status_id),
        same_doc(x.last_login, y.last_login),
        same_doc(x.emails, y.emails),
        same_doc(x.avatar_origin, y.avatar_origin),
        same_doc(x.avatar_etag, y.avatar_etag),
        same_doc(x.avatar_url, y.avatar_url),
        same_doc(x.utc_offset, y.utc_offset),
        same_doc(x.language, y.language),
        same_doc(x.phone, y.phone),
        same_doc(x.reason, y.reason),
        same_doc(x.e2e, y.e2e),
        same_doc(x.settings, y.settings),
        same_doc(x.custom_fields, y.custom_fields),
        same_doc(x.banners, y.banners),
        same_doc(x.default_room, y.default_room),
        same_doc(x.ldap, y.ldap),
        same_doc(x.require_password_change, y.require_password_change),
        same_doc(x.require_password_change_reason, y.require_password_change_reason),
        same_doc(x.room_role_priorities, y.room_role_priorities),
        same_doc(x.rooms, y.rooms),
        same_doc(x.import_ids, y.import_ids),
        same_doc(x.invite_token, y.invite_token),
        same_doc(x.free_switch_extension, y.free_switch_extension),
        same_doc(x.can_view_all_info, y.can_view_all_info),
        same_doc(x.provider_id, y.provider_id),
        same_doc(x.abac_attributes, y.abac_attributes),
        same_doc(x.federated, y.federated),
        same_doc(x.federation, y.federation),
    ensures
        x.doc() == y.doc(),
{
    let m0 = Map::<Seq<char>, JsonView>::empty();
    let m1 = with(m0, "_id"@, x.id.doc());
    let m2 = with_some(m1, "_updatedAt"@, x.updated_at);
    lemma_same_some(m1, "_updatedAt"@, x.updated_at, y.updated_at);
    let m3 = with_some(m2, "createdAt"@, x.created_at);
    lemma_same_some(m2, "createdAt"@, x.created_at, y.created_at);
    let m4 = with_some(m3, "username"@, x.username);
    lemma_same_some(m3, "username"@, x.username, y.username);
    let m5 = with_some(m4, "name"@, x.name);
    lemma_same_some(m4, "name"@, x.name, y.name);
    let m6 = with_some(m5, "nickname"@, x.nickname);
    lemma_same_some(m5, "nickname"@, x.nickname, y.nickname);
    let m7 = with_some(m6, "bio"@, x.bio);
    lemma_same_some(m6, "bio"@, x.bio, y.bio);
    let m8 = with_some(m7, "roles"@, x.roles);
    lemma_same_some(m7, "roles"@, x.roles, y.roles);
    let m9 = with_some(m8, "type"@, x.user_type);
    lemma_same_some(m8, "type"@, x.user_type, y.user_type);
    let m10 = with_some(m9, "active"@, x.active);
    lemma_same_some(m9, "active"@, x.active, y.active);
    let m11 = with_some(m10, "inactiveReason"@, x.inactive_reason);
    lemma_same_some(m10, "inactiveReason"@, x.inactive_reason, y.inactive_reason);
    let m12 = with_some(m11, "status"@, x.status);
    lemma_same_some(m11, "status"@, x.status, y.status);
    let m13 = with_some(m12, "statusDefault"@, x.status_default);
    lemma_same_some(m12, "statusDefault"@, x.status_default, y.status_default);
    let m14 = with_some(m13, "statusConnection"@, x.status_connection);
    lemma_same_some(m13, "statusConnection"@, x.status_connection, y.status_connection);
    let m15 = with_some(m14, "statusText"@, x.status_text);
    lemma_same_some(m14, "statusText"@, x.status_text, y.status_text);
    let m16 = with_some(m15, "statusSource"@, x.status_source);
    lemma_same_some(m15, "statusSource"@, x.status_source, y.status_source);
    let m17 = with_some(m16, "statusExpiresAt"@, x.status_expires_at);
    lemma_same_some(m16, "statusExpiresAt"@, x.status_expires_at, y.status_expires_at);
    let m18 = with_some(m17, "statusId"@, x.status_id);
    lemma_same_some(m17, "statusId"@, x.status_id, y.status_id);
    let m19 = with_some(m18, "lastLogin"@, x.last_login);
    lemma_same_some(m18, "lastLogin"@, x.last_login, y.last_login);
    let m20 = with_some(m19, "emails"@, x.emails);
    lemma_same_some(m19, "emails"@, x.emails, y.emails);
    let m21 = with_some(m20, "avatarOrigin"@, x.avatar_origin);
    lemma_same_some(m20, "avatarOrigin"@, x.avatar_origin, y.avatar_origin);
    let m22 = with_some(m21, "avatarETag"@, x.avatar_etag);
    lemma_same_some(m21, "avatarETag"@, x.avatar_etag, y.avatar_etag);
    let m23 = with_some(m22, "avatarUrl"@, x.avatar_url);
    lemma_same_some(m22, "avatarUrl"@, x.avatar_url, y.avatar_url);
    let m24 = with_some(m23, "utcOffset"@, x.utc_offset);
    lemma_same_some(m23, "utcOffset"@, x.utc_offset, y.utc_offset);
    let m25 = with_some(m24, "language"@, x.language);
    lemma_same_some(m24, "language"@, x.language, y.language);
    let m26 = with_some(m25, "phone"@, x.phone);
    lemma_same_some(m25, "phone"@, x.phone, y.phone);
    let m27 = with_some(m26, "reason"@, x.reason);
    lemma_same_some(m26, "reason"@, x.reason, y.reason);
    let m28 = with_some(m27, "e2e"@, x.e2e);
    lemma_same_some(m27, "e2e"@, x.e2e, y.e2e);
    let m29 = with_some(m28, "settings"@, x.settings);
    lemma_same_some(m28, "settings"@, x.settings, y.settings);
    let m30 = with_some(m29, "customFields"@, x.custom_fields);
    lemma_same_some(m29, "customFields"@, x.custom_fields, y.custom_fields);
    let m31 = with_some(m30, "banners"@, x.banners);
    lemma_same_some(m30, "banners"@, x.banners, y.banners);
    let m32 = with_some(m31, "defaultRoom"@, x.default_room);
    lemma_same_some(m31, "defaultRoom"@, x.default_room, y.default_room);
    let m33 = with_some(m32, "ldap"@, x.ldap);
    lemma_same_some(m32, "ldap"@, x.ldap, y.ldap);
    let m34 = with_some(m33, "requirePasswordChange"@, x.require_password_change);
    lemma_same_some(m33, "requirePasswordChange"@, x.require_password_change, y.require_password_change);
    let m35 = with_some(m34, "requirePasswordChangeReason"@, x.require_password_change_reason);
    lemma_same_some(m34, "requirePasswordChangeReason"@, x.require_password_change_reason, y.require_password_change_reason);
    let m36 = with_some(m35, "roomRolePriorities"@, x.room_role_priorities);
    lemma_same_some(m35, "roomRolePriorities"@, x.room_role_priorities, y.room_role_priorities);
    let m37 = with_some(m36, "__rooms"@, x.rooms);
    lemma_same_some(m36, "__rooms"@, x.rooms, y.rooms);
    let m38 = with_some(m37, "importIds"@, x.import_ids);
    lemma_same_some(m37, "importIds"@, x.import_ids, y.import_ids);
    let m39 = with_some(m38, "inviteToken"@, x.invite_token);
    lemma_same_some(m38, "inviteToken"@, x.invite_token, y.invite_token);
    let m40 = with_some(m39, "freeSwitchExtension"@, x.free_switch_extension);
    lemma_same_some(m39, "freeSwitchExtension"@, x.free_switch_extension, y.free_switch_extension);
    let m41 = with_some(m40, "canViewAllInfo"@, x.can_view_all_info);
    lemma_same_some(m40, "canViewAllInfo"@, x.can_view_all_info, y.can_view_all_info);
    let m42 = with_some(m41, "providerId"@, x.provider_id);
    lemma_same_some(m41, "providerId"@, x.provider_id, y.provider_id);
    let m43 = with_some(m42, "abacAttributes"@, x.abac_attributes);
    lemma_same_some(m42, "abacAttributes"@, x.abac_attributes, y.abac_attributes);
    let m44 = with_some(m43, "federated"@, x.federated);
    lemma_same_some(m43, "federated"@, x.federated, y.federated);
    let m45 = with_some(m44, "federation"@, x.federation);
    lemma_same_some(m44, "federation"@, x.federation, y.federation);
}

impl RoundTrip for User {
    open spec fn writable(&self) -> bool {
        &&& self.id.writable()
        &&& opt_writable(self.updated_at)
        &&& opt_writable(self.created_at)
        &&& opt_writable(self.username)
        &&& opt_writable(self.name)
        &&& opt_writable(self.nickname)
        &&& opt_writable(self.bio)
        &&& opt_writable(self.roles)
        &&& opt_writable(self.user_type)
        &&& opt_writable(self.active)
        &&& opt_writable(self.inactive_reason)
        &&& opt_writable(self.status)
        &&& opt_writable(self.status_default)
        &&& opt_writable(self.status_connection)
        &&& opt_writable(self.status_text)
        &&& opt_writable(self.status_source)
        &&& opt_writable(self.status_expires_at)
        &&& opt_writable(self.status_id)
        &&& opt_writable(self.last_login)
        &&& opt_writable(self.emails)
        &&& opt_writable(self.avatar_origin)
        &&& opt_writable(self.avatar_etag)
        &&& opt_writable(self.avatar_url)
        &&& opt_writable(self.utc_offset)
        &&& opt_writable(self.language)
        &&& opt_writable(self.phone)
        &&& opt_writable(self.reason)
        &&& opt_writable(self.e2e)
        &&& opt_writable(self.settings)
        &&& opt_writable(self.custom_fields)
        &&& opt_writable(self.banners)
        &&& opt_writable(self.default_room)
        &&& opt_writable(self.ldap)
        &&& opt_writable(self.require_password_change)
        &&& opt_writable(self.require_password_change_reason)
        &&& opt_writable(self.room_role_priorities)
        &&& opt_writable(self.rooms)
        &&& opt_writable(self.import_ids)
        &&& opt_writable(self.invite_token)
        &&& opt_writable(self.free_switch_extension)
        &&& opt_writable(self.can_view_all_info)
        &&& opt_writable(self.provider_id)
        &&& opt_writable(self.abac_attributes)
        &&& opt_writable(self.federated)
        &&& opt_writable(self.federation)
    }

    proof fn law_round_trip(&self, back: &User) {
        lemma_user_accepted(*self);
        if back.read_from(self.doc()) {
            law_user_members(*self);
            lemma_required(self.id, back.id);
            lemma_date(self.updated_at, back.updated_at);
            lemma_date(self.created_at, back.created_at);
            lemma_optional(self.username, back.username);
            lemma_optional(self.name, back.name);
            lemma_optional(self.nickname, back.nickname);
            lemma_optional(self.bio, back.bio);
            lemma_optional(self.roles, back.roles);
            lemma_optional(self.user_type, back.user_type);
            lemma_optional(self.active, back.active);
            lemma_optional(self.inactive_reason, back.inactive_reason);
            lemma_optional(self.status, back.status);
            lemma_optional(self.status_default, back.status_default);
            lemma_optional(self.status_connection, back.status_connection);
            lemma_optional(self.status_text, back.status_text);
            lemma_optional(self.status_source, back.status_source);
            lemma_date(self.status_expires_at, back.status_expires_at);
            lemma_optional(self.status_id, back.status_id);
            lemma_date(self.last_login, back.last_login);
            lemma_optional(self.emails, back.emails);
            lemma_optional(self.avatar_origin, back.avatar_origin);
            lemma_optional(self.avatar_etag, back.avatar_etag);
            lemma_optional(self.avatar_url, back.avatar_url);
            lemma_optional(self.utc_offset, back.utc_offset);
            lemma_optional(self.language, back.language);
            lemma_optional(self.phone, back.phone);
            lemma_optional(self.reason, back.reason);
            lemma_optional(self.e2e, back.e2e);
            lemma_optional(self.settings, back.settings);
            lemma_optional(self.custom_fields, back.custom_fields);
            lemma_optional(self.banners, back.banners);
            lemma_optional(self.default_room, back.default_room);
            lemma_optional(self.ldap, back.ldap);
            lemma_optional(self.require_password_change, back.require_password_change);
            lemma_optional(self.require_password_change_reason, back.require_password_change_reason);
            lemma_optional(self.room_role_priorities, back.room_role_priorities);
            lemma_optional(self.rooms, back.rooms);
            lemma_optional(self.import_ids, back.import_ids);
            lemma_optional(self.invite_token, back.invite_token);
            lemma_optional(self.free_switch_extension, back.free_switch_extension);
            lemma_optional(self.can_view_all_info, back.can_view_all_info);
            lemma_optional(self.provider_id, back.provider_id);
            lemma_optional(self.abac_attributes, back.abac_attributes);
            lemma_optional(self.federated, back.federated);
            lemma_optional(self.federation, back.federation);
            lemma_user_same(*back, *self);
        }
    }
}

} // verus!

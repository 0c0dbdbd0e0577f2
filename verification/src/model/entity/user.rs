//! A user.
use crate::model::datetime::Timestamp;
use crate::model::entity::enums::{PresenceSource, UserStatus};
use crate::model::entity::parts::{first_of, first_text, opt_chars, opt_str, UserEmail};
use crate::model::entity::subscription::{has_role_in, roles_have};
use crate::model::faithful::user::lemma_user_same;
use crate::model::id::{RoleId, RoomId, UserId};
use crate::model::json::{Json, JsonMap, JsonView, Number};
use crate::model::wire::{
    dup_some, has_date, has_optional, has_required, is_date, is_optional, is_required,
    is_shaped, optional, optional_date, put, put_some, required, same_some, shaped, slot, with,
    with_some, Decode, Dict, Duplicate, Encode,
};
use vstd::prelude::*;
use vstd::string::*;

verus! {

/// A Rocket.Chat user.
#[derive(Clone, Debug, PartialEq)]
pub struct User {
    /// User id.
    pub id: UserId,
    /// Last write to the document.
    pub updated_at: Option<Timestamp>,
    /// When the account was created.
    pub created_at: Option<Timestamp>,
    /// Login name.
    pub username: Option<String>,
    /// Display name.
    pub name: Option<String>,
    /// Nickname.
    pub nickname: Option<String>,
    /// Profile bio.
    pub bio: Option<String>,
    /// Global roles.
    pub roles: Option<Vec<RoleId>>,
    /// Account kind: `user`, `bot`, `app` or `visitor`.
    pub user_type: Option<String>,
    /// Whether the account is active.
    pub active: Option<bool>,
    /// Why the account is inactive (`deactivated`, `pending_approval`, `idle_too_long`).
    pub inactive_reason: Option<String>,
    /// The effective status shown to other users.
    pub status: Option<UserStatus>,
    /// The status the user chose, which `User::status` reverts to on reconnect.
    pub status_default: Option<UserStatus>,
    /// The raw socket-derived status of the current session.
    pub status_connection: Option<String>,
    /// Free-text status message.
    pub status_text: Option<String>,
    /// Where the current status came from.
    pub status_source: Option<PresenceSource>,
    /// When a temporary status reverts to `User::status_default`.
    pub status_expires_at: Option<Timestamp>,
    /// Id of the custom status in use.
    pub status_id: Option<String>,
    /// When the user last logged in.
    pub last_login: Option<Timestamp>,
    /// Registered email addresses.
    pub emails: Option<Vec<UserEmail>>,
    /// Where the avatar came from (`upload`, `url`, an OAuth provider name).
    pub avatar_origin: Option<String>,
    /// Avatar cache-busting tag.
    pub avatar_etag: Option<String>,
    /// External avatar URL.
    pub avatar_url: Option<String>,
    /// UTC offset in hours.
    pub utc_offset: Option<Number>,
    /// Preferred UI language.
    pub language: Option<String>,
    /// Phone number.
    pub phone: Option<String>,
    /// Reason given when requesting an account.
    pub reason: Option<String>,
    /// The user's own E2E key pair.
    pub e2e: Option<Json>,
    /// UI preferences and profile settings.
    pub settings: Option<Json>,
    /// Free-form custom fields.
    pub custom_fields: Option<Json>,
    /// Admin banners queued for this user.
    pub banners: Option<Json>,
    /// Room the user lands in after login.
    pub default_room: Option<String>,
    /// Whether the account is backed by LDAP.
    pub ldap: Option<bool>,
    /// Whether the user must change their password on next login.
    pub require_password_change: Option<bool>,
    /// Why the password change is required.
    pub require_password_change_reason: Option<String>,
    /// Highest role priority per room, used to sort the members list.
    pub room_role_priorities: Option<Dict<i64>>,
    /// Rooms the user belongs to.
    pub rooms: Option<Vec<RoomId>>,
    /// Ids this user carried in the system it was imported from.
    pub import_ids: Option<Vec<String>>,
    /// Token from the invite the user signed up with.
    pub invite_token: Option<String>,
    /// FreeSWITCH extension for voice calls.
    pub free_switch_extension: Option<String>,
    /// Whether the viewer is allowed to see this user's full record.
    pub can_view_all_info: Option<bool>,
    /// Identity provider that created the account.
    pub provider_id: Option<String>,
    /// Attribute-based access control attributes held by the user.
    pub abac_attributes: Option<Vec<Json>>,
    /// Whether the account is federated.
    pub federated: Option<bool>,
    /// Matrix federation metadata.
    pub federation: Option<Json>,
}

impl Decode for User {
    open spec fn accepts(j: JsonView) -> bool {
        &&& shaped(j, 45)
        &&& has_required::<UserId>(slot(j, "_id"@, 0))
        &&& has_date(slot(j, "_updatedAt"@, 1))
        &&& has_date(slot(j, "createdAt"@, 2))
        &&& has_optional::<String>(slot(j, "username"@, 3))
        &&& has_optional::<String>(slot(j, "name"@, 4))
        &&& has_optional::<String>(slot(j, "nickname"@, 5))
        &&& has_optional::<String>(slot(j, "bio"@, 6))
        &&& has_optional::<Vec<RoleId>>(slot(j, "roles"@, 7))
        &&& has_optional::<String>(slot(j, "type"@, 8))
        &&& has_optional::<bool>(slot(j, "active"@, 9))
        &&& has_optional::<String>(slot(j, "inactiveReason"@, 10))
        &&& has_optional::<UserStatus>(slot(j, "status"@, 11))
        &&& has_optional::<UserStatus>(slot(j, "statusDefault"@, 12))
        &&& has_optional::<String>(slot(j, "statusConnection"@, 13))
        &&& has_optional::<String>(slot(j, "statusText"@, 14))
        &&& has_optional::<PresenceSource>(slot(j, "statusSource"@, 15))
        &&& has_date(slot(j, "statusExpiresAt"@, 16))
        &&& has_optional::<String>(slot(j, "statusId"@, 17))
        &&& has_date(slot(j, "lastLogin"@, 18))
        &&& has_optional::<Vec<UserEmail>>(slot(j, "emails"@, 19))
        &&& has_optional::<String>(slot(j, "avatarOrigin"@, 20))
        &&& has_optional::<String>(slot(j, "avatarETag"@, 21))
        &&& has_optional::<String>(slot(j, "avatarUrl"@, 22))
        &&& has_optional::<Number>(slot(j, "utcOffset"@, 23))
        &&& has_optional::<String>(slot(j, "language"@, 24))
        &&& has_optional::<String>(slot(j, "phone"@, 25))
        &&& has_optional::<String>(slot(j, "reason"@, 26))
        &&& has_optional::<Json>(slot(j, "e2e"@, 27))
        &&& has_optional::<Json>(slot(j, "settings"@, 28))
        &&& has_optional::<Json>(slot(j, "customFields"@, 29))
        &&& has_optional::<Json>(slot(j, "banners"@, 30))
        &&& has_optional::<String>(slot(j, "defaultRoom"@, 31))
        &&& has_optional::<bool>(slot(j, "ldap"@, 32))
        &&& has_optional::<bool>(slot(j, "requirePasswordChange"@, 33))
        &&& has_optional::<String>(slot(j, "requirePasswordChangeReason"@, 34))
        &&& has_optional::<Dict<i64>>(slot(j, "roomRolePriorities"@, 35))
        &&& has_optional::<Vec<RoomId>>(slot(j, "__rooms"@, 36))
        &&& has_optional::<Vec<String>>(slot(j, "importIds"@, 37))
        &&& has_optional::<String>(slot(j, "inviteToken"@, 38))
        &&& has_optional::<String>(slot(j, "freeSwitchExtension"@, 39))
        &&& has_optional::<bool>(slot(j, "canViewAllInfo"@, 40))
        &&& has_optional::<String>(slot(j, "providerId"@, 41))
        &&& has_optional::<Vec<Json>>(slot(j, "abacAttributes"@, 42))
        &&& has_optional::<bool>(slot(j, "federated"@, 43))
        &&& has_optional::<Json>(slot(j, "federation"@, 44))
    }

    open spec fn read_from(&self, j: JsonView) -> bool {
        &&& is_required(self.id, slot(j, "_id"@, 0))
        &&& is_date(self.updated_at, slot(j, "_updatedAt"@, 1))
        &&& is_date(self.created_at, slot(j, "createdAt"@, 2))
        &&& is_optional(self.username, slot(j, "username"@, 3))
        &&& is_optional(self.name, slot(j, "name"@, 4))
        &&& is_optional(self.nickname, slot(j, "nickname"@, 5))
        &&& is_optional(self.bio, slot(j, "bio"@, 6))
        &&& is_optional(self.roles, slot(j, "roles"@, 7))
        &&& is_optional(self.user_type, slot(j, "type"@, 8))
        &&& is_optional(self.active, slot(j, "active"@, 9))
        &&& is_optional(self.inactive_reason, slot(j, "inactiveReason"@, 10))
        &&& is_optional(self.status, slot(j, "status"@, 11))
        &&& is_optional(self.status_default, slot(j, "statusDefault"@, 12))
        &&& is_optional(self.status_connection, slot(j, "statusConnection"@, 13))
        &&& is_optional(self.status_text, slot(j, "statusText"@, 14))
        &&& is_optional(self.status_source, slot(j, "statusSource"@, 15))
        &&& is_date(self.status_expires_at, slot(j, "statusExpiresAt"@, 16))
        &&& is_optional(self.status_id, slot(j, "statusId"@, 17))
        &&& is_date(self.last_login, slot(j, "lastLogin"@, 18))
        &&& is_optional(self.emails, slot(j, "emails"@, 19))
        &&& is_optional(self.avatar_origin, slot(j, "avatarOrigin"@, 20))
        &&& is_optional(self.avatar_etag, slot(j, "avatarETag"@, 21))
        &&& is_optional(self.avatar_url, slot(j, "avatarUrl"@, 22))
        &&& is_optional(self.utc_offset, slot(j, "utcOffset"@, 23))
        &&& is_optional(self.language, slot(j, "language"@, 24))
        &&& is_optional(self.phone, slot(j, "phone"@, 25))
        &&& is_optional(self.reason, slot(j, "reason"@, 26))
        &&& is_optional(self.e2e, slot(j, "e2e"@, 27))
        &&& is_optional(self.settings, slot(j, "settings"@, 28))
        &&& is_optional(self.custom_fields, slot(j, "customFields"@, 29))
        &&& is_optional(self.banners, slot(j, "banners"@, 30))
        &&& is_optional(self.default_room, slot(j, "defaultRoom"@, 31))
        &&& is_optional(self.ldap, slot(j, "ldap"@, 32))
        &&& is_optional(self.require_password_change, slot(j, "requirePasswordChange"@, 33))
        &&& is_optional(self.require_password_change_reason, slot(j, "requirePasswordChangeReason"@, 34))
        &&& is_optional(self.room_role_priorities, slot(j, "roomRolePriorities"@, 35))
        &&& is_optional(self.rooms, slot(j, "__rooms"@, 36))
        &&& is_optional(self.import_ids, slot(j, "importIds"@, 37))
        &&& is_optional(self.invite_token, slot(j, "inviteToken"@, 38))
        &&& is_optional(self.free_switch_extension, slot(j, "freeSwitchExtension"@, 39))
        &&& is_optional(self.can_view_all_info, slot(j, "canViewAllInfo"@, 40))
        &&& is_optional(self.provider_id, slot(j, "providerId"@, 41))
        &&& is_optional(self.abac_attributes, slot(j, "abacAttributes"@, 42))
        &&& is_optional(self.federated, slot(j, "federated"@, 43))
        &&& is_optional(self.federation, slot(j, "federation"@, 44))
    }

    #[verifier::rlimit(60)]
    fn decode(j: &Json) -> (r: Option<User>) {
        if !is_shaped(j, 45) {
            return None;
        }
        let id: UserId = match required(j, "_id", 0) {
            Some(v) => v,
            None => {
                return None;
            },
        };
        let updated_at: Option<Timestamp> = match optional_date(j, "_updatedAt", 1) {
            Some(v) => v,
            None => {
                return None;
            },
        };
        let created_at: Option<Timestamp> = match optional_date(j, "createdAt", 2) {
            Some(v) => v,
            None => {
                return None;
            },
        };
        let username: Option<String> = match optional(j, "username", 3) {
            Some(v) => v,
            None => {
                return None;
            },
        };
        let name: Option<String> = match optional(j, "name", 4) {
            Some(v) => v,
            None => {
                return None;
            },
        };
        let nickname: Option<String> = match optional(j, "nickname", 5) {
            Some(v) => v,
            None => {
                return None;
            },
        };
        let bio: Option<String> = match optional(j, "bio", 6) {
            Some(v) => v,
            None => {
                return None;
            },
        };
        let roles: Option<Vec<RoleId>> = match optional(j, "roles", 7) {
            Some(v) => v,
            None => {
                return None;
            },
        };
        let user_type: Option<String> = match optional(j, "type", 8) {
            Some(v) => v,
            None => {
                return None;
            },
        };
        let active: Option<bool> = match optional(j, "active", 9) {
            Some(v) => v,
            None => {
                return None;
            },
        };
        let inactive_reason: Option<String> = match optional(j, "inactiveReason", 10) {
            Some(v) => v,
            None => {
                return None;
            },
        };
        let status: Option<UserStatus> = match optional(j, "status", 11) {
            Some(v) => v,
            None => {
                return None;
            },
        };
        let status_default: Option<UserStatus> = match optional(j, "statusDefault", 12) {
            Some(v) => v,
            None => {
                return None;
            },
        };
        let status_connection: Option<String> = match optional(j, "statusConnection", 13) {
            Some(v) => v,
            None => {
                return None;
            },
        };
        let status_text: Option<String> = match optional(j, "statusText", 14) {
            Some(v) => v,
            None => {
                return None;
            },
        };
        let status_source: Option<PresenceSource> = match optional(j, "statusSource", 15) {
            Some(v) => v,
            None => {
                return None;
            },
        };
        let status_expires_at: Option<Timestamp> = match optional_date(j, "statusExpiresAt", 16) {
            Some(v) => v,
            None => {
                return None;
            },
        };
        let status_id: Option<String> = match optional(j, "statusId", 17) {
            Some(v) => v,
            None => {
                return None;
            },
        };
        let last_login: Option<Timestamp> = match optional_date(j, "lastLogin", 18) {
            Some(v) => v,
            None => {
                return None;
            },
        };
        let emails: Option<Vec<UserEmail>> = match optional(j, "emails", 19) {
            Some(v) => v,
            None => {
                return None;
            },
        };
        let avatar_origin: Option<String> = match optional(j, "avatarOrigin", 20) {
            Some(v) => v,
            None => {
                return None;
            },
        };
        let avatar_etag: Option<String> = match optional(j, "avatarETag", 21) {
            Some(v) => v,
            None => {
                return None;
            },
        };
        let avatar_url: Option<String> = match optional(j, "avatarUrl", 22) {
            Some(v) => v,
            None => {
                return None;
            },
        };
        let utc_offset: Option<Number> = match optional(j, "utcOffset", 23) {
            Some(v) => v,
            None => {
                return None;
            },
        };
        let language: Option<String> = match optional(j, "language", 24) {
            Some(v) => v,
            None => {
                return None;
            },
        };
        let phone: Option<String> = match optional(j, "phone", 25) {
            Some(v) => v,
            None => {
                return None;
            },
        };
        let reason: Option<String> = match optional(j, "reason", 26) {
            Some(v) => v,
            None => {
                return None;
            },
        };
        let e2e: Option<Json> = match optional(j, "e2e", 27) {
            Some(v) => v,
            None => {
                return None;
            },
        };
        let settings: Option<Json> = match optional(j, "settings", 28) {
            Some(v) => v,
            None => {
                return None;
            },
        };
        let custom_fields: Option<Json> = match optional(j, "customFields", 29) {
            Some(v) => v,
            None => {
                return None;
            },
        };
        let banners: Option<Json> = match optional(j, "banners", 30) {
            Some(v) => v,
            None => {
                return None;
            },
        };
        let default_room: Option<String> = match optional(j, "defaultRoom", 31) {
            Some(v) => v,
            None => {
                return None;
            },
        };
        let ldap: Option<bool> = match optional(j, "ldap", 32) {
            Some(v) => v,
            None => {
                return None;
            },
        };
        let require_password_change: Option<bool> = match optional(j, "requirePasswordChange", 33) {
            Some(v) => v,
            None => {
                return None;
            },
        };
        let require_password_change_reason: Option<String> = match optional(j, "requirePasswordChangeReason", 34) {
            Some(v) => v,
            None => {
                return None;
            },
        };
        let room_role_priorities: Option<Dict<i64>> = match optional(j, "roomRolePriorities", 35) {
            Some(v) => v,
            None => {
                return None;
            },
        };
        let rooms: Option<Vec<RoomId>> = match optional(j, "__rooms", 36) {
            Some(v) => v,
            None => {
                return None;
            },
        };
        let import_ids: Option<Vec<String>> = match optional(j, "importIds", 37) {
            Some(v) => v,
            None => {
                return None;
            },
        };
        let invite_token: Option<String> = match optional(j, "inviteToken", 38) {
            Some(v) => v,
            None => {
                return None;
            },
        };
        let free_switch_extension: Option<String> = match optional(j, "freeSwitchExtension", 39) {
            Some(v) => v,
            None => {
                return None;
            },
        };
        let can_view_all_info: Option<bool> = match optional(j, "canViewAllInfo", 40) {
            Some(v) => v,
            None => {
                return None;
            },
        };
        let provider_id: Option<String> = match optional(j, "providerId", 41) {
            Some(v) => v,
            None => {
                return None;
            },
        };
        let abac_attributes: Option<Vec<Json>> = match optional(j, "abacAttributes", 42) {
            Some(v) => v,
            None => {
                return None;
            },
        };
        let federated: Option<bool> = match optional(j, "federated", 43) {
            Some(v) => v,
            None => {
                return None;
            },
        };
        let federation: Option<Json> = match optional(j, "federation", 44) {
            Some(v) => v,
            None => {
                return None;
            },
        };
        Some(
            User {
                id,
                updated_at,
                created_at,
                username,
                name,
                nickname,
                bio,
                roles,
                user_type,
                active,
                inactive_reason,
                status,
                status_default,
                status_connection,
                status_text,
                status_source,
                status_expires_at,
                status_id,
                last_login,
                emails,
                avatar_origin,
                avatar_etag,
                avatar_url,
                utc_offset,
                language,
                phone,
                reason,
                e2e,
                settings,
                custom_fields,
                banners,
                default_room,
                ldap,
                require_password_change,
                require_password_change_reason,
                room_role_priorities,
                rooms,
                import_ids,
                invite_token,
                free_switch_extension,
                can_view_all_info,
                provider_id,
                abac_attributes,
                federated,
                federation,
            },
        )
    }
}

impl Encode for User {
    open spec fn doc(&self) -> JsonView {
        let m = Map::empty();
        let m = with(m, "_id"@, self.id.doc());
        let m = with_some(m, "_updatedAt"@, self.updated_at);
        let m = with_some(m, "createdAt"@, self.created_at);
        let m = with_some(m, "username"@, self.username);
        let m = with_some(m, "name"@, self.name);
        let m = with_some(m, "nickname"@, self.nickname);
        let m = with_some(m, "bio"@, self.bio);
        let m = with_some(m, "roles"@, self.roles);
        let m = with_some(m, "type"@, self.user_type);
        let m = with_some(m, "active"@, self.active);
        let m = with_some(m, "inactiveReason"@, self.inactive_reason);
        let m = with_some(m, "status"@, self.status);
        let m = with_some(m, "statusDefault"@, self.status_default);
        let m = with_some(m, "statusConnection"@, self.status_connection);
        let m = with_some(m, "statusText"@, self.status_text);
        let m = with_some(m, "statusSource"@, self.status_source);
        let m = with_some(m, "statusExpiresAt"@, self.status_expires_at);
        let m = with_some(m, "statusId"@, self.status_id);
        let m = with_some(m, "lastLogin"@, self.last_login);
        let m = with_some(m, "emails"@, self.emails);
        let m = with_some(m, "avatarOrigin"@, self.avatar_origin);
        let m = with_some(m, "avatarETag"@, self.avatar_etag);
        let m = with_some(m, "avatarUrl"@, self.avatar_url);
        let m = with_some(m, "utcOffset"@, self.utc_offset);
        let m = with_some(m, "language"@, self.language);
        let m = with_some(m, "phone"@, self.phone);
        let m = with_some(m, "reason"@, self.reason);
        let m = with_some(m, "e2e"@, self.e2e);
        let m = with_some(m, "settings"@, self.settings);
        let m = with_some(m, "customFields"@, self.custom_fields);
        let m = with_some(m, "banners"@, self.banners);
        let m = with_some(m, "defaultRoom"@, self.default_room);
        let m = with_some(m, "ldap"@, self.ldap);
        let m = with_some(m, "requirePasswordChange"@, self.require_password_change);
        let m = with_some(m, "requirePasswordChangeReason"@, self.require_password_change_reason);
        let m = with_some(m, "roomRolePriorities"@, self.room_role_priorities);
        let m = with_some(m, "__rooms"@, self.rooms);
        let m = with_some(m, "importIds"@, self.import_ids);
        let m = with_some(m, "inviteToken"@, self.invite_token);
        let m = with_some(m, "freeSwitchExtension"@, self.free_switch_extension);
        let m = with_some(m, "canViewAllInfo"@, self.can_view_all_info);
        let m = with_some(m, "providerId"@, self.provider_id);
        let m = with_some(m, "abacAttributes"@, self.abac_attributes);
        let m = with_some(m, "federated"@, self.federated);
        let m = with_some(m, "federation"@, self.federation);
        JsonView::Object(m)
    }

    #[verifier::rlimit(60)]
    fn encode(&self) -> (r: Json) {
        let mut map = JsonMap::new();
        put(&mut map, "_id", &self.id);
        put_some(&mut map, "_updatedAt", &self.updated_at);
        put_some(&mut map, "createdAt", &self.created_at);
        put_some(&mut map, "username", &self.username);
        put_some(&mut map, "name", &self.name);
        put_some(&mut map, "nickname", &self.nickname);
        put_some(&mut map, "bio", &self.bio);
        put_some(&mut map, "roles", &self.roles);
        put_some(&mut map, "type", &self.user_type);
        put_some(&mut map, "active", &self.active);
        put_some(&mut map, "inactiveReason", &self.inactive_reason);
        put_some(&mut map, "status", &self.status);
        put_some(&mut map, "statusDefault", &self.status_default);
        put_some(&mut map, "statusConnection", &self.status_connection);
        put_some(&mut map, "statusText", &self.status_text);
        put_some(&mut map, "statusSource", &self.status_source);
        put_some(&mut map, "statusExpiresAt", &self.status_expires_at);
        put_some(&mut map, "statusId", &self.status_id);
        put_some(&mut map, "lastLogin", &self.last_login);
        put_some(&mut map, "emails", &self.emails);
        put_some(&mut map, "avatarOrigin", &self.avatar_origin);
        put_some(&mut map, "avatarETag", &self.avatar_etag);
        put_some(&mut map, "avatarUrl", &self.avatar_url);
        put_some(&mut map, "utcOffset", &self.utc_offset);
        put_some(&mut map, "language", &self.language);
        put_some(&mut map, "phone", &self.phone);
        put_some(&mut map, "reason", &self.reason);
        put_some(&mut map, "e2e", &self.e2e);
        put_some(&mut map, "settings", &self.settings);
        put_some(&mut map, "customFields", &self.custom_fields);
        put_some(&mut map, "banners", &self.banners);
        put_some(&mut map, "defaultRoom", &self.default_room);
        put_some(&mut map, "ldap", &self.ldap);
        put_some(&mut map, "requirePasswordChange", &self.require_password_change);
        put_some(&mut map, "requirePasswordChangeReason", &self.require_password_change_reason);
        put_some(&mut map, "roomRolePriorities", &self.room_role_priorities);
        put_some(&mut map, "__rooms", &self.rooms);
        put_some(&mut map, "importIds", &self.import_ids);
        put_some(&mut map, "inviteToken", &self.invite_token);
        put_some(&mut map, "freeSwitchExtension", &self.free_switch_extension);
        put_some(&mut map, "canViewAllInfo", &self.can_view_all_info);
        put_some(&mut map, "providerId", &self.provider_id);
        put_some(&mut map, "abacAttributes", &self.abac_attributes);
        put_some(&mut map, "federated", &self.federated);
        put_some(&mut map, "federation", &self.federation);
        Json::Object(map)
    }
}

impl Duplicate for User {
    open spec fn alike(&self, other: &User) -> bool {
        &&& self.id.alike(&other.id)
        &&& same_some(self.updated_at, other.updated_at)
        &&& same_some(self.created_at, other.created_at)
        &&& same_some(self.username, other.username)
        &&& same_some(self.name, other.name)
        &&& same_some(self.nickname, other.nickname)
        &&& same_some(self.bio, other.bio)
        &&& same_some(self.roles, other.roles)
        &&& same_some(self.user_type, other.user_type)
        &&& same_some(self.active, other.active)
        &&& same_some(self.inactive_reason, other.inactive_reason)
        &&& same_some(self.status, other.status)
        &&& same_some(self.status_default, other.status_default)
        &&& same_some(self.status_connection, other.status_connection)
        &&& same_some(self.status_text, other.status_text)
        &&& same_some(self.status_source, other.status_source)
        &&& same_some(self.status_expires_at, other.status_expires_at)
        &&& same_some(self.status_id, other.status_id)
        &&& same_some(self.last_login, other.last_login)
        &&& same_some(self.emails, other.emails)
        &&& same_some(self.avatar_origin, other.avatar_origin)
        &&& same_some(self.avatar_etag, other.avatar_etag)
        &&& same_some(self.avatar_url, other.avatar_url)
        &&& same_some(self.utc_offset, other.utc_offset)
        &&& same_some(self.language, other.language)
        &&& same_some(self.phone, other.phone)
        &&& same_some(self.reason, other.reason)
        &&& same_some(self.e2e, other.e2e)
        &&& same_some(self.settings, other.settings)
        &&& same_some(self.custom_fields, other.custom_fields)
        &&& same_some(self.banners, other.banners)
        &&& same_some(self.default_room, other.default_room)
        &&& same_some(self.ldap, other.ldap)
        &&& same_some(self.require_password_change, other.require_password_change)
        &&& same_some(self.require_password_change_reason, other.require_password_change_reason)
        &&& same_some(self.room_role_priorities, other.room_role_priorities)
        &&& same_some(self.rooms, other.rooms)
        &&& same_some(self.import_ids, other.import_ids)
        &&& same_some(self.invite_token, other.invite_token)
        &&& same_some(self.free_switch_extension, other.free_switch_extension)
        &&& same_some(self.can_view_all_info, other.can_view_all_info)
        &&& same_some(self.provider_id, other.provider_id)
        &&& same_some(self.abac_attributes, other.abac_attributes)
        &&& same_some(self.federated, other.federated)
        &&& same_some(self.federation, other.federation)
    }

    fn dup(&self) -> (r: User) {
        let copy = User {
            id: self.id.dup(),
            updated_at: dup_some(&self.updated_at),
            created_at: dup_some(&self.created_at),
            username: dup_some(&self.username),
            name: dup_some(&self.name),
            nickname: dup_some(&self.nickname),
            bio: dup_some(&self.bio),
            roles: dup_some(&self.roles),
            user_type: dup_some(&self.user_type),
            active: dup_some(&self.active),
            inactive_reason: dup_some(&self.inactive_reason),
            status: dup_some(&self.status),
            status_default: dup_some(&self.status_default),
            status_connection: dup_some(&self.status_connection),
            status_text: dup_some(&self.status_text),
            status_source: dup_some(&self.status_source),
            status_expires_at: dup_some(&self.status_expires_at),
            status_id: dup_some(&self.status_id),
            last_login: dup_some(&self.last_login),
            emails: dup_some(&self.emails),
            avatar_origin: dup_some(&self.avatar_origin),
            avatar_etag: dup_some(&self.avatar_etag),
            avatar_url: dup_some(&self.avatar_url),
            utc_offset: dup_some(&self.utc_offset),
            language: dup_some(&self.language),
            phone: dup_some(&self.phone),
            reason: dup_some(&self.reason),
            e2e: dup_some(&self.e2e),
            settings: dup_some(&self.settings),
            custom_fields: dup_some(&self.custom_fields),
            banners: dup_some(&self.banners),
            default_room: dup_some(&self.default_room),
            ldap: dup_some(&self.ldap),
            require_password_change: dup_some(&self.require_password_change),
            require_password_change_reason: dup_some(&self.require_password_change_reason),
            room_role_priorities: dup_some(&self.room_role_priorities),
            rooms: dup_some(&self.rooms),
            import_ids: dup_some(&self.import_ids),
            invite_token: dup_some(&self.invite_token),
            free_switch_extension: dup_some(&self.free_switch_extension),
            can_view_all_info: dup_some(&self.can_view_all_info),
            provider_id: dup_some(&self.provider_id),
            abac_attributes: dup_some(&self.abac_attributes),
            federated: dup_some(&self.federated),
            federation: dup_some(&self.federation),
        };
        proof {
            lemma_user_same(copy, *self);
        }
        copy
    }
}

impl User {
    /// The name to show: the real name or the username first, whichever is preferred, and the
    /// other where that is missing.
    pub fn display_name(&self, use_real_name: bool) -> (r: Option<&str>)
        ensures
            opt_str(r) == (if use_real_name {
                first_of(opt_chars(self.name), opt_chars(self.username))
            } else {
                first_of(opt_chars(self.username), opt_chars(self.name))
            }),
    {
        if use_real_name {
            first_text(&self.name, &self.username)
        } else {
            first_text(&self.username, &self.name)
        }
    }

    /// Whether the user has a global role.
    pub fn has_role(&self, role: &str) -> (r: bool)
        ensures
            r == roles_have(self.roles, role@),
    {
        has_role_in(&self.roles, role)
    }

    /// Whether the user is online, away or busy.
    pub fn is_connected(&self) -> (r: bool)
        ensures
            r == (self.status matches Some(s) && (s is Online || s is Away || s is Busy)),
    {
        match &self.status {
            Some(UserStatus::Online) => true,
            Some(UserStatus::Away) => true,
            Some(UserStatus::Busy) => true,
            _ => false,
        }
    }
}

} // verus!

//! A message in a room.
use crate::model::datetime::Timestamp;
use crate::model::entity::enums::{E2eStatus, MessageType};
use crate::model::entity::parts::{
    ChannelMention, MessageFile, MessageMention, MessageUrl, Reaction, Star, UserRef,
};
use crate::model::faithful::message::lemma_message_same;
use crate::model::id::{MessageId, RoomId, UserId};
use crate::model::json::{Json, JsonMap, JsonView};
use crate::model::wire::{
    dup_some, has_date, has_optional, has_required, is_date, is_optional, is_required,
    is_shaped, optional, optional_date, put, put_some, required, same_some, shaped, slot, with,
    with_some, Decode, Dict, Duplicate, Encode,
};
use vstd::prelude::*;
use vstd::string::*;

verus! {

/// A Rocket.Chat message.
#[derive(Clone, Debug, PartialEq)]
pub struct Message {
    /// Message id.
    pub id: MessageId,
    /// Last write to the document.
    pub updated_at: Timestamp,
    /// Room the message belongs to.
    pub rid: RoomId,
    /// Message body.
    pub msg: String,
    /// When the message was sent.
    pub ts: Timestamp,
    /// Author stub.
    pub u: UserRef,
    /// System message discriminator.
    pub t: Option<MessageType>,
    /// When the message was last edited.
    pub edited_at: Option<Timestamp>,
    /// Who performed the edit.
    pub edited_by: Option<UserRef>,
    /// Message attachments.
    pub attachments: Option<Vec<Json>>,
    /// Users and teams mentioned in the body, resolved at send time.
    pub mentions: Option<Vec<MessageMention>>,
    /// Rooms referenced with `#name`, resolved at send time.
    pub channels: Option<Vec<ChannelMention>>,
    /// Parsed message AST produced by `@rocket.chat/message-parser`.
    pub md: Option<Json>,
    /// UI Kit blocks, for messages posted by apps.
    pub blocks: Option<Json>,
    /// URLs extracted from the body, with preview metadata.
    pub urls: Option<Vec<MessageUrl>>,
    /// Reactions, keyed by the emoji **with colons** (`":tada:"`).
    pub reactions: Option<Dict<Reaction>>,
    /// Single attached file.
    pub file: Option<MessageFile>,
    /// Attached files.
    pub files: Option<Vec<MessageFile>>,
    /// Id of the thread's parent message.
    pub tmid: Option<MessageId>,
    /// Whether a thread reply should also appear in the main channel view.
    pub tshow: Option<bool>,
    /// Number of replies.
    pub tcount: Option<i64>,
    /// Timestamp of the last reply.
    pub tlm: Option<Timestamp>,
    /// Users following the thread, on the parent message.
    pub replies: Option<Vec<UserId>>,
    /// Id of the discussion room created from this message.
    pub drid: Option<RoomId>,
    /// Number of messages in the linked discussion.
    pub dcount: Option<i64>,
    /// Timestamp of the last message in the linked discussion.
    pub dlm: Option<Timestamp>,
    /// Whether this message may be visually grouped with the previous one.
    pub groupable: Option<bool>,
    /// Whether the server should scrape URLs in this message.
    pub parse_urls: Option<bool>,
    /// Legacy per-message unread marker.
    pub unread: Option<bool>,
    /// Whether the message is pinned in its room.
    pub pinned: Option<bool>,
    /// When the message was pinned.
    pub pinned_at: Option<Timestamp>,
    /// Who pinned the message.
    pub pinned_by: Option<UserRef>,
    /// Users who starred the message — a **list**, not a boolean.
    pub starred: Option<Vec<Star>>,
    /// Slash-command output visible only to the sender.
    pub private: Option<bool>,
    /// Optimistic client-side placeholder that has not been acknowledged yet.
    pub temp: Option<bool>,
    /// Hidden from the room history (used by some system flows and by imports).
    pub hidden: Option<bool>,
    /// Set on messages created by an importer rather than sent live.
    pub imported: Option<bool>,
    /// Decryption state for end-to-end encrypted messages.
    pub e2e: Option<E2eStatus>,
    /// Display name override, used by integrations and bots.
    pub alias: Option<String>,
    /// Avatar URL override.
    pub avatar: Option<String>,
    /// Emoji used as the avatar.
    pub emoji: Option<String>,
    /// Role label rendered next to the author.
    pub role: Option<String>,
    /// Integration provenance.
    pub bot: Option<Json>,
    /// Livechat visitor token.
    pub token: Option<String>,
    /// Free-form custom fields, shape defined by the workspace.
    pub custom_fields: Option<Json>,
}

impl Decode for Message {
    open spec fn accepts(j: JsonView) -> bool {
        &&& shaped(j, 45)
        &&& has_required::<MessageId>(slot(j, "_id"@, 0))
        &&& has_required::<Timestamp>(slot(j, "_updatedAt"@, 1))
        &&& has_required::<RoomId>(slot(j, "rid"@, 2))
        &&& has_required::<String>(slot(j, "msg"@, 3))
        &&& has_required::<Timestamp>(slot(j, "ts"@, 4))
        &&& has_required::<UserRef>(slot(j, "u"@, 5))
        &&& has_optional::<MessageType>(slot(j, "t"@, 6))
        &&& has_date(slot(j, "editedAt"@, 7))
        &&& has_optional::<UserRef>(slot(j, "editedBy"@, 8))
        &&& has_optional::<Vec<Json>>(slot(j, "attachments"@, 9))
        &&& has_optional::<Vec<MessageMention>>(slot(j, "mentions"@, 10))
        &&& has_optional::<Vec<ChannelMention>>(slot(j, "channels"@, 11))
        &&& has_optional::<Json>(slot(j, "md"@, 12))
        &&& has_optional::<Json>(slot(j, "blocks"@, 13))
        &&& has_optional::<Vec<MessageUrl>>(slot(j, "urls"@, 14))
        &&& has_optional::<Dict<Reaction>>(slot(j, "reactions"@, 15))
        &&& has_optional::<MessageFile>(slot(j, "file"@, 16))
        &&& has_optional::<Vec<MessageFile>>(slot(j, "files"@, 17))
        &&& has_optional::<MessageId>(slot(j, "tmid"@, 18))
        &&& has_optional::<bool>(slot(j, "tshow"@, 19))
        &&& has_optional::<i64>(slot(j, "tcount"@, 20))
        &&& has_date(slot(j, "tlm"@, 21))
        &&& has_optional::<Vec<UserId>>(slot(j, "replies"@, 22))
        &&& has_optional::<RoomId>(slot(j, "drid"@, 23))
        &&& has_optional::<i64>(slot(j, "dcount"@, 24))
        &&& has_date(slot(j, "dlm"@, 25))
        &&& has_optional::<bool>(slot(j, "groupable"@, 26))
        &&& has_optional::<bool>(slot(j, "parseUrls"@, 27))
        &&& has_optional::<bool>(slot(j, "unread"@, 28))
        &&& has_optional::<bool>(slot(j, "pinned"@, 29))
        &&& has_date(slot(j, "pinnedAt"@, 30))
        &&& has_optional::<UserRef>(slot(j, "pinnedBy"@, 31))
        &&& has_optional::<Vec<Star>>(slot(j, "starred"@, 32))
        &&& has_optional::<bool>(slot(j, "private"@, 33))
        &&& has_optional::<bool>(slot(j, "temp"@, 34))
        &&& has_optional::<bool>(slot(j, "_hidden"@, 35))
        &&& has_optional::<bool>(slot(j, "imported"@, 36))
        &&& has_optional::<E2eStatus>(slot(j, "e2e"@, 37))
        &&& has_optional::<String>(slot(j, "alias"@, 38))
        &&& has_optional::<String>(slot(j, "avatar"@, 39))
        &&& has_optional::<String>(slot(j, "emoji"@, 40))
        &&& has_optional::<String>(slot(j, "role"@, 41))
        &&& has_optional::<Json>(slot(j, "bot"@, 42))
        &&& has_optional::<String>(slot(j, "token"@, 43))
        &&& has_optional::<Json>(slot(j, "customFields"@, 44))
    }

    open spec fn read_from(&self, j: JsonView) -> bool {
        &&& is_required(self.id, slot(j, "_id"@, 0))
        &&& is_required(self.updated_at, slot(j, "_updatedAt"@, 1))
        &&& is_required(self.rid, slot(j, "rid"@, 2))
        &&& is_required(self.msg, slot(j, "msg"@, 3))
        &&& is_required(self.ts, slot(j, "ts"@, 4))
        &&& is_required(self.u, slot(j, "u"@, 5))
        &&& is_optional(self.t, slot(j, "t"@, 6))
        &&& is_date(self.edited_at, slot(j, "editedAt"@, 7))
        &&& is_optional(self.edited_by, slot(j, "editedBy"@, 8))
        &&& is_optional(self.attachments, slot(j, "attachments"@, 9))
        &&& is_optional(self.mentions, slot(j, "mentions"@, 10))
        &&& is_optional(self.channels, slot(j, "channels"@, 11))
        &&& is_optional(self.md, slot(j, "md"@, 12))
        &&& is_optional(self.blocks, slot(j, "blocks"@, 13))
        &&& is_optional(self.urls, slot(j, "urls"@, 14))
        &&& is_optional(self.reactions, slot(j, "reactions"@, 15))
        &&& is_optional(self.file, slot(j, "file"@, 16))
        &&& is_optional(self.files, slot(j, "files"@, 17))
        &&& is_optional(self.tmid, slot(j, "tmid"@, 18))
        &&& is_optional(self.tshow, slot(j, "tshow"@, 19))
        &&& is_optional(self.tcount, slot(j, "tcount"@, 20))
        &&& is_date(self.tlm, slot(j, "tlm"@, 21))
        &&& is_optional(self.replies, slot(j, "replies"@, 22))
        &&& is_optional(self.drid, slot(j, "drid"@, 23))
        &&& is_optional(self.dcount, slot(j, "dcount"@, 24))
        &&& is_date(self.dlm, slot(j, "dlm"@, 25))
        &&& is_optional(self.groupable, slot(j, "groupable"@, 26))
        &&& is_optional(self.parse_urls, slot(j, "parseUrls"@, 27))
        &&& is_optional(self.unread, slot(j, "unread"@, 28))
        &&& is_optional(self.pinned, slot(j, "pinned"@, 29))
        &&& is_date(self.pinned_at, slot(j, "pinnedAt"@, 30))
        &&& is_optional(self.pinned_by, slot(j, "pinnedBy"@, 31))
        &&& is_optional(self.starred, slot(j, "starred"@, 32))
        &&& is_optional(self.private, slot(j, "private"@, 33))
        &&& is_optional(self.temp, slot(j, "temp"@, 34))
        &&& is_optional(self.hidden, slot(j, "_hidden"@, 35))
        &&& is_optional(self.imported, slot(j, "imported"@, 36))
        &&& is_optional(self.e2e, slot(j, "e2e"@, 37))
        &&& is_optional(self.alias, slot(j, "alias"@, 38))
        &&& is_optional(self.avatar, slot(j, "avatar"@, 39))
        &&& is_optional(self.emoji, slot(j, "emoji"@, 40))
        &&& is_optional(self.role, slot(j, "role"@, 41))
        &&& is_optional(self.bot, slot(j, "bot"@, 42))
        &&& is_optional(self.token, slot(j, "token"@, 43))
        &&& is_optional(self.custom_fields, slot(j, "customFields"@, 44))
    }

    #[verifier::rlimit(60)]
    fn decode(j: &Json) -> (r: Option<Message>) {
        if !is_shaped(j, 45) {
            return None;
        }
        let id: MessageId = match required(j, "_id", 0) {
            Some(v) => v,
            None => {
                return None;
            },
        };
        let updated_at: Timestamp = match required(j, "_updatedAt", 1) {
            Some(v) => v,
            None => {
                return None;
            },
        };
        let rid: RoomId = match required(j, "rid", 2) {
            Some(v) => v,
            None => {
                return None;
            },
        };
        let msg: String = match required(j, "msg", 3) {
            Some(v) => v,
            None => {
                return None;
            },
        };
        let ts: Timestamp = match required(j, "ts", 4) {
            Some(v) => v,
            None => {
                return None;
            },
        };
        let u: UserRef = match required(j, "u", 5) {
            Some(v) => v,
            None => {
                return None;
            },
        };
        let t: Option<MessageType> = match optional(j, "t", 6) {
            Some(v) => v,
            None => {
                return None;
            },
        };
        let edited_at: Option<Timestamp> = match optional_date(j, "editedAt", 7) {
            Some(v) => v,
            None => {
                return None;
            },
        };
        let edited_by: Option<UserRef> = match optional(j, "editedBy", 8) {
            Some(v) => v,
            None => {
                return None;
            },
        };
        let attachments: Option<Vec<Json>> = match optional(j, "attachments", 9) {
            Some(v) => v,
            None => {
                return None;
            },
        };
        let mentions: Option<Vec<MessageMention>> = match optional(j, "mentions", 10) {
            Some(v) => v,
            None => {
                return None;
            },
        };
        let channels: Option<Vec<ChannelMention>> = match optional(j, "channels", 11) {
            Some(v) => v,
            None => {
                return None;
            },
        };
        let md: Option<Json> = match optional(j, "md", 12) {
            Some(v) => v,
            None => {
                return None;
            },
        };
        let blocks: Option<Json> = match optional(j, "blocks", 13) {
            Some(v) => v,
            None => {
                return None;
            },
        };
        let urls: Option<Vec<MessageUrl>> = match optional(j, "urls", 14) {
            Some(v) => v,
            None => {
                return None;
            },
        };
        let reactions: Option<Dict<Reaction>> = match optional(j, "reactions", 15) {
            Some(v) => v,
            None => {
                return None;
            },
        };
        let file: Option<MessageFile> = match optional(j, "file", 16) {
            Some(v) => v,
            None => {
                return None;
            },
        };
        let files: Option<Vec<MessageFile>> = match optional(j, "files", 17) {
            Some(v) => v,
            None => {
                return None;
            },
        };
        let tmid: Option<MessageId> = match optional(j, "tmid", 18) {
            Some(v) => v,
            None => {
                return None;
            },
        };
        let tshow: Option<bool> = match optional(j, "tshow", 19) {
            Some(v) => v,
            None => {
                return None;
            },
        };
        let tcount: Option<i64> = match optional(j, "tcount", 20) {
            Some(v) => v,
            None => {
                return None;
            },
        };
        let tlm: Option<Timestamp> = match optional_date(j, "tlm", 21) {
            Some(v) => v,
            None => {
                return None;
            },
        };
        let replies: Option<Vec<UserId>> = match optional(j, "replies", 22) {
            Some(v) => v,
            None => {
                return None;
            },
        };
        let drid: Option<RoomId> = match optional(j, "drid", 23) {
            Some(v) => v,
            None => {
                return None;
            },
        };
        let dcount: Option<i64> = match optional(j, "dcount", 24) {
            Some(v) => v,
            None => {
                return None;
            },
        };
        let dlm: Option<Timestamp> = match optional_date(j, "dlm", 25) {
            Some(v) => v,
            None => {
                return None;
            },
        };
        let groupable: Option<bool> = match optional(j, "groupable", 26) {
            Some(v) => v,
            None => {
                return None;
            },
        };
        let parse_urls: Option<bool> = match optional(j, "parseUrls", 27) {
            Some(v) => v,
            None => {
                return None;
            },
        };
        let unread: Option<bool> = match optional(j, "unread", 28) {
            Some(v) => v,
            None => {
                return None;
            },
        };
        let pinned: Option<bool> = match optional(j, "pinned", 29) {
            Some(v) => v,
            None => {
                return None;
            },
        };
        let pinned_at: Option<Timestamp> = match optional_date(j, "pinnedAt", 30) {
            Some(v) => v,
            None => {
                return None;
            },
        };
        let pinned_by: Option<UserRef> = match optional(j, "pinnedBy", 31) {
            Some(v) => v,
            None => {
                return None;
            },
        };
        let starred: Option<Vec<Star>> = match optional(j, "starred", 32) {
            Some(v) => v,
            None => {
                return None;
            },
        };
        let private: Option<bool> = match optional(j, "private", 33) {
            Some(v) => v,
            None => {
                return None;
            },
        };
        let temp: Option<bool> = match optional(j, "temp", 34) {
            Some(v) => v,
            None => {
                return None;
            },
        };
        let hidden: Option<bool> = match optional(j, "_hidden", 35) {
            Some(v) => v,
            None => {
                return None;
            },
        };
        let imported: Option<bool> = match optional(j, "imported", 36) {
            Some(v) => v,
            None => {
                return None;
            },
        };
        let e2e: Option<E2eStatus> = match optional(j, "e2e", 37) {
            Some(v) => v,
            None => {
                return None;
            },
        };
        let alias: Option<String> = match optional(j, "alias", 38) {
            Some(v) => v,
            None => {
                return None;
            },
        };
        let avatar: Option<String> = match optional(j, "avatar", 39) {
            Some(v) => v,
            None => {
                return None;
            },
        };
        let emoji: Option<String> = match optional(j, "emoji", 40) {
            Some(v) => v,
            None => {
                return None;
            },
        };
        let role: Option<String> = match optional(j, "role", 41) {
            Some(v) => v,
            None => {
                return None;
            },
        };
        let bot: Option<Json> = match optional(j, "bot", 42) {
            Some(v) => v,
            None => {
                return None;
            },
        };
        let token: Option<String> = match optional(j, "token", 43) {
            Some(v) => v,
            None => {
                return None;
            },
        };
        let custom_fields: Option<Json> = match optional(j, "customFields", 44) {
            Some(v) => v,
            None => {
                return None;
            },
        };
        Some(
            Message {
                id,
                updated_at,
                rid,
                msg,
                ts,
                u,
                t,
                edited_at,
                edited_by,
                attachments,
                mentions,
                channels,
                md,
                blocks,
                urls,
                reactions,
                file,
                files,
                tmid,
                tshow,
                tcount,
                tlm,
                replies,
                drid,
                dcount,
                dlm,
                groupable,
                parse_urls,
                unread,
                pinned,
                pinned_at,
                pinned_by,
                starred,
                private,
                temp,
                hidden,
                imported,
                e2e,
                alias,
                avatar,
                emoji,
                role,
                bot,
                token,
                custom_fields,
            },
        )
    }
}

impl Encode for Message {
    open spec fn doc(&self) -> JsonView {
        let m = Map::empty();
        let m = with(m, "_id"@, self.id.doc());
        let m = with(m, "_updatedAt"@, self.updated_at.doc());
        let m = with(m, "rid"@, self.rid.doc());
        let m = with(m, "msg"@, self.msg.doc());
        let m = with(m, "ts"@, self.ts.doc());
        let m = with(m, "u"@, self.u.doc());
        let m = with_some(m, "t"@, self.t);
        let m = with_some(m, "editedAt"@, self.edited_at);
        let m = with_some(m, "editedBy"@, self.edited_by);
        let m = with_some(m, "attachments"@, self.attachments);
        let m = with_some(m, "mentions"@, self.mentions);
        let m = with_some(m, "channels"@, self.channels);
        let m = with_some(m, "md"@, self.md);
        let m = with_some(m, "blocks"@, self.blocks);
        let m = with_some(m, "urls"@, self.urls);
        let m = with_some(m, "reactions"@, self.reactions);
        let m = with_some(m, "file"@, self.file);
        let m = with_some(m, "files"@, self.files);
        let m = with_some(m, "tmid"@, self.tmid);
        let m = with_some(m, "tshow"@, self.tshow);
        let m = with_some(m, "tcount"@, self.tcount);
        let m = with_some(m, "tlm"@, self.tlm);
        let m = with_some(m, "replies"@, self.replies);
        let m = with_some(m, "drid"@, self.drid);
        let m = with_some(m, "dcount"@, self.dcount);
        let m = with_some(m, "dlm"@, self.dlm);
        let m = with_some(m, "groupable"@, self.groupable);
        let m = with_some(m, "parseUrls"@, self.parse_urls);
        let m = with_some(m, "unread"@, self.unread);
        let m = with_some(m, "pinned"@, self.pinned);
        let m = with_some(m, "pinnedAt"@, self.pinned_at);
        let m = with_some(m, "pinnedBy"@, self.pinned_by);
        let m = with_some(m, "starred"@, self.starred);
        let m = with_some(m, "private"@, self.private);
        let m = with_some(m, "temp"@, self.temp);
        let m = with_some(m, "_hidden"@, self.hidden);
        let m = with_some(m, "imported"@, self.imported);
        let m = with_some(m, "e2e"@, self.e2e);
        let m = with_some(m, "alias"@, self.alias);
        let m = with_some(m, "avatar"@, self.avatar);
        let m = with_some(m, "emoji"@, self.emoji);
        let m = with_some(m, "role"@, self.role);
        let m = with_some(m, "bot"@, self.bot);
        let m = with_some(m, "token"@, self.token);
        let m = with_some(m, "customFields"@, self.custom_fields);
        JsonView::Object(m)
    }

    #[verifier::rlimit(60)]
    fn encode(&self) -> (r: Json) {
        let mut map = JsonMap::new();
        put(&mut map, "_id", &self.id);
        put(&mut map, "_updatedAt", &self.updated_at);
        put(&mut map, "rid", &self.rid);
        put(&mut map, "msg", &self.msg);
        put(&mut map, "ts", &self.ts);
        put(&mut map, "u", &self.u);
        put_some(&mut map, "t", &self.t);
        put_some(&mut map, "editedAt", &self.edited_at);
        put_some(&mut map, "editedBy", &self.edited_by);
        put_some(&mut map, "attachments", &self.attachments);
        put_some(&mut map, "mentions", &self.mentions);
        put_some(&mut map, "channels", &self.channels);
        put_some(&mut map, "md", &self.md);
        put_some(&mut map, "blocks", &self.blocks);
        put_some(&mut map, "urls", &self.urls);
        put_some(&mut map, "reactions", &self.reactions);
        put_some(&mut map, "file", &self.file);
        put_some(&mut map, "files", &self.files);
        put_some(&mut map, "tmid", &self.tmid);
        put_some(&mut map, "tshow", &self.tshow);
        put_some(&mut map, "tcount", &self.tcount);
        put_some(&mut map, "tlm", &self.tlm);
        put_some(&mut map, "replies", &self.replies);
        put_some(&mut map, "drid", &self.drid);
        put_some(&mut map, "dcount", &self.dcount);
        put_some(&mut map, "dlm", &self.dlm);
        put_some(&mut map, "groupable", &self.groupable);
        put_some(&mut map, "parseUrls", &self.parse_urls);
        put_some(&mut map, "unread", &self.unread);
        put_some(&mut map, "pinned", &self.pinned);
        put_some(&mut map, "pinnedAt", &self.pinned_at);
        put_some(&mut map, "pinnedBy", &self.pinned_by);
        put_some(&mut map, "starred", &self.starred);
        put_some(&mut map, "private", &self.private);
        put_some(&mut map, "temp", &self.temp);
        put_some(&mut map, "_hidden", &self.hidden);
        put_some(&mut map, "imported", &self.imported);
        put_some(&mut map, "e2e", &self.e2e);
        put_some(&mut map, "alias", &self.alias);
        put_some(&mut map, "avatar", &self.avatar);
        put_some(&mut map, "emoji", &self.emoji);
        put_some(&mut map, "role", &self.role);
        put_some(&mut map, "bot", &self.bot);
        put_some(&mut map, "token", &self.token);
        put_some(&mut map, "customFields", &self.custom_fields);
        Json::Object(map)
    }
}

impl Duplicate for Message {
    open spec fn alike(&self, other: &Message) -> bool {
        &&& self.id.alike(&other.id)
        &&& self.updated_at.alike(&other.updated_at)
        &&& self.rid.alike(&other.rid)
        &&& self.msg.alike(&other.msg)
        &&& self.ts.alike(&other.ts)
        &&& self.u.alike(&other.u)
        &&& same_some(self.t, other.t)
        &&& same_some(self.edited_at, other.edited_at)
        &&& same_some(self.edited_by, other.edited_by)
        &&& same_some(self.attachments, other.attachments)
        &&& same_some(self.mentions, other.mentions)
        &&& same_some(self.channels, other.channels)
        &&& same_some(self.md, other.md)
        &&& same_some(self.blocks, other.blocks)
        &&& same_some(self.urls, other.urls)
        &&& same_some(self.reactions, other.reactions)
        &&& same_some(self.file, other.file)
        &&& same_some(self.files, other.files)
        &&& same_some(self.tmid, other.tmid)
        &&& same_some(self.tshow, other.tshow)
        &&& same_some(self.tcount, other.tcount)
        &&& same_some(self.tlm, other.tlm)
        &&& same_some(self.replies, other.replies)
        &&& same_some(self.drid, other.drid)
        &&& same_some(self.dcount, other.dcount)
        &&& same_some(self.dlm, other.dlm)
        &&& same_some(self.groupable, other.groupable)
        &&& same_some(self.parse_urls, other.parse_urls)
        &&& same_some(self.unread, other.unread)
        &&& same_some(self.pinned, other.pinned)
        &&& same_some(self.pinned_at, other.pinned_at)
        &&& same_some(self.pinned_by, other.pinned_by)
        &&& same_some(self.starred, other.starred)
        &&& same_some(self.private, other.private)
        &&& same_some(self.temp, other.temp)
        &&& same_some(self.hidden, other.hidden)
        &&& same_some(self.imported, other.imported)
        &&& same_some(self.e2e, other.e2e)
        &&& same_some(self.alias, other.alias)
        &&& same_some(self.avatar, other.avatar)
        &&& same_some(self.emoji, other.emoji)
        &&& same_some(self.role, other.role)
        &&& same_some(self.bot, other.bot)
        &&& same_some(self.token, other.token)
        &&& same_some(self.custom_fields, other.custom_fields)
    }

    fn dup(&self) -> (r: Message) {
        let copy = Message {
            id: self.id.dup(),
            updated_at: self.updated_at.dup(),
            rid: self.rid.dup(),
            msg: self.msg.dup(),
            ts: self.ts.dup(),
            u: self.u.dup(),
            t: dup_some(&self.t),
            edited_at: dup_some(&self.edited_at),
            edited_by: dup_some(&self.edited_by),
            attachments: dup_some(&self.attachments),
            mentions: dup_some(&self.mentions),
            channels: dup_some(&self.channels),
            md: dup_some(&self.md),
            blocks: dup_some(&self.blocks),
            urls: dup_some(&self.urls),
            reactions: dup_some(&self.reactions),
            file: dup_some(&self.file),
            files: dup_some(&self.files),
            tmid: dup_some(&self.tmid),
            tshow: dup_some(&self.tshow),
            tcount: dup_some(&self.tcount),
            tlm: dup_some(&self.tlm),
            replies: dup_some(&self.replies),
            drid: dup_some(&self.drid),
            dcount: dup_some(&self.dcount),
            dlm: dup_some(&self.dlm),
            groupable: dup_some(&self.groupable),
            parse_urls: dup_some(&self.parse_urls),
            unread: dup_some(&self.unread),
            pinned: dup_some(&self.pinned),
            pinned_at: dup_some(&self.pinned_at),
            pinned_by: dup_some(&self.pinned_by),
            starred: dup_some(&self.starred),
            private: dup_some(&self.private),
            temp: dup_some(&self.temp),
            hidden: dup_some(&self.hidden),
            imported: dup_some(&self.imported),
            e2e: dup_some(&self.e2e),
            alias: dup_some(&self.alias),
            avatar: dup_some(&self.avatar),
            emoji: dup_some(&self.emoji),
            role: dup_some(&self.role),
            bot: dup_some(&self.bot),
            token: dup_some(&self.token),
            custom_fields: dup_some(&self.custom_fields),
        };
        proof {
            lemma_message_same(copy, *self);
        }
        copy
    }
}

/// Whether a list of stars holds a user.
pub open spec fn stars_have(stars: Seq<Star>, user: Seq<char>) -> bool {
    exists|i: int| 0 <= i < stars.len() && (#[trigger] stars[i]).user_id@ == user
}

impl Message {
    /// Whether this is a system message.
    pub fn is_system(&self) -> (r: bool)
        ensures
            r == (self.t is Some),
    {
        self.t.is_some()
    }

    /// Whether the message was edited.
    pub fn is_edited(&self) -> (r: bool)
        ensures
            r == (self.edited_at is Some),
    {
        self.edited_at.is_some()
    }

    /// Whether the message is what a deletion left in its place: an edit whose type is `rm`.
    pub open spec fn tombstone(&self) -> bool {
        self.edited_at is Some && self.t is Some && self.t->0 is Rm
    }

    /// Whether the message is what a deletion left in its place: an edit whose type is `rm`.
    pub fn is_deleted_tombstone(&self) -> (r: bool)
        ensures
            r == self.tombstone(),
    {
        match &self.t {
            Some(MessageType::Rm) => self.is_edited(),
            _ => false,
        }
    }

    /// Whether the message is a reply in a thread.
    pub fn is_thread_reply(&self) -> (r: bool)
        ensures
            r == (self.tmid is Some),
    {
        self.tmid.is_some()
    }

    /// Whether the message has a thread of its own.
    pub fn is_thread_main(&self) -> (r: bool)
        ensures
            r == (self.tcount matches Some(n) && n > 0),
    {
        match self.tcount {
            Some(n) => n > 0,
            None => false,
        }
    }

    /// Whether the message links to a discussion.
    pub fn is_discussion_parent(&self) -> (r: bool)
        ensures
            r == (self.drid is Some),
    {
        self.drid.is_some()
    }

    /// Whether a user starred the message.
    pub fn is_starred_by(&self, user: &UserId) -> (r: bool)
        ensures
            r == (self.starred matches Some(stars) && stars_have(stars@, user@)),
    {
        match &self.starred {
            Some(stars) => {
                let mut i: usize = 0;
                while i < stars.len()
                    invariant
                        self.starred == Some(*stars),
                        i <= stars@.len(),
                        forall|k: int| 0 <= k < i ==> (#[trigger] stars@[k]).user_id@ != user@,
                    decreases stars@.len() - i,
                {
                    if stars[i].user_id.same(user) {
                        assert(stars@[i as int].user_id@ == user@);
                        assert(stars_have(stars@, user@));
                        return true;
                    }
                    i += 1;
                }
                false
            },
            None => false,
        }
    }

    /// Whether the message is pinned.
    pub fn is_pinned(&self) -> (r: bool)
        ensures
            r == (self.pinned == Some(true)),
    {
        match self.pinned {
            Some(b) => b,
            None => false,
        }
    }

    /// The reaction with an emoji.
    pub fn reaction(&self, emoji: &str) -> (r: Option<&Reaction>)
        ensures
            r is Some <==> (self.reactions is Some && self.reactions->0.has(emoji@)),
            r matches Some(v) ==> exists|i: int|
                0 <= i < self.reactions->0.entries@.len() && (
                #[trigger] self.reactions->0.entries@[i]).0@ == emoji@
                    && self.reactions->0.entries@[i].1 == *v && forall|k: int|
                    0 <= k < i ==> (#[trigger] self.reactions->0.entries@[k]).0@ != emoji@,
    {
        match &self.reactions {
            Some(reactions) => reactions.get(emoji),
            None => None,
        }
    }
}

/// A message is a tombstone where it was edited and its type says that it was removed.
pub proof fn law_what_a_tombstone_is(message: Message)
    ensures
        message.tombstone() <==> message.edited_at is Some && (message.t matches Some(kind) && kind
            is Rm),
{
}

} // verus!

//! The documents that other documents hold.
use crate::model::datetime::Timestamp;
use crate::model::entity::enums::MentionType;
use crate::model::faithful::parts::{lemma_user_ref_same, lemma_message_mention_same, lemma_channel_mention_same, lemma_message_url_same, lemma_url_headers_same, lemma_reaction_same, lemma_star_same, lemma_message_file_same, lemma_announcement_details_same, lemma_old_room_key_same, lemma_user_email_same};
use crate::model::id::{RoomId, UploadId, UserId};
use crate::model::json::{Json, JsonMap, JsonView};
use crate::text::str_eq;
use crate::model::wire::{
    defaulted, dup_some, has_date, has_default, has_optional, has_required, is_date,
    is_optional, is_required, is_shaped, optional, optional_date, put, put_some, required,
    same_some, shaped, slot, with, with_some, Decode, Dict, Duplicate, Encode,
};
use vstd::prelude::*;
use vstd::string::*;

verus! {

/// The embedded user stub Rocket.Chat denormalises into messages, rooms and subscriptions.
#[derive(Clone, Debug, PartialEq)]
pub struct UserRef {
    /// The user's id.
    pub id: UserId,
    /// The login name.
    pub username: Option<String>,
    /// The display name.
    pub name: Option<String>,
}

impl Decode for UserRef {
    open spec fn accepts(j: JsonView) -> bool {
        &&& shaped(j, 3)
        &&& has_required::<UserId>(slot(j, "_id"@, 0))
        &&& has_optional::<String>(slot(j, "username"@, 1))
        &&& has_optional::<String>(slot(j, "name"@, 2))
    }

    open spec fn read_from(&self, j: JsonView) -> bool {
        &&& is_required(self.id, slot(j, "_id"@, 0))
        &&& is_optional(self.username, slot(j, "username"@, 1))
        &&& is_optional(self.name, slot(j, "name"@, 2))
    }

    fn decode(j: &Json) -> (r: Option<UserRef>) {
        if !is_shaped(j, 3) {
            return None;
        }
        let id: UserId = match required(j, "_id", 0) {
            Some(v) => v,
            None => {
                return None;
            },
        };
        let username: Option<String> = match optional(j, "username", 1) {
            Some(v) => v,
            None => {
                return None;
            },
        };
        let name: Option<String> = match optional(j, "name", 2) {
            Some(v) => v,
            None => {
                return None;
            },
        };
        Some(
            UserRef {
                id,
                username,
                name,
            },
        )
    }
}

impl Encode for UserRef {
    open spec fn doc(&self) -> JsonView {
        let m = Map::empty();
        let m = with(m, "_id"@, self.id.doc());
        let m = with_some(m, "username"@, self.username);
        let m = with_some(m, "name"@, self.name);
        JsonView::Object(m)
    }

    fn encode(&self) -> (r: Json) {
        let mut map = JsonMap::new();
        put(&mut map, "_id", &self.id);
        put_some(&mut map, "username", &self.username);
        put_some(&mut map, "name", &self.name);
        Json::Object(map)
    }
}

impl Duplicate for UserRef {
    open spec fn alike(&self, other: &UserRef) -> bool {
        &&& self.id.alike(&other.id)
        &&& same_some(self.username, other.username)
        &&& same_some(self.name, other.name)
    }

    fn dup(&self) -> (r: UserRef) {
        let copy = UserRef {
            id: self.id.dup(),
            username: dup_some(&self.username),
            name: dup_some(&self.name),
        };
        proof {
            lemma_user_ref_same(copy, *self);
        }
        copy
    }
}

/// One entry of `Message::mentions`.
#[derive(Clone, Debug, PartialEq)]
pub struct MessageMention {
    /// Id of the mentioned user or team.
    pub id: String,
    /// What was mentioned.
    pub mention_type: Option<MentionType>,
    /// Display name of the mentioned user.
    pub name: Option<String>,
    /// Login name of the mentioned user.
    pub username: Option<String>,
    /// Friendly room name, set when the mention resolves to a team's main channel.
    pub fname: Option<String>,
}

impl Decode for MessageMention {
    open spec fn accepts(j: JsonView) -> bool {
        &&& shaped(j, 5)
        &&& has_required::<String>(slot(j, "_id"@, 0))
        &&& has_optional::<MentionType>(slot(j, "type"@, 1))
        &&& has_optional::<String>(slot(j, "name"@, 2))
        &&& has_optional::<String>(slot(j, "username"@, 3))
        &&& has_optional::<String>(slot(j, "fname"@, 4))
    }

    open spec fn read_from(&self, j: JsonView) -> bool {
        &&& is_required(self.id, slot(j, "_id"@, 0))
        &&& is_optional(self.mention_type, slot(j, "type"@, 1))
        &&& is_optional(self.name, slot(j, "name"@, 2))
        &&& is_optional(self.username, slot(j, "username"@, 3))
        &&& is_optional(self.fname, slot(j, "fname"@, 4))
    }

    fn decode(j: &Json) -> (r: Option<MessageMention>) {
        if !is_shaped(j, 5) {
            return None;
        }
        let id: String = match required(j, "_id", 0) {
            Some(v) => v,
            None => {
                return None;
            },
        };
        let mention_type: Option<MentionType> = match optional(j, "type", 1) {
            Some(v) => v,
            None => {
                return None;
            },
        };
        let name: Option<String> = match optional(j, "name", 2) {
            Some(v) => v,
            None => {
                return None;
            },
        };
        let username: Option<String> = match optional(j, "username", 3) {
            Some(v) => v,
            None => {
                return None;
            },
        };
        let fname: Option<String> = match optional(j, "fname", 4) {
            Some(v) => v,
            None => {
                return None;
            },
        };
        Some(
            MessageMention {
                id,
                mention_type,
                name,
                username,
                fname,
            },
        )
    }
}

impl Encode for MessageMention {
    open spec fn doc(&self) -> JsonView {
        let m = Map::empty();
        let m = with(m, "_id"@, self.id.doc());
        let m = with_some(m, "type"@, self.mention_type);
        let m = with_some(m, "name"@, self.name);
        let m = with_some(m, "username"@, self.username);
        let m = with_some(m, "fname"@, self.fname);
        JsonView::Object(m)
    }

    fn encode(&self) -> (r: Json) {
        let mut map = JsonMap::new();
        put(&mut map, "_id", &self.id);
        put_some(&mut map, "type", &self.mention_type);
        put_some(&mut map, "name", &self.name);
        put_some(&mut map, "username", &self.username);
        put_some(&mut map, "fname", &self.fname);
        Json::Object(map)
    }
}

impl Duplicate for MessageMention {
    open spec fn alike(&self, other: &MessageMention) -> bool {
        &&& self.id.alike(&other.id)
        &&& same_some(self.mention_type, other.mention_type)
        &&& same_some(self.name, other.name)
        &&& same_some(self.username, other.username)
        &&& same_some(self.fname, other.fname)
    }

    fn dup(&self) -> (r: MessageMention) {
        let copy = MessageMention {
            id: self.id.dup(),
            mention_type: dup_some(&self.mention_type),
            name: dup_some(&self.name),
            username: dup_some(&self.username),
            fname: dup_some(&self.fname),
        };
        proof {
            lemma_message_mention_same(copy, *self);
        }
        copy
    }
}

/// One entry of `Message::channels`: a `#channel` reference resolved at send time.
#[derive(Clone, Debug, PartialEq)]
pub struct ChannelMention {
    /// Id of the referenced room.
    pub id: RoomId,
    /// Name of the referenced room.
    pub name: Option<String>,
}

impl Decode for ChannelMention {
    open spec fn accepts(j: JsonView) -> bool {
        &&& shaped(j, 2)
        &&& has_required::<RoomId>(slot(j, "_id"@, 0))
        &&& has_optional::<String>(slot(j, "name"@, 1))
    }

    open spec fn read_from(&self, j: JsonView) -> bool {
        &&& is_required(self.id, slot(j, "_id"@, 0))
        &&& is_optional(self.name, slot(j, "name"@, 1))
    }

    fn decode(j: &Json) -> (r: Option<ChannelMention>) {
        if !is_shaped(j, 2) {
            return None;
        }
        let id: RoomId = match required(j, "_id", 0) {
            Some(v) => v,
            None => {
                return None;
            },
        };
        let name: Option<String> = match optional(j, "name", 1) {
            Some(v) => v,
            None => {
                return None;
            },
        };
        Some(
            ChannelMention {
                id,
                name,
            },
        )
    }
}

impl Encode for ChannelMention {
    open spec fn doc(&self) -> JsonView {
        let m = Map::empty();
        let m = with(m, "_id"@, self.id.doc());
        let m = with_some(m, "name"@, self.name);
        JsonView::Object(m)
    }

    fn encode(&self) -> (r: Json) {
        let mut map = JsonMap::new();
        put(&mut map, "_id", &self.id);
        put_some(&mut map, "name", &self.name);
        Json::Object(map)
    }
}

impl Duplicate for ChannelMention {
    open spec fn alike(&self, other: &ChannelMention) -> bool {
        &&& self.id.alike(&other.id)
        &&& same_some(self.name, other.name)
    }

    fn dup(&self) -> (r: ChannelMention) {
        let copy = ChannelMention {
            id: self.id.dup(),
            name: dup_some(&self.name),
        };
        proof {
            lemma_channel_mention_same(copy, *self);
        }
        copy
    }
}

/// A URL found in a message body, together with whatever preview metadata was scraped.
#[derive(Clone, Debug, PartialEq)]
pub struct MessageUrl {
    /// The URL as it appeared in the message.
    pub url: String,
    /// The source text the URL was extracted from, when it differs from `url`.
    pub source: Option<String>,
    /// Scraped OpenGraph / oEmbed metadata.
    pub meta: Dict<Json>,
    /// HTTP headers observed when fetching the preview.
    pub headers: Option<UrlHeaders>,
    /// Set when the server was told not to generate a preview for this URL.
    pub ignore_parse: Option<bool>,
    /// Node's `url.parse` output for the URL.
    pub parsed_url: Option<Json>,
}

impl Decode for MessageUrl {
    open spec fn accepts(j: JsonView) -> bool {
        &&& shaped(j, 6)
        &&& has_required::<String>(slot(j, "url"@, 0))
        &&& has_optional::<String>(slot(j, "source"@, 1))
        &&& has_default::<Dict<Json>>(slot(j, "meta"@, 2))
        &&& has_optional::<UrlHeaders>(slot(j, "headers"@, 3))
        &&& has_optional::<bool>(slot(j, "ignoreParse"@, 4))
        &&& has_optional::<Json>(slot(j, "parsedUrl"@, 5))
    }

    open spec fn read_from(&self, j: JsonView) -> bool {
        &&& is_required(self.url, slot(j, "url"@, 0))
        &&& is_optional(self.source, slot(j, "source"@, 1))
        &&& if slot(j, "meta"@, 2) is None {
            self.meta.entries@.len() == 0
        } else {
            self.meta.read_from(slot(j, "meta"@, 2)->0)
        }
        &&& is_optional(self.headers, slot(j, "headers"@, 3))
        &&& is_optional(self.ignore_parse, slot(j, "ignoreParse"@, 4))
        &&& is_optional(self.parsed_url, slot(j, "parsedUrl"@, 5))
    }

    fn decode(j: &Json) -> (r: Option<MessageUrl>) {
        if !is_shaped(j, 6) {
            return None;
        }
        let url: String = match required(j, "url", 0) {
            Some(v) => v,
            None => {
                return None;
            },
        };
        let source: Option<String> = match optional(j, "source", 1) {
            Some(v) => v,
            None => {
                return None;
            },
        };
        let meta: Dict<Json> = match defaulted(j, "meta", 2) {
            Some(Some(v)) => v,
            Some(None) => Dict { entries: Vec::new() },
            None => {
                return None;
            },
        };
        let headers: Option<UrlHeaders> = match optional(j, "headers", 3) {
            Some(v) => v,
            None => {
                return None;
            },
        };
        let ignore_parse: Option<bool> = match optional(j, "ignoreParse", 4) {
            Some(v) => v,
            None => {
                return None;
            },
        };
        let parsed_url: Option<Json> = match optional(j, "parsedUrl", 5) {
            Some(v) => v,
            None => {
                return None;
            },
        };
        Some(
            MessageUrl {
                url,
                source,
                meta,
                headers,
                ignore_parse,
                parsed_url,
            },
        )
    }
}

impl Encode for MessageUrl {
    open spec fn doc(&self) -> JsonView {
        let m = Map::empty();
        let m = with(m, "url"@, self.url.doc());
        let m = with_some(m, "source"@, self.source);
        let m = if self.meta.entries@.len() == 0 {
            m
        } else {
            with(m, "meta"@, self.meta.doc())
        };
        let m = with_some(m, "headers"@, self.headers);
        let m = with_some(m, "ignoreParse"@, self.ignore_parse);
        let m = with_some(m, "parsedUrl"@, self.parsed_url);
        JsonView::Object(m)
    }

    fn encode(&self) -> (r: Json) {
        let mut map = JsonMap::new();
        put(&mut map, "url", &self.url);
        put_some(&mut map, "source", &self.source);
        if self.meta.entries.len() > 0 {
            put(&mut map, "meta", &self.meta);
        }
        put_some(&mut map, "headers", &self.headers);
        put_some(&mut map, "ignoreParse", &self.ignore_parse);
        put_some(&mut map, "parsedUrl", &self.parsed_url);
        Json::Object(map)
    }
}

impl Duplicate for MessageUrl {
    open spec fn alike(&self, other: &MessageUrl) -> bool {
        &&& self.url.alike(&other.url)
        &&& same_some(self.source, other.source)
        &&& self.meta.alike(&other.meta)
        &&& same_some(self.headers, other.headers)
        &&& same_some(self.ignore_parse, other.ignore_parse)
        &&& same_some(self.parsed_url, other.parsed_url)
    }

    fn dup(&self) -> (r: MessageUrl) {
        let copy = MessageUrl {
            url: self.url.dup(),
            source: dup_some(&self.source),
            meta: self.meta.dup(),
            headers: dup_some(&self.headers),
            ignore_parse: dup_some(&self.ignore_parse),
            parsed_url: dup_some(&self.parsed_url),
        };
        proof {
            lemma_message_url_same(copy, *self);
        }
        copy
    }
}

/// Headers recorded while fetching a `MessageUrl` preview.
#[derive(Clone, Debug, PartialEq)]
pub struct UrlHeaders {
    /// `Content-Length`, as the string the server stored.
    pub content_length: Option<String>,
    /// `Content-Type`.
    pub content_type: Option<String>,
}

impl Decode for UrlHeaders {
    open spec fn accepts(j: JsonView) -> bool {
        &&& shaped(j, 2)
        &&& has_optional::<String>(slot(j, "contentLength"@, 0))
        &&& has_optional::<String>(slot(j, "contentType"@, 1))
    }

    open spec fn read_from(&self, j: JsonView) -> bool {
        &&& is_optional(self.content_length, slot(j, "contentLength"@, 0))
        &&& is_optional(self.content_type, slot(j, "contentType"@, 1))
    }

    fn decode(j: &Json) -> (r: Option<UrlHeaders>) {
        if !is_shaped(j, 2) {
            return None;
        }
        let content_length: Option<String> = match optional(j, "contentLength", 0) {
            Some(v) => v,
            None => {
                return None;
            },
        };
        let content_type: Option<String> = match optional(j, "contentType", 1) {
            Some(v) => v,
            None => {
                return None;
            },
        };
        Some(
            UrlHeaders {
                content_length,
                content_type,
            },
        )
    }
}

impl Encode for UrlHeaders {
    open spec fn doc(&self) -> JsonView {
        let m = Map::empty();
        let m = with_some(m, "contentLength"@, self.content_length);
        let m = with_some(m, "contentType"@, self.content_type);
        JsonView::Object(m)
    }

    fn encode(&self) -> (r: Json) {
        let mut map = JsonMap::new();
        put_some(&mut map, "contentLength", &self.content_length);
        put_some(&mut map, "contentType", &self.content_type);
        Json::Object(map)
    }
}

impl Duplicate for UrlHeaders {
    open spec fn alike(&self, other: &UrlHeaders) -> bool {
        &&& same_some(self.content_length, other.content_length)
        &&& same_some(self.content_type, other.content_type)
    }

    fn dup(&self) -> (r: UrlHeaders) {
        let copy = UrlHeaders {
            content_length: dup_some(&self.content_length),
            content_type: dup_some(&self.content_type),
        };
        proof {
            lemma_url_headers_same(copy, *self);
        }
        copy
    }
}

/// One emoji's worth of reactions, the value side of `Message::reactions`.
#[derive(Clone, Debug, PartialEq)]
pub struct Reaction {
    /// Usernames of the reacting users.
    pub usernames: Vec<String>,
    /// Display names of the reacting users, populated only when the server is configured
    /// to show real names.
    pub names: Option<Vec<String>>,
    /// Matrix federation bookkeeping: username to remote event id.
    pub federation_reaction_event_ids: Option<Dict<String>>,
}

impl Default for Reaction {
    fn default() -> (r: Reaction)
        ensures
            r.usernames@.len() == 0,
            r.names is None,
            r.federation_reaction_event_ids is None,
    {
        Reaction { usernames: Vec::new(), names: None, federation_reaction_event_ids: None }
    }
}

impl Decode for Reaction {
    open spec fn accepts(j: JsonView) -> bool {
        &&& shaped(j, 3)
        &&& has_default::<Vec<String>>(slot(j, "usernames"@, 0))
        &&& has_optional::<Vec<String>>(slot(j, "names"@, 1))
        &&& has_optional::<Dict<String>>(slot(j, "federationReactionEventIds"@, 2))
    }

    open spec fn read_from(&self, j: JsonView) -> bool {
        &&& if slot(j, "usernames"@, 0) is None {
            self.usernames@.len() == 0
        } else {
            self.usernames.read_from(slot(j, "usernames"@, 0)->0)
        }
        &&& is_optional(self.names, slot(j, "names"@, 1))
        &&& is_optional(self.federation_reaction_event_ids, slot(j, "federationReactionEventIds"@, 2))
    }

    fn decode(j: &Json) -> (r: Option<Reaction>) {
        if !is_shaped(j, 3) {
            return None;
        }
        let usernames: Vec<String> = match defaulted(j, "usernames", 0) {
            Some(Some(v)) => v,
            Some(None) => Vec::new(),
            None => {
                return None;
            },
        };
        let names: Option<Vec<String>> = match optional(j, "names", 1) {
            Some(v) => v,
            None => {
                return None;
            },
        };
        let federation_reaction_event_ids: Option<Dict<String>> = match optional(j, "federationReactionEventIds", 2) {
            Some(v) => v,
            None => {
                return None;
            },
        };
        Some(
            Reaction {
                usernames,
                names,
                federation_reaction_event_ids,
            },
        )
    }
}

impl Encode for Reaction {
    open spec fn doc(&self) -> JsonView {
        let m = Map::empty();
        let m = with(m, "usernames"@, self.usernames.doc());
        let m = with_some(m, "names"@, self.names);
        let m = with_some(m, "federationReactionEventIds"@, self.federation_reaction_event_ids);
        JsonView::Object(m)
    }

    fn encode(&self) -> (r: Json) {
        let mut map = JsonMap::new();
        put(&mut map, "usernames", &self.usernames);
        put_some(&mut map, "names", &self.names);
        put_some(&mut map, "federationReactionEventIds", &self.federation_reaction_event_ids);
        Json::Object(map)
    }
}

impl Duplicate for Reaction {
    open spec fn alike(&self, other: &Reaction) -> bool {
        &&& self.usernames.alike(&other.usernames)
        &&& same_some(self.names, other.names)
        &&& same_some(self.federation_reaction_event_ids, other.federation_reaction_event_ids)
    }

    fn dup(&self) -> (r: Reaction) {
        let copy = Reaction {
            usernames: self.usernames.dup(),
            names: dup_some(&self.names),
            federation_reaction_event_ids: dup_some(&self.federation_reaction_event_ids),
        };
        proof {
            lemma_reaction_same(copy, *self);
        }
        copy
    }
}

/// One entry of `Message::starred`.
#[derive(Clone, Debug, PartialEq)]
pub struct Star {
    /// Id of the user who starred the message.
    pub user_id: UserId,
}

impl Decode for Star {
    open spec fn accepts(j: JsonView) -> bool {
        &&& shaped(j, 1)
        &&& has_required::<UserId>(slot(j, "_id"@, 0))
    }

    open spec fn read_from(&self, j: JsonView) -> bool {
        &&& is_required(self.user_id, slot(j, "_id"@, 0))
    }

    fn decode(j: &Json) -> (r: Option<Star>) {
        if !is_shaped(j, 1) {
            return None;
        }
        let user_id: UserId = match required(j, "_id", 0) {
            Some(v) => v,
            None => {
                return None;
            },
        };
        Some(
            Star {
                user_id,
            },
        )
    }
}

impl Encode for Star {
    open spec fn doc(&self) -> JsonView {
        let m = Map::empty();
        let m = with(m, "_id"@, self.user_id.doc());
        JsonView::Object(m)
    }

    fn encode(&self) -> (r: Json) {
        let mut map = JsonMap::new();
        put(&mut map, "_id", &self.user_id);
        Json::Object(map)
    }
}

impl Duplicate for Star {
    open spec fn alike(&self, other: &Star) -> bool {
        &&& self.user_id.alike(&other.user_id)
    }

    fn dup(&self) -> (r: Star) {
        let copy = Star {
            user_id: self.user_id.dup(),
        };
        proof {
            lemma_star_same(copy, *self);
        }
        copy
    }
}

/// An uploaded file referenced by a message (`FileProp` on the server).
#[derive(Clone, Debug, PartialEq)]
pub struct MessageFile {
    /// Upload id; the download URL is derived from it.
    pub id: UploadId,
    /// Original file name.
    pub name: Option<String>,
    /// MIME type.
    pub content_type: Option<String>,
    /// Format hint, e.g.
    pub format: Option<String>,
    /// Size in bytes.
    pub size: Option<i64>,
    /// Coarse grouping (`image`, `audio`, ...).
    pub type_group: Option<String>,
}

impl Decode for MessageFile {
    open spec fn accepts(j: JsonView) -> bool {
        &&& shaped(j, 6)
        &&& has_required::<UploadId>(slot(j, "_id"@, 0))
        &&& has_optional::<String>(slot(j, "name"@, 1))
        &&& has_optional::<String>(slot(j, "type"@, 2))
        &&& has_optional::<String>(slot(j, "format"@, 3))
        &&& has_optional::<i64>(slot(j, "size"@, 4))
        &&& has_optional::<String>(slot(j, "typeGroup"@, 5))
    }

    open spec fn read_from(&self, j: JsonView) -> bool {
        &&& is_required(self.id, slot(j, "_id"@, 0))
        &&& is_optional(self.name, slot(j, "name"@, 1))
        &&& is_optional(self.content_type, slot(j, "type"@, 2))
        &&& is_optional(self.format, slot(j, "format"@, 3))
        &&& is_optional(self.size, slot(j, "size"@, 4))
        &&& is_optional(self.type_group, slot(j, "typeGroup"@, 5))
    }

    fn decode(j: &Json) -> (r: Option<MessageFile>) {
        if !is_shaped(j, 6) {
            return None;
        }
        let id: UploadId = match required(j, "_id", 0) {
            Some(v) => v,
            None => {
                return None;
            },
        };
        let name: Option<String> = match optional(j, "name", 1) {
            Some(v) => v,
            None => {
                return None;
            },
        };
        let content_type: Option<String> = match optional(j, "type", 2) {
            Some(v) => v,
            None => {
                return None;
            },
        };
        let format: Option<String> = match optional(j, "format", 3) {
            Some(v) => v,
            None => {
                return None;
            },
        };
        let size: Option<i64> = match optional(j, "size", 4) {
            Some(v) => v,
            None => {
                return None;
            },
        };
        let type_group: Option<String> = match optional(j, "typeGroup", 5) {
            Some(v) => v,
            None => {
                return None;
            },
        };
        Some(
            MessageFile {
                id,
                name,
                content_type,
                format,
                size,
                type_group,
            },
        )
    }
}

impl Encode for MessageFile {
    open spec fn doc(&self) -> JsonView {
        let m = Map::empty();
        let m = with(m, "_id"@, self.id.doc());
        let m = with_some(m, "name"@, self.name);
        let m = with_some(m, "type"@, self.content_type);
        let m = with_some(m, "format"@, self.format);
        let m = with_some(m, "size"@, self.size);
        let m = with_some(m, "typeGroup"@, self.type_group);
        JsonView::Object(m)
    }

    fn encode(&self) -> (r: Json) {
        let mut map = JsonMap::new();
        put(&mut map, "_id", &self.id);
        put_some(&mut map, "name", &self.name);
        put_some(&mut map, "type", &self.content_type);
        put_some(&mut map, "format", &self.format);
        put_some(&mut map, "size", &self.size);
        put_some(&mut map, "typeGroup", &self.type_group);
        Json::Object(map)
    }
}

impl Duplicate for MessageFile {
    open spec fn alike(&self, other: &MessageFile) -> bool {
        &&& self.id.alike(&other.id)
        &&& same_some(self.name, other.name)
        &&& same_some(self.content_type, other.content_type)
        &&& same_some(self.format, other.format)
        &&& same_some(self.size, other.size)
        &&& same_some(self.type_group, other.type_group)
    }

    fn dup(&self) -> (r: MessageFile) {
        let copy = MessageFile {
            id: self.id.dup(),
            name: dup_some(&self.name),
            content_type: dup_some(&self.content_type),
            format: dup_some(&self.format),
            size: dup_some(&self.size),
            type_group: dup_some(&self.type_group),
        };
        proof {
            lemma_message_file_same(copy, *self);
        }
        copy
    }
}

/// The `announcementDetails` sub-document of a `Room`.
#[derive(Clone, Debug, PartialEq)]
pub struct AnnouncementDetails {
    /// CSS style applied to the announcement banner.
    pub style: Option<String>,
}

impl Default for AnnouncementDetails {
    fn default() -> (r: AnnouncementDetails)
        ensures
            r == (AnnouncementDetails { style: None }),
    {
        AnnouncementDetails { style: None }
    }
}

impl Decode for AnnouncementDetails {
    open spec fn accepts(j: JsonView) -> bool {
        &&& shaped(j, 1)
        &&& has_optional::<String>(slot(j, "style"@, 0))
    }

    open spec fn read_from(&self, j: JsonView) -> bool {
        &&& is_optional(self.style, slot(j, "style"@, 0))
    }

    fn decode(j: &Json) -> (r: Option<AnnouncementDetails>) {
        if !is_shaped(j, 1) {
            return None;
        }
        let style: Option<String> = match optional(j, "style", 0) {
            Some(v) => v,
            None => {
                return None;
            },
        };
        Some(
            AnnouncementDetails {
                style,
            },
        )
    }
}

impl Encode for AnnouncementDetails {
    open spec fn doc(&self) -> JsonView {
        let m = Map::empty();
        let m = with_some(m, "style"@, self.style);
        JsonView::Object(m)
    }

    fn encode(&self) -> (r: Json) {
        let mut map = JsonMap::new();
        put_some(&mut map, "style", &self.style);
        Json::Object(map)
    }
}

impl Duplicate for AnnouncementDetails {
    open spec fn alike(&self, other: &AnnouncementDetails) -> bool {
        &&& same_some(self.style, other.style)
    }

    fn dup(&self) -> (r: AnnouncementDetails) {
        let copy = AnnouncementDetails {
            style: dup_some(&self.style),
        };
        proof {
            lemma_announcement_details_same(copy, *self);
        }
        copy
    }
}

/// A superseded end-to-end encryption key for a room, kept so old history stays readable.
#[derive(Clone, Debug, PartialEq)]
pub struct OldRoomKey {
    /// Id of the key.
    pub e2e_key_id: Option<String>,
    /// When the key was rotated out.
    pub ts: Option<Timestamp>,
    /// The key itself, encrypted with the user's key pair.
    pub e2e_key: Option<String>,
}

impl Decode for OldRoomKey {
    open spec fn accepts(j: JsonView) -> bool {
        &&& shaped(j, 3)
        &&& has_optional::<String>(slot(j, "e2eKeyId"@, 0))
        &&& has_date(slot(j, "ts"@, 1))
        &&& has_optional::<String>(slot(j, "E2EKey"@, 2))
    }

    open spec fn read_from(&self, j: JsonView) -> bool {
        &&& is_optional(self.e2e_key_id, slot(j, "e2eKeyId"@, 0))
        &&& is_date(self.ts, slot(j, "ts"@, 1))
        &&& is_optional(self.e2e_key, slot(j, "E2EKey"@, 2))
    }

    fn decode(j: &Json) -> (r: Option<OldRoomKey>) {
        if !is_shaped(j, 3) {
            return None;
        }
        let e2e_key_id: Option<String> = match optional(j, "e2eKeyId", 0) {
            Some(v) => v,
            None => {
                return None;
            },
        };
        let ts: Option<Timestamp> = match optional_date(j, "ts", 1) {
            Some(v) => v,
            None => {
                return None;
            },
        };
        let e2e_key: Option<String> = match optional(j, "E2EKey", 2) {
            Some(v) => v,
            None => {
                return None;
            },
        };
        Some(
            OldRoomKey {
                e2e_key_id,
                ts,
                e2e_key,
            },
        )
    }
}

impl Encode for OldRoomKey {
    open spec fn doc(&self) -> JsonView {
        let m = Map::empty();
        let m = with_some(m, "e2eKeyId"@, self.e2e_key_id);
        let m = with_some(m, "ts"@, self.ts);
        let m = with_some(m, "E2EKey"@, self.e2e_key);
        JsonView::Object(m)
    }

    fn encode(&self) -> (r: Json) {
        let mut map = JsonMap::new();
        put_some(&mut map, "e2eKeyId", &self.e2e_key_id);
        put_some(&mut map, "ts", &self.ts);
        put_some(&mut map, "E2EKey", &self.e2e_key);
        Json::Object(map)
    }
}

impl Duplicate for OldRoomKey {
    open spec fn alike(&self, other: &OldRoomKey) -> bool {
        &&& same_some(self.e2e_key_id, other.e2e_key_id)
        &&& same_some(self.ts, other.ts)
        &&& same_some(self.e2e_key, other.e2e_key)
    }

    fn dup(&self) -> (r: OldRoomKey) {
        let copy = OldRoomKey {
            e2e_key_id: dup_some(&self.e2e_key_id),
            ts: dup_some(&self.ts),
            e2e_key: dup_some(&self.e2e_key),
        };
        proof {
            lemma_old_room_key_same(copy, *self);
        }
        copy
    }
}

/// An email address on a `User`.
#[derive(Clone, Debug, PartialEq)]
pub struct UserEmail {
    /// The address.
    pub address: String,
    /// Whether the address has been verified.
    pub verified: Option<bool>,
}

impl Decode for UserEmail {
    open spec fn accepts(j: JsonView) -> bool {
        &&& shaped(j, 2)
        &&& has_required::<String>(slot(j, "address"@, 0))
        &&& has_optional::<bool>(slot(j, "verified"@, 1))
    }

    open spec fn read_from(&self, j: JsonView) -> bool {
        &&& is_required(self.address, slot(j, "address"@, 0))
        &&& is_optional(self.verified, slot(j, "verified"@, 1))
    }

    fn decode(j: &Json) -> (r: Option<UserEmail>) {
        if !is_shaped(j, 2) {
            return None;
        }
        let address: String = match required(j, "address", 0) {
            Some(v) => v,
            None => {
                return None;
            },
        };
        let verified: Option<bool> = match optional(j, "verified", 1) {
            Some(v) => v,
            None => {
                return None;
            },
        };
        Some(
            UserEmail {
                address,
                verified,
            },
        )
    }
}

impl Encode for UserEmail {
    open spec fn doc(&self) -> JsonView {
        let m = Map::empty();
        let m = with(m, "address"@, self.address.doc());
        let m = with_some(m, "verified"@, self.verified);
        JsonView::Object(m)
    }

    fn encode(&self) -> (r: Json) {
        let mut map = JsonMap::new();
        put(&mut map, "address", &self.address);
        put_some(&mut map, "verified", &self.verified);
        Json::Object(map)
    }
}

impl Duplicate for UserEmail {
    open spec fn alike(&self, other: &UserEmail) -> bool {
        &&& self.address.alike(&other.address)
        &&& same_some(self.verified, other.verified)
    }

    fn dup(&self) -> (r: UserEmail) {
        let copy = UserEmail {
            address: self.address.dup(),
            verified: dup_some(&self.verified),
        };
        proof {
            lemma_user_email_same(copy, *self);
        }
        copy
    }
}

/// The characters of an optional string.
pub open spec fn opt_chars(s: Option<String>) -> Option<Seq<char>> {
    match s {
        Some(s) => Some(s@),
        None => None,
    }
}

/// The characters of an optional string slice.
pub open spec fn opt_str(s: Option<&str>) -> Option<Seq<char>> {
    match s {
        Some(s) => Some(s@),
        None => None,
    }
}

/// The first of two options that is there.
pub open spec fn first_of<T>(a: Option<T>, b: Option<T>) -> Option<T> {
    if a is Some {
        a
    } else {
        b
    }
}

/// The text of the first of two optional strings that is there.
pub fn first_text<'a>(a: &'a Option<String>, b: &'a Option<String>) -> (r: Option<&'a str>)
    ensures
        opt_str(r) == first_of(opt_chars(*a), opt_chars(*b)),
{
    match a {
        Some(s) => Some(s.as_str()),
        None => match b {
            Some(s) => Some(s.as_str()),
            None => None,
        },
    }
}

impl UserRef {
    /// The name to show: the real name or the username first, whichever is preferred, and the
    /// other where that is missing.
    pub fn display_name(&self, use_real_name: bool) -> (r: Option<&str>)
        ensures
            opt_str(r) == (if use_real_name {
                first_of(opt_chars(self.name), opt_chars(self.username))
            } else {
                first_of(opt_chars(self.username), opt_chars(self.name))
            }),
    {
        if use_real_name {
            first_text(&self.name, &self.username)
        } else {
            first_text(&self.username, &self.name)
        }
    }
}

/// Whether a list of strings holds a text.
pub open spec fn list_has(list: Seq<String>, text: Seq<char>) -> bool {
    exists|i: int| 0 <= i < list.len() && (#[trigger] list[i])@ == text
}

impl Reaction {
    /// How many users reacted.
    pub fn count(&self) -> (r: usize)
        ensures
            r == self.usernames@.len(),
    {
        self.usernames.len()
    }

    /// Whether a user reacted.
    pub fn contains(&self, username: &str) -> (r: bool)
        ensures
            r == list_has(self.usernames@, username@),
    {
        let mut i: usize = 0;
        while i < self.usernames.len()
            invariant
                i <= self.usernames@.len(),
                forall|k: int| 0 <= k < i ==> (#[trigger] self.usernames@[k])@ != username@,
            decreases self.usernames@.len() - i,
        {
            if str_eq(self.usernames[i].as_str(), username) {
                assert(self.usernames@[i as int]@ == username@);
                return true;
            }
            i += 1;
        }
        false
    }
}

/// The first of two that is there is taken.
pub proof fn law_the_first_that_is_there_is_taken<T>(a: T, b: Option<T>)
    ensures
        first_of(Some(a), b) == Some(a),
        first_of(None, b) == b,
{
}

} // verus!

//! The log line of a cache.
use crate::cache::config::{Config, TombstonePolicy};
use crate::cache::store::{Cache, CacheStats};
use crate::text::{debug_quoted, decimal_text, decimal_u64, quote_debug};
use vstd::prelude::*;
use vstd::string::*;

verus! {

/// What the log line shows of a configuration.
pub open spec fn config_text(c: Config) -> Seq<char> {
    "Config { resource_types: "@ + c.kinds().shown() + ", message_cache_size: "@ + decimal_text(
        c.ring_size() as int,
    ) + ", user_cache_size: "@ + (match c.user_limit() {
        Some(limit) => "Some("@ + decimal_text(limit.value() as int) + ")"@,
        None => "None"@,
    }) + ", tombstone_policy: "@ + (match c.tombstones() {
        TombstonePolicy::Replace => "Replace"@,
        TombstonePolicy::Evict => "Evict"@,
    }) + " }"@
}

/// What the log line shows of the counts.
pub open spec fn stats_text(
    rooms: int,
    users: int,
    subscriptions: int,
    messages: int,
    rings: int,
) -> Seq<char> {
    "CacheStats { rooms: "@ + decimal_text(rooms) + ", users: "@ + decimal_text(users)
        + ", subscriptions: "@ + decimal_text(subscriptions) + ", messages: "@ + decimal_text(
        messages,
    ) + ", rooms_with_messages: "@ + decimal_text(rings) + " }"@
}

impl Config {
    /// The configuration for a log line.
    pub fn debug_text(&self) -> (r: String)
        ensures
            r@ == config_text(*self),
    {
        let mut out = "Config { resource_types: ".to_owned();
        out.append(self.resource_types().debug_text().as_str());
        out.append(", message_cache_size: ");
        out.append(decimal_u64(self.message_cache_size() as u64).as_str());
        out.append(", user_cache_size: ");
        let ghost before = out@;
        match self.user_cache_size() {
            Some(limit) => {
                out.append("Some(");
                out.append(decimal_u64(limit.get() as u64).as_str());
                out.append(")");
                proof {
                    assert(out@ =~= before + ("Some("@ + decimal_text(limit.value() as int)
                        + ")"@));
                }
            },
            None => {
                out.append("None");
            },
        }
        out.append(", tombstone_policy: ");
        match self.tombstone_policy() {
            TombstonePolicy::Replace => out.append("Replace"),
            TombstonePolicy::Evict => out.append("Evict"),
        }
        out.append(" }");
        out
    }
}

impl CacheStats {
    /// The counts for a log line.
    pub fn debug_text(&self) -> (r: String)
        ensures
            r@ == stats_text(
                self.rooms as int,
                self.users as int,
                self.subscriptions as int,
                self.messages as int,
                self.rooms_with_messages as int,
            ),
    {
        let mut out = "CacheStats { rooms: ".to_owned();
        out.append(decimal_u64(self.rooms as u64).as_str());
        out.append(", users: ");
        out.append(decimal_u64(self.users as u64).as_str());
        out.append(", subscriptions: ");
        out.append(decimal_u64(self.subscriptions as u64).as_str());
        out.append(", messages: ");
        out.append(decimal_u64(self.messages as u64).as_str());
        out.append(", rooms_with_messages: ");
        out.append(decimal_u64(self.rooms_with_messages as u64).as_str());
        out.append(" }");
        out
    }
}

impl Cache {
    /// The cache for a log line: the configuration and the counts, never the contents.
    pub fn debug_text(&self) -> (r: String)
        requires
            self.wf(),
        ensures
            r@ == "Cache { config: "@ + config_text(self.settings()) + ", stats: "@ + stats_text(
                self@.rooms.dom().len() as int,
                self@.users.dom().len() as int,
                self@.subscriptions.dom().len() as int,
                self@.messages.dom().len() as int,
                self@.rings.dom().len() as int,
            ) + ", current_user: "@ + (match self@.current_user {
                Some(user) => "Some("@ + debug_quoted(user.id@) + ")"@,
                None => "None"@,
            }) + " }"@,
    {
        let mut out = "Cache { config: ".to_owned();
        out.append(self.config().debug_text().as_str());
        out.append(", stats: ");
        out.append(self.stats().debug_text().as_str());
        out.append(", current_user: ");
        let ghost before = out@;
        match self.current_user_id() {
            Some(id) => {
                out.append("Some(");
                out.append(quote_debug(id.as_str()).as_str());
                out.append(")");
                proof {
                    assert(out@ =~= before + ("Some("@ + debug_quoted(id@) + ")"@));
                }
            },
            None => {
                out.append("None");
            },
        }
        out.append(" }");
        out
    }
}

/// How the numbers of a cache are shown.
pub proof fn law_how_the_numbers_are_shown(
    rooms: int,
    users: int,
    subscriptions: int,
    messages: int,
    rings: int,
)
    ensures
        stats_text(rooms, users, subscriptions, messages, rings) == "CacheStats { rooms: "@
            + decimal_text(rooms) + ", users: "@ + decimal_text(users) + ", subscriptions: "@
            + decimal_text(subscriptions) + ", messages: "@ + decimal_text(messages)
            + ", rooms_with_messages: "@ + decimal_text(rings) + " }"@,
{
}

/// How a configuration is shown.
pub proof fn law_how_a_configuration_is_shown(c: Config)
    ensures
        c.user_limit() is None && c.tombstones() == TombstonePolicy::Evict ==> config_text(c)
            == "Config { resource_types: "@ + c.kinds().shown() + ", message_cache_size: "@
            + decimal_text(c.ring_size() as int) + ", user_cache_size: "@ + "None"@
            + ", tombstone_policy: "@ + "Evict"@ + " }"@,
        c.user_limit() is Some && c.tombstones() == TombstonePolicy::Replace ==> config_text(c)
            == "Config { resource_types: "@ + c.kinds().shown() + ", message_cache_size: "@
            + decimal_text(c.ring_size() as int) + ", user_cache_size: "@ + ("Some("@
            + decimal_text(c.user_limit()->0.value() as int) + ")"@) + ", tombstone_policy: "@
            + "Replace"@ + " }"@,
{
}

} // verus!

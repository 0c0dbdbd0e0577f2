//! Cache configuration.
use crate::cache::resource::{ResourceType, ALL_BITS};
use vstd::prelude::*;

verus! {

/// How many messages are kept per room, unless set otherwise.
pub const DEFAULT_MESSAGE_CACHE_SIZE: usize = 100;

/// How many users are kept, unless set otherwise.
pub const DEFAULT_USER_CACHE_SIZE: usize = 10_000;

/// A number that is not zero.
#[derive(Debug, Clone, Copy, PartialEq, Eq, Structural)]
pub struct NonZeroSize {
    size: usize,
}

impl NonZeroSize {
    /// The number.
    pub closed spec fn value(self) -> usize {
        self.size
    }

    #[verifier::type_invariant]
    closed spec fn nonzero(self) -> bool {
        self.size > 0
    }

    /// The number; none where it is zero.
    pub fn new(size: usize) -> (r: Option<NonZeroSize>)
        ensures
            r is Some <==> size > 0,
            r matches Some(n) ==> n.value() == size,
    {
        if size > 0 {
            Some(NonZeroSize { size })
        } else {
            None
        }
    }

    /// The number.
    pub fn get(self) -> (r: usize)
        ensures
            r == self.value(),
            r > 0,
    {
        proof {
            use_type_invariant(self);
        }
        self.size
    }
}

/// What to do with the document that a deletion leaves in place of a message.
///
/// Such a tombstone arrives as an ordinary edit, not as a deletion.
#[derive(Debug, Clone, Copy, PartialEq, Eq, Hash, Structural)]
pub enum TombstonePolicy {
    /// Keep it in place of the message. It replaces and never merges, because merging would
    /// bring back the content that the deletion removed.
    Replace,
    /// Drop the message from the cache and from its room's ring.
    Evict,
}

impl Default for TombstonePolicy {
    fn default() -> (r: TombstonePolicy)
        ensures
            r == TombstonePolicy::Replace,
    {
        TombstonePolicy::Replace
    }
}

/// How a cache is configured.
#[derive(Debug, Clone, Copy, PartialEq, Eq, Structural)]
pub struct Config {
    resource_types: ResourceType,
    message_cache_size: usize,
    user_cache_size: Option<NonZeroSize>,
    tombstone_policy: TombstonePolicy,
}

impl Config {
    /// The kinds that are stored.
    pub closed spec fn kinds(self) -> ResourceType {
        self.resource_types
    }

    /// How many messages are kept per room.
    pub closed spec fn ring_size(self) -> usize {
        self.message_cache_size
    }

    /// How many users are kept, or none for all of them.
    pub closed spec fn user_limit(self) -> Option<NonZeroSize> {
        self.user_cache_size
    }

    /// What happens to a tombstone.
    pub closed spec fn tombstones(self) -> TombstonePolicy {
        self.tombstone_policy
    }

    /// Whether every kind of a set is stored.
    pub open spec fn stores(self, bit: u32) -> bool {
        self.kinds().mask() & bit == bit
    }

    /// Which kinds are stored.
    pub fn resource_types(&self) -> (r: ResourceType)
        ensures
            r == self.kinds(),
    {
        self.resource_types
    }

    /// How many messages are kept per room. Zero disables message caching.
    pub fn message_cache_size(&self) -> (r: usize)
        ensures
            r == self.ring_size(),
    {
        self.message_cache_size
    }

    /// How many users are kept, or none for "never evict".
    ///
    /// Eviction is first in, first out by first insertion: seeing a user again refreshes the
    /// document, not its place in the queue. The current user is never evicted.
    pub fn user_cache_size(&self) -> (r: Option<NonZeroSize>)
        ensures
            r == self.user_limit(),
    {
        self.user_cache_size
    }

    /// What happens to a tombstone.
    pub fn tombstone_policy(&self) -> (r: TombstonePolicy)
        ensures
            r == self.tombstones(),
    {
        self.tombstone_policy
    }
}

impl Default for Config {
    fn default() -> (r: Config)
        ensures
            r.kinds().mask() == ALL_BITS,
            r.ring_size() == 100,
            r.user_limit() is Some && r.user_limit()->0.value() == 10_000,
            r.tombstones() == TombstonePolicy::Replace,
    {
        Config {
            resource_types: ResourceType::all(),
            message_cache_size: DEFAULT_MESSAGE_CACHE_SIZE,
            user_cache_size: NonZeroSize::new(DEFAULT_USER_CACHE_SIZE),
            tombstone_policy: TombstonePolicy::Replace,
        }
    }
}

/// Builds a configured cache.
#[derive(Debug, Clone, Copy)]
pub struct CacheBuilder {
    config: Config,
}

impl CacheBuilder {
    /// The configuration so far.
    pub closed spec fn settings(self) -> Config {
        self.config
    }

    /// A builder with the default configuration.
    pub fn new() -> (r: CacheBuilder)
        ensures
            r.settings().kinds().mask() == ALL_BITS,
            r.settings().ring_size() == 100,
            r.settings().user_limit() is Some && r.settings().user_limit()->0.value() == 10_000,
            r.settings().tombstones() == TombstonePolicy::Replace,
    {
        CacheBuilder { config: Config::default() }
    }

    /// Sets which kinds are stored.
    pub fn resource_types(self, resource_types: ResourceType) -> (r: CacheBuilder)
        ensures
            r.settings().kinds() == resource_types,
            r.settings().ring_size() == self.settings().ring_size(),
            r.settings().user_limit() == self.settings().user_limit(),
            r.settings().tombstones() == self.settings().tombstones(),
    {
        CacheBuilder { config: Config { resource_types, ..self.config } }
    }

    /// Sets how many messages are kept per room. Zero disables message caching.
    pub fn message_cache_size(self, size: usize) -> (r: CacheBuilder)
        ensures
            r.settings().kinds() == self.settings().kinds(),
            r.settings().ring_size() == size,
            r.settings().user_limit() == self.settings().user_limit(),
            r.settings().tombstones() == self.settings().tombstones(),
    {
        CacheBuilder { config: Config { message_cache_size: size, ..self.config } }
    }

    /// Sets how many users are kept. None never evicts.
    pub fn user_cache_size(self, size: Option<NonZeroSize>) -> (r: CacheBuilder)
        ensures
            r.settings().kinds() == self.settings().kinds(),
            r.settings().ring_size() == self.settings().ring_size(),
            r.settings().user_limit() == size,
            r.settings().tombstones() == self.settings().tombstones(),
    {
        CacheBuilder { config: Config { user_cache_size: size, ..self.config } }
    }

    /// Sets what happens to a tombstone.
    pub fn tombstone_policy(self, policy: TombstonePolicy) -> (r: CacheBuilder)
        ensures
            r.settings().kinds() == self.settings().kinds(),
            r.settings().ring_size() == self.settings().ring_size(),
            r.settings().user_limit() == self.settings().user_limit(),
            r.settings().tombstones() == policy,
    {
        CacheBuilder { config: Config { tombstone_policy: policy, ..self.config } }
    }

    /// The configuration.
    pub fn config(self) -> (r: Config)
        ensures
            r == self.settings(),
    {
        self.config
    }
}

impl Default for CacheBuilder {
    fn default() -> (r: CacheBuilder)
        ensures
            r.settings().kinds().mask() == ALL_BITS,
            r.settings().ring_size() == 100,
            r.settings().user_limit() is Some && r.settings().user_limit()->0.value() == 10_000,
            r.settings().tombstones() == TombstonePolicy::Replace,
    {
        CacheBuilder::new()
    }
}

} // verus!

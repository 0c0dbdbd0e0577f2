//! What the cache can be fed.
use crate::cache::config::Config;
use crate::cache::store::{
    message_step, room_step, subscription_step, user_update, Cache, CacheModel, StoreMode,
};
use crate::model::entity::{Message, Room, Subscription, User};
use crate::model::wire::{Duplicate, Encode};
use vstd::prelude::*;

verus! {

/// A payload that the cache knows how to apply.
///
/// Whether one merges or replaces is decided by its kind, because the streams differ: rooms and
/// messages arrive whole and replace, subscriptions and users arrive partial and merge.
pub trait UpdateCache {
    /// Whether one state follows another when this is applied.
    spec fn applies(&self, m: CacheModel, config: Config, next: CacheModel) -> bool;

    /// Applies this to a cache.
    fn update(&self, cache: &mut Cache)
        requires
            old(cache).wf(),
        ensures
            final(cache).wf(),
            final(cache).settings() == old(cache).settings(),
            self.applies(old(cache)@, old(cache).settings(), final(cache)@),
    ;
}

impl UpdateCache for Room {
    /// A copy of the room replaces the cached one.
    open spec fn applies(&self, m: CacheModel, config: Config, next: CacheModel) -> bool {
        exists|copy: Room| #[trigger]
            copy.alike(self) && copy.doc() == self.doc() && room_step(
                m,
                config,
                copy,
                StoreMode::Replace,
                next,
            )
    }

    fn update(&self, cache: &mut Cache) {
        let copy = self.dup();
        let _ = cache.store_room(copy, StoreMode::Replace);
        proof {
            assert(copy.alike(self));
        }
    }
}

impl UpdateCache for User {
    /// A copy of the user is laid over the cached one, and over the logged-in user where it is
    /// the same.
    open spec fn applies(&self, m: CacheModel, config: Config, next: CacheModel) -> bool {
        exists|copy: User| #[trigger]
            copy.alike(self) && copy.doc() == self.doc() && user_update(
                m,
                config,
                copy,
                StoreMode::Merge,
                next,
            )
    }

    fn update(&self, cache: &mut Cache) {
        let copy = self.dup();
        let ghost m = cache@;
        cache.refresh_current_user(&copy, StoreMode::Merge);
        let ghost middle = cache@;
        proof {
            assert(crate::cache::store::refresh_step(
                m,
                cache.settings(),
                copy,
                StoreMode::Merge,
                middle,
            ));
            assert(copy.alike(self));
        }
        let _ = cache.store_user(copy, StoreMode::Merge);
    }
}

impl UpdateCache for Subscription {
    /// A copy of the subscription is laid over the cached one.
    open spec fn applies(&self, m: CacheModel, config: Config, next: CacheModel) -> bool {
        exists|copy: Subscription| #[trigger]
            copy.alike(self) && copy.doc() == self.doc() && subscription_step(
                m,
                config,
                copy,
                StoreMode::Merge,
                next,
            )
    }

    fn update(&self, cache: &mut Cache) {
        let copy = self.dup();
        let _ = cache.store_subscription(copy, StoreMode::Merge);
        proof {
            assert(copy.alike(self));
        }
    }
}

impl UpdateCache for Message {
    /// A copy of the message replaces the cached one. The author is not cached as a user.
    open spec fn applies(&self, m: CacheModel, config: Config, next: CacheModel) -> bool {
        exists|copy: Message| #[trigger]
            copy.alike(self) && copy.doc() == self.doc() && message_step(
                m,
                config,
                copy,
                StoreMode::Replace,
                next,
            )
    }

    fn update(&self, cache: &mut Cache) {
        let copy = self.dup();
        let _ = cache.store_message(copy, StoreMode::Replace);
        proof {
            assert(copy.alike(self));
        }
    }
}

/// Whether one state follows another when the first `n` items are applied in order.
pub open spec fn all_apply<T: UpdateCache>(
    items: Seq<T>,
    n: int,
    m: CacheModel,
    config: Config,
    next: CacheModel,
) -> bool
    decreases n,
{
    if n <= 0 {
        next == m
    } else {
        exists|middle: CacheModel|
            all_apply(items, n - 1, m, config, middle) && #[trigger] items[n - 1].applies(
                middle,
                config,
                next,
            )
    }
}

pub(crate) proof fn lemma_one_more<T: UpdateCache>(
    items: Seq<T>,
    n: int,
    m: CacheModel,
    config: Config,
    middle: CacheModel,
    next: CacheModel,
)
    requires
        n > 0,
        all_apply(items, n - 1, m, config, middle),
        items[n - 1].applies(middle, config, next),
    ensures
        all_apply(items, n, m, config, next),
{
    assert(all_apply(items, n - 1, m, config, middle) && items[n - 1].applies(
        middle,
        config,
        next,
    ));
}

impl<T: UpdateCache> UpdateCache for [T] {
    /// Each item is applied, in order.
    open spec fn applies(&self, m: CacheModel, config: Config, next: CacheModel) -> bool {
        all_apply(self@, self@.len() as int, m, config, next)
    }

    fn update(&self, cache: &mut Cache) {
        let ghost m = cache@;
        let ghost config = cache.settings();
        let mut i: usize = 0;
        while i < self.len()
            invariant
                i <= self@.len(),
                cache.wf(),
                config == old(cache).settings(),
                cache.settings() == config,
                m == old(cache)@,
                all_apply(self@, i as int, m, config, cache@),
            decreases self@.len() - i,
        {
            let ghost middle = cache@;
            self[i].update(cache);
            proof {
                lemma_one_more(self@, i + 1, m, config, middle, cache@);
            }
            i += 1;
        }
    }
}

impl<T: UpdateCache> UpdateCache for Vec<T> {
    /// Each item is applied, in order.
    open spec fn applies(&self, m: CacheModel, config: Config, next: CacheModel) -> bool {
        all_apply(self@, self@.len() as int, m, config, next)
    }

    fn update(&self, cache: &mut Cache) {
        self.as_slice().update(cache);
    }
}

impl<T: UpdateCache> UpdateCache for Option<T> {
    /// The item is applied, if there is one.
    open spec fn applies(&self, m: CacheModel, config: Config, next: CacheModel) -> bool {
        match *self {
            Some(value) => value.applies(m, config, next),
            None => next == m,
        }
    }

    fn update(&self, cache: &mut Cache) {
        match self {
            Some(value) => value.update(cache),
            None => {},
        }
    }
}

} // verus!

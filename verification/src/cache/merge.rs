//! Laying a partial document over a cached one.
//!
//! The server never promises to send a whole document: each publication has its own
//! projection, and a field that was projected away reads as unset. So the cache must not take
//! an absent field for a cleared one.
//!
//! The rule: **a field absent from the incoming document never overwrites a cached value.**
//! Both documents are written as objects, and the incoming members are laid over the cached
//! ones. This is shallow on purpose: the server resends a whole subdocument when any part of
//! it changes. What it cannot see is a field being cleared.
use crate::model::json::{Json, JsonView};
use crate::model::faithful::RoundTrip;
use crate::model::wire::{slot, Decode, Duplicate, Encode};
use vstd::prelude::*;

verus! {

/// One document laid over another; none where either is not an object.
pub open spec fn overlaid(cached: JsonView, incoming: JsonView) -> Option<JsonView> {
    match (cached, incoming) {
        (JsonView::Object(base), JsonView::Object(top)) => Some(
            JsonView::Object(base.union_prefer_right(top)),
        ),
        _ => None,
    }
}

/// Whether this is a cached document with an incoming one laid over it. Where the result could
/// not be read, the incoming document stands: losing a merge is better than losing an update.
pub open spec fn is_merged<T: Encode + Decode + Duplicate>(cached: T, incoming: T, r: T) -> bool {
    match overlaid(cached.doc(), incoming.doc()) {
        Some(both) => if T::accepts(both) {
            r.read_from(both)
        } else {
            r.alike(&incoming)
        },
        None => r.alike(&incoming),
    }
}

/// The cached document with every member that the incoming one carries laid over it.
pub fn merge_documents<T: Encode + Decode + Duplicate>(cached: &T, incoming: &T) -> (r: T)
    ensures
        is_merged(*cached, *incoming, r),
{
    match (cached.encode(), incoming.encode()) {
        (Json::Object(mut base), Json::Object(top)) => {
            base.overlay(&top);
            match T::decode(&Json::Object(base)) {
                Some(merged) => merged,
                None => incoming.dup(),
            }
        },
        _ => incoming.dup(),
    }
}

/// A member that the incoming document does not carry keeps its cached value; one that it
/// carries has the incoming value, whatever the cached one was.
pub proof fn law_absent_members_keep_their_value(
    base: Map<Seq<char>, JsonView>,
    top: Map<Seq<char>, JsonView>,
    key: Seq<char>,
)
    ensures
        overlaid(JsonView::Object(base), JsonView::Object(top)) == Some(
            JsonView::Object(base.union_prefer_right(top)),
        ),
        !top.dom().contains(key) && base.dom().contains(key) ==> base.union_prefer_right(
            top,
        ).dom().contains(key) && base.union_prefer_right(top)[key] == base[key],
        top.dom().contains(key) ==> base.union_prefer_right(top).dom().contains(key)
            && base.union_prefer_right(top)[key] == top[key],
        !top.dom().contains(key) && !base.dom().contains(key) ==> !base.union_prefer_right(
            top,
        ).dom().contains(key),
{
}

/// Merging a document over itself changes none of its members.
pub proof fn law_merge_is_idempotent(doc: Map<Seq<char>, JsonView>)
    ensures
        doc.union_prefer_right(doc) == doc,
{
    assert(doc.union_prefer_right(doc) =~= doc);
}

/// Merging a document over itself gives it back: the merge loses nothing that the document
/// carries.
pub proof fn law_merging_with_itself_keeps_the_document<T: RoundTrip + Duplicate>(x: T, r: T)
    requires
        x.writable(),
        x.doc() is Object,
        is_merged(x, x, r),
    ensures
        r.doc() == x.doc(),
{
    law_merge_is_idempotent(x.doc()->Object_0);
    x.law_round_trip(&r);
}

/// The incoming value, or the cached one where none came.
pub open spec fn newer<T>(incoming: Option<T>, cached: Option<T>) -> Option<T> {
    match incoming {
        Some(t) => Some(t),
        None => cached,
    }
}

/// A member of one document laid over another is that of the upper one, or of the lower one
/// where the upper one has none.
pub proof fn lemma_overlaid_slot(
    cached: JsonView,
    incoming: JsonView,
    both: JsonView,
    key: Seq<char>,
    index: int,
)
    requires
        cached is Object,
        incoming is Object,
        overlaid(cached, incoming) == Some(both),
    ensures
        both is Object,
        slot(both, key, index) == newer(slot(incoming, key, index), slot(cached, key, index)),
{
}

} // verus!

//! Model of the external key-value store.
//!
//! The service keeps every mapping `short_id -> destination_url` in an
//! external networked store and holds no copy of its own. The store is
//! reached over a connection that can fail, so the adapter's operations
//! return a `StoreError` on connection-level trouble. Here the store's
//! contents are modelled as a map from character sequences to character
//! sequences: `store_put` is the unconditional, last-write-wins write and
//! `store_get` the read that distinguishes "absent" from a value.

use vstd::prelude::*;

verus! {

/// A connection-level failure of the external key-value store: the
/// network, authentication or protocol trouble behind a failed `put` or
/// `get`. The cause is dropped at this boundary; handlers translate the
/// failure to an HTTP status and never leak it to clients.
#[derive(Clone, Copy, Debug, PartialEq, Eq, Structural)]
pub struct StoreError;

/// The store after an unconditional write of `dest` under `id`: any
/// earlier mapping for `id` is overwritten, every other key is untouched.
pub open spec fn store_put(
    links: Map<Seq<char>, Seq<char>>,
    id: Seq<char>,
    dest: Seq<char>,
) -> Map<Seq<char>, Seq<char>> {
    links.insert(id, dest)
}

/// What a read of `id` finds: the stored destination if the key exists,
/// and an explicit "absent" otherwise. Absence is not an error.
pub open spec fn store_get(links: Map<Seq<char>, Seq<char>>, id: Seq<char>) -> Option<
    Seq<char>,
> {
    if links.dom().contains(id) {
        Some(links[id])
    } else {
        None
    }
}

} // verus!

//! A model of what the storage engine holds, to state what its replies mean.
//!
//! The engine itself is outside this crate. What is written here is the
//! reading of its replies that the laws of this crate are stated under: a
//! database is a map from keys to values, a write that reports no failure
//! stores its value under its key, and a lookup that reports no failure
//! answers with what the map holds.

use vstd::prelude::*;
use crate::handle::{GetReply, PutReply};

verus! {

/// What the database holds after a write of `value` under `key` that the
/// engine answered with `reply`: a failed write leaves it as it was.
pub open spec fn store_after_put(
    store: Map<Seq<u8>, Seq<u8>>,
    key: Seq<u8>,
    value: Seq<u8>,
    reply: PutReply,
) -> Map<Seq<u8>, Seq<u8>> {
    if reply.err is None {
        store.insert(key, value)
    } else {
        store
    }
}

/// Whether `reply` is a lookup of `key` that reports no failure and answers
/// with what `store` holds: the value under `key`, or nothing if there is
/// none.
pub open spec fn answers_lookup(store: Map<Seq<u8>, Seq<u8>>, key: Seq<u8>, reply: GetReply) -> bool {
    reply.err is None && match reply.value {
        Some(bytes) => store.contains_key(key) && store[key] == bytes@,
        None => !store.contains_key(key),
    }
}

} // verus!

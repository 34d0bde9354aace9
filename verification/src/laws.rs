//! What holds of the operations taken together.
//!
//! The laws on reading and writing are stated for an engine whose replies
//! can be read as in [`crate::engine`]; the laws on paths and cursors hold
//! as they stand.

use vstd::prelude::*;
use crate::engine::{answers_lookup, store_after_put};
use crate::error::LevelDBError;
use crate::handle::{GetCall, GetReply, PutCall, PutReply};
use crate::iterator::{move_from, state_after, state_after_run, yielded, CursorState};
use crate::path::{has_nul, is_native_string, native_string, representable};

verus! {

/// A value written under a key is what a lookup of that key then returns,
/// byte for byte, whatever the key and the value are (empty ones too).
pub proof fn put_then_get_returns_value(
    store: Map<Seq<u8>, Seq<u8>>,
    key: Seq<u8>,
    value: Seq<u8>,
    put: PutReply,
    get: GetReply,
)
    requires
        put.err is None,
        answers_lookup(store_after_put(store, key, value, put), key, get),
    ensures
        PutCall::outcome(put) == Ok::<(), LevelDBError>(()),
        GetCall::outcome(get) == Ok::<Option<Seq<u8>>, LevelDBError>(Some(value)),
{
}

/// Of two writes under one key the later one wins.
pub proof fn last_put_wins(
    store: Map<Seq<u8>, Seq<u8>>,
    key: Seq<u8>,
    first: Seq<u8>,
    second: Seq<u8>,
    put_first: PutReply,
    put_second: PutReply,
    get: GetReply,
)
    requires
        put_first.err is None,
        put_second.err is None,
        answers_lookup(
            store_after_put(store_after_put(store, key, first, put_first), key, second, put_second),
            key,
            get,
        ),
    ensures
        GetCall::outcome(get) == Ok::<Option<Seq<u8>>, LevelDBError>(Some(second)),
{
}

/// A write that the engine reports as failed ends in `WriteFailed` with the
/// engine's diagnostic and leaves what the key held before to be found.
pub proof fn failed_put_keeps_value(
    store: Map<Seq<u8>, Seq<u8>>,
    key: Seq<u8>,
    value: Seq<u8>,
    put: PutReply,
    get: GetReply,
)
    requires
        put.err is Some,
        answers_lookup(store_after_put(store, key, value, put), key, get),
    ensures
        PutCall::outcome(put) == Err::<(), LevelDBError>(LevelDBError::WriteFailed(put.err.unwrap())),
        GetCall::outcome(get) == (if store.contains_key(key) {
            Ok::<Option<Seq<u8>>, LevelDBError>(Some(store[key]))
        } else {
            Ok(None)
        }),
{
}

/// A key that was never written is looked up as `None`, which is no error,
/// also after a write under another key.
pub proof fn missing_key_is_none(
    store: Map<Seq<u8>, Seq<u8>>,
    key: Seq<u8>,
    other_key: Seq<u8>,
    other_value: Seq<u8>,
    put: PutReply,
    get: GetReply,
)
    requires
        !store.contains_key(key),
        other_key != key,
        answers_lookup(store_after_put(store, other_key, other_value, put), key, get),
    ensures
        GetCall::outcome(get) == Ok::<Option<Seq<u8>>, LevelDBError>(None),
{
}

/// A lookup that the engine reports as failed ends in `ReadFailed` with the
/// engine's diagnostic, whatever else the reply holds.
pub proof fn failed_get_is_read_failed(get: GetReply)
    requires
        get.err is Some,
    ensures
        GetCall::outcome(get) == Err::<Option<Seq<u8>>, LevelDBError>(
            LevelDBError::ReadFailed(get.err.unwrap()),
        ),
{
}

/// An exhausted cursor asks for no native move, yields nothing and stays
/// exhausted, however often it is advanced.
pub proof fn exhausted_is_terminal(entries: Seq<bool>, entry: Option<Seq<u8>>)
    ensures
        move_from(CursorState::Exhausted) is None,
        yielded(CursorState::Exhausted, entry) is None,
        state_after_run(CursorState::Exhausted, entries) == CursorState::Exhausted,
    decreases entries.len(),
{
    if entries.len() > 0 {
        exhausted_is_terminal(entries.drop_last(), entry);
    }
}

/// Once an advance has found no entry, every later advance ends exhausted
/// and yields nothing.
pub proof fn exhaustion_lasts(
    state: CursorState,
    entries: Seq<bool>,
    k: int,
    entry: Option<Seq<u8>>,
)
    requires
        0 <= k < entries.len(),
        !entries[k],
    ensures
        state_after_run(state, entries) == CursorState::Exhausted,
        yielded(state_after_run(state, entries), entry) is None,
    decreases entries.len(),
{
    if k < entries.len() - 1 {
        exhaustion_lasts(state, entries.drop_last(), k, entry);
    }
}

/// As long as every advance finds an entry, the cursor is not exhausted and
/// the next advance yields exactly the entry that the engine reports.
pub proof fn entries_are_relayed(entries: Seq<bool>, entry: Option<Seq<u8>>)
    requires
        forall|i: int| 0 <= i < entries.len() ==> entries[i],
    ensures
        state_after_run(CursorState::NotStarted, entries) == (if entries.len() == 0 {
            CursorState::NotStarted
        } else {
            CursorState::Positioned
        }),
        yielded(state_after_run(CursorState::NotStarted, entries), entry) == entry,
        state_after(state_after_run(CursorState::NotStarted, entries), entry is Some) == (if entry is Some {
            CursorState::Positioned
        } else {
            CursorState::Exhausted
        }),
    decreases entries.len(),
{
    if entries.len() > 0 {
        entries_are_relayed(entries.drop_last(), entry);
    }
}

/// A path with a NUL byte, or one that is not UTF-8, is not representable;
/// the native string of a representable path ends in the only NUL byte it
/// holds.
pub proof fn native_string_is_terminated(name: Seq<u8>)
    ensures
        has_nul(name) ==> !representable(name),
        native_string(name).len() == name.len() + 1,
        native_string(name).last() == 0u8,
        native_string(name).drop_last() == name,
        representable(name) ==> forall|i: int| 0 <= i < name.len() ==> native_string(name)[i] != 0u8,
        representable(name) <==> is_native_string(native_string(name)),
{
    assert(native_string(name).drop_last() =~= name);
    if representable(name) {
        assert forall|i: int| 0 <= i < name.len() implies native_string(name)[i] != 0u8 by {
            assert(native_string(name)[i] == name[i]);
        }
    }
}

} // verus!

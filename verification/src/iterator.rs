//! A forward-only cursor over the values of a database, in key order.

use vstd::prelude::*;
use crate::handle::LevelDBHandle;
use crate::options::LevelDBReadOptions;

verus! {

/// Where a cursor stands.
#[derive(Clone, Copy, Debug, PartialEq, Eq, Structural)]
pub enum CursorState {
    /// Created, not yet positioned.
    NotStarted,
    /// On an entry.
    Positioned,
    /// Past the last entry. Nothing leads out of this state.
    Exhausted,
}

/// A native move of the cursor.
#[derive(Clone, Copy, Debug, PartialEq, Eq, Structural)]
pub enum CursorMove {
    /// Go to the first key in sort order.
    SeekToFirst,
    /// Go to the next key in sort order.
    Next,
}

/// The move that an advance makes from `state`; none once exhausted.
pub open spec fn move_from(state: CursorState) -> Option<CursorMove> {
    match state {
        CursorState::NotStarted => Some(CursorMove::SeekToFirst),
        CursorState::Positioned => Some(CursorMove::Next),
        CursorState::Exhausted => None,
    }
}

/// The state after an advance from `state`, given whether the cursor then
/// stood on an entry.
pub open spec fn state_after(state: CursorState, on_entry: bool) -> CursorState {
    if state is Exhausted || !on_entry {
        CursorState::Exhausted
    } else {
        CursorState::Positioned
    }
}

/// What an advance from `state` yields, given the entry the cursor then
/// stood on.
pub open spec fn yielded(state: CursorState, entry: Option<Seq<u8>>) -> Option<Seq<u8>> {
    if state is Exhausted {
        None
    } else {
        entry
    }
}

/// The state after a run of advances from `state`; `entries[i]` says whether
/// the cursor stood on an entry after the move of advance `i`.
pub open spec fn state_after_run(state: CursorState, entries: Seq<bool>) -> CursorState
    decreases entries.len(),
{
    if entries.len() == 0 {
        state
    } else {
        state_after(state_after_run(state, entries.drop_last()), entries.last())
    }
}

/// The native call that creates a cursor.
#[derive(Debug)]
pub struct IterCall<'a> {
    /// The database to scan.
    pub handle: &'a LevelDBHandle,
    /// The settings to read with.
    pub options: LevelDBReadOptions,
}

/// A cursor over a database. It borrows the handle it came from, so it
/// cannot outlive it.
#[derive(Debug)]
pub struct LevelDBIterator<'a> {
    cursor: usize,
    state: CursorState,
    handle: &'a LevelDBHandle,
}

impl<'a> IterCall<'a> {
    /// Wraps the cursor that the engine created. The engine never answers
    /// with a null cursor.
    pub fn complete(self, cursor: usize) -> (it: LevelDBIterator<'a>)
        requires
            cursor != 0,
        ensures
            it.native() == cursor,
            it.state() == CursorState::NotStarted,
            it.handle() == self.handle,
    {
        LevelDBIterator::new(self.handle, cursor)
    }
}

impl<'a> LevelDBIterator<'a> {
    #[verifier::type_invariant]
    spec fn holds_cursor(self) -> bool {
        self.cursor != 0
    }

    /// The engine's identifier for the cursor.
    pub closed spec fn native(self) -> usize {
        self.cursor
    }

    /// Where the cursor stands.
    pub closed spec fn state(self) -> CursorState {
        self.state
    }

    /// The handle the cursor borrows.
    pub closed spec fn handle(self) -> &'a LevelDBHandle {
        self.handle
    }

    /// A cursor over `db` that has not been positioned yet.
    pub fn new(db: &'a LevelDBHandle, cursor: usize) -> (it: Self)
        requires
            cursor != 0,
        ensures
            it.native() == cursor,
            it.state() == CursorState::NotStarted,
            it.handle() == db,
    {
        LevelDBIterator { cursor, state: CursorState::NotStarted, handle: db }
    }

    /// The engine's identifier for the cursor, to make a native call with.
    pub fn as_native(&self) -> (cursor: usize)
        ensures
            cursor == self.native(),
            cursor != 0,
    {
        proof {
            use_type_invariant(self);
        }
        self.cursor
    }

    /// Where the cursor stands.
    pub fn current_state(&self) -> (state: CursorState)
        ensures
            state == self.state(),
    {
        self.state
    }

    /// The native move that the next advance needs, or `None` if the cursor
    /// is exhausted and no native call is to be made.
    pub fn pending_move(&self) -> (mv: Option<CursorMove>)
        ensures
            mv == move_from(self.state()),
    {
        match self.state {
            CursorState::NotStarted => Some(CursorMove::SeekToFirst),
            CursorState::Positioned => Some(CursorMove::Next),
            CursorState::Exhausted => None,
        }
    }

    /// Advances. `entry` is what the engine reported after the pending move:
    /// the value the cursor stands on, or `None` if it stands on none. The
    /// result is the value of the entry reached, or `None` when there is no
    /// further entry. An exhausted cursor stays exhausted whatever `entry`
    /// holds.
    pub fn next(&mut self, entry: Option<Vec<u8>>) -> (value: Option<Vec<u8>>)
        ensures
            final(self).state() == state_after(old(self).state(), entry is Some),
            final(self).native() == old(self).native(),
            final(self).handle() == old(self).handle(),
            match value {
                Some(v) => yielded(old(self).state(), entry_view(entry)) == Some(v@),
                None => yielded(old(self).state(), entry_view(entry)) is None,
            },
    {
        proof {
            use_type_invariant(&*self);
        }
        match self.state {
            CursorState::Exhausted => None,
            _ => match entry {
                Some(v) => {
                    self.state = CursorState::Positioned;
                    Some(v)
                },
                None => {
                    self.state = CursorState::Exhausted;
                    None
                },
            },
        }
    }
}

/// An entry taken by its bytes.
pub open spec fn entry_view(entry: Option<Vec<u8>>) -> Option<Seq<u8>> {
    match entry {
        Some(v) => Some(v@),
        None => None,
    }
}

} // verus!

//! The database handle, the native calls it asks for, and what the engine's
//! replies to them mean.

use vstd::prelude::*;
use crate::error::LevelDBError;
use crate::iterator::IterCall;
use crate::options::{LevelDBOptions, LevelDBReadOptions, LevelDBWriteOptions};
use crate::path::{is_native_string, native_string, representable, to_native_string};
use crate::value::LevelDBValue;

verus! {

/// An open database. It holds the engine's identifier for the database,
/// which is never null.
#[derive(Debug)]
pub struct LevelDBHandle {
    db: usize,
}

/// The native call that opens a database. One exists only for a path that
/// the engine can be given.
#[derive(Debug)]
pub struct OpenCall {
    options: LevelDBOptions,
    path: Vec<u8>,
}

/// What the engine answered to an open: its identifier for the database,
/// null if there is none, and its diagnostic if it failed.
#[derive(Debug)]
pub struct OpenReply {
    pub db: usize,
    pub err: Option<String>,
}

/// The native call that writes one entry.
#[derive(Debug)]
pub struct PutCall<'a> {
    /// The database to write to.
    pub handle: &'a LevelDBHandle,
    /// The settings to write with.
    pub options: LevelDBWriteOptions,
    pub key: &'a [u8],
    pub value: &'a [u8],
}

/// What the engine answered to a write: its diagnostic if it failed.
#[derive(Debug)]
pub struct PutReply {
    pub err: Option<String>,
}

/// The native call that looks one key up.
#[derive(Debug)]
pub struct GetCall<'a> {
    /// The database to read from.
    pub handle: &'a LevelDBHandle,
    /// The settings to read with.
    pub options: LevelDBReadOptions,
    pub key: &'a [u8],
}

/// What the engine answered to a lookup: the bytes it found, if any, and its
/// diagnostic if it failed. Neither of the two means that the key is absent.
#[derive(Debug)]
pub struct GetReply {
    pub value: Option<Vec<u8>>,
    pub err: Option<String>,
}

/// The result of a lookup with the value taken by its bytes.
pub open spec fn lookup_view(r: Result<Option<LevelDBValue>, LevelDBError>) -> Result<
    Option<Seq<u8>>,
    LevelDBError,
> {
    match r {
        Ok(Some(v)) => Ok(Some(v@)),
        Ok(None) => Ok(None),
        Err(e) => Err(e),
    }
}

impl OpenCall {
    #[verifier::type_invariant]
    spec fn holds_native_path(self) -> bool {
        is_native_string(self.path@)
    }

    /// The settings to open with.
    pub closed spec fn settings(self) -> LevelDBOptions {
        self.options
    }

    /// The path as a NUL-terminated native string.
    pub closed spec fn native_path(self) -> Seq<u8> {
        self.path@
    }

    /// The settings to open with.
    pub fn options(&self) -> (options: LevelDBOptions)
        ensures
            options == self.settings(),
    {
        self.options
    }

    /// The path to open, as a NUL-terminated native string.
    pub fn path(&self) -> (path: &[u8])
        ensures
            path@ == self.native_path(),
            is_native_string(path@),
    {
        proof {
            use_type_invariant(self);
        }
        self.path.as_slice()
    }

    /// What an open ends in, given the engine's reply: the handle's native
    /// identifier, or the failure.
    pub open spec fn outcome(reply: OpenReply) -> Result<usize, LevelDBError> {
        match reply.err {
            Some(msg) => Err(LevelDBError::FailedToOpen(msg)),
            None => Ok(reply.db),
        }
    }

    /// Turns the engine's reply into the handle, or into `FailedToOpen` with
    /// the engine's diagnostic. A reply without a diagnostic must name a
    /// database.
    pub fn complete(self, reply: OpenReply) -> (r: Result<LevelDBHandle, LevelDBError>)
        requires
            reply.err is None ==> reply.db != 0,
        ensures
            match r {
                Ok(h) => Self::outcome(reply) == Ok::<usize, LevelDBError>(h.native()),
                Err(e) => Self::outcome(reply) == Err::<usize, LevelDBError>(e),
            },
    {
        match reply.err {
            Some(msg) => Err(LevelDBError::FailedToOpen(msg)),
            None => Ok(LevelDBHandle { db: reply.db }),
        }
    }
}

impl<'a> PutCall<'a> {
    /// What a write ends in, given the engine's reply.
    pub open spec fn outcome(reply: PutReply) -> Result<(), LevelDBError> {
        match reply.err {
            Some(msg) => Err(LevelDBError::WriteFailed(msg)),
            None => Ok(()),
        }
    }

    /// Turns the engine's reply into success, or into `WriteFailed` with the
    /// engine's diagnostic.
    pub fn complete(self, reply: PutReply) -> (r: Result<(), LevelDBError>)
        ensures
            r == Self::outcome(reply),
    {
        match reply.err {
            Some(msg) => Err(LevelDBError::WriteFailed(msg)),
            None => Ok(()),
        }
    }
}

impl<'a> GetCall<'a> {
    /// What a lookup ends in, given the engine's reply.
    pub open spec fn outcome(reply: GetReply) -> Result<Option<Seq<u8>>, LevelDBError> {
        match reply.err {
            Some(msg) => Err(LevelDBError::ReadFailed(msg)),
            None => match reply.value {
                Some(bytes) => Ok(Some(bytes@)),
                None => Ok(None),
            },
        }
    }

    /// Turns the engine's reply into the value found, into `None` where the
    /// key is absent, or into `ReadFailed` with the engine's diagnostic.
    pub fn complete(self, reply: GetReply) -> (r: Result<Option<LevelDBValue>, LevelDBError>)
        ensures
            lookup_view(r) == Self::outcome(reply),
    {
        match reply.err {
            Some(msg) => Err(LevelDBError::ReadFailed(msg)),
            None => match reply.value {
                Some(bytes) => Ok(Some(LevelDBValue::new(bytes))),
                None => Ok(None),
            },
        }
    }
}

impl LevelDBHandle {
    #[verifier::type_invariant]
    spec fn holds_database(self) -> bool {
        self.db != 0
    }

    /// The engine's identifier for the database.
    pub closed spec fn native(self) -> usize {
        self.db
    }

    /// The engine's identifier for the database, to make a native call with.
    pub fn as_native(&self) -> (db: usize)
        ensures
            db == self.native(),
            db != 0,
    {
        proof {
            use_type_invariant(self);
        }
        self.db
    }

    /// Starts opening the database at `name`. A path that cannot be written
    /// as a native string is rejected here, before any native call; any
    /// other path gives the call to make, with the settings for opening.
    pub fn open(name: &[u8]) -> (r: Result<OpenCall, LevelDBError>)
        ensures
            match r {
                Ok(call) => representable(name@) && call.settings() == (LevelDBOptions {
                    create_if_missing: true,
                }) && call.native_path() == native_string(name@),
                Err(e) => !representable(name@) && e is InvalidPath,
            },
    {
        let options = LevelDBOptions::new();
        match to_native_string(name) {
            Ok(path) => Ok(OpenCall { options, path }),
            Err(e) => Err(e),
        }
    }

    /// The call that writes `data` under `key`, with fresh default settings.
    pub fn put<'a>(&'a self, key: &'a [u8], data: &'a [u8]) -> (call: PutCall<'a>)
        ensures
            call.handle == self,
            call.options == (LevelDBWriteOptions { sync: false }),
            call.key@ == key@,
            call.value@ == data@,
    {
        PutCall { handle: self, options: LevelDBWriteOptions::new(), key, value: data }
    }

    /// The call that looks `key` up, with fresh default settings.
    pub fn get<'a>(&'a self, key: &'a [u8]) -> (call: GetCall<'a>)
        ensures
            call.handle == self,
            call.options == (LevelDBReadOptions { verify_checksums: false, fill_cache: true }),
            call.key@ == key@,
    {
        GetCall { handle: self, options: LevelDBReadOptions::new(), key }
    }

    /// The call that creates a cursor over the database, with fresh default
    /// settings.
    pub fn iter<'a>(&'a self) -> (call: IterCall<'a>)
        ensures
            call.handle == self,
            call.options == (LevelDBReadOptions { verify_checksums: false, fill_cache: true }),
    {
        IterCall { handle: self, options: LevelDBReadOptions::new() }
    }
}

} // verus!

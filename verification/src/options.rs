//! The settings that go with a native call. Each kind is built with the
//! engine's defaults; the settings for opening also ask the engine to create
//! a database that does not exist yet.

use vstd::prelude::*;

verus! {

/// Settings for opening a database.
#[derive(Clone, Copy, Debug, PartialEq, Eq, Structural)]
pub struct LevelDBOptions {
    /// Create the database if none exists at the path.
    pub create_if_missing: bool,
}

impl LevelDBOptions {
    /// The settings every open uses: create the database if it is missing.
    pub fn new() -> (options: Self)
        ensures
            options == (LevelDBOptions { create_if_missing: true }),
    {
        LevelDBOptions { create_if_missing: true }
    }
}

/// Settings for a point lookup or a scan.
#[derive(Clone, Copy, Debug, PartialEq, Eq, Structural)]
pub struct LevelDBReadOptions {
    /// Verify the checksum of every block that is read.
    pub verify_checksums: bool,
    /// Keep the blocks that are read in the engine's cache.
    pub fill_cache: bool,
}

impl LevelDBReadOptions {
    /// The engine's defaults: no checksum verification, reads fill the cache.
    pub fn new() -> (options: Self)
        ensures
            options == (LevelDBReadOptions { verify_checksums: false, fill_cache: true }),
    {
        LevelDBReadOptions { verify_checksums: false, fill_cache: true }
    }
}

/// Settings for a write.
#[derive(Clone, Copy, Debug, PartialEq, Eq, Structural)]
pub struct LevelDBWriteOptions {
    /// Flush the write to stable storage before the call returns.
    pub sync: bool,
}

impl LevelDBWriteOptions {
    /// The engine's default: writes are not synchronous.
    pub fn new() -> (options: Self)
        ensures
            options == (LevelDBWriteOptions { sync: false }),
    {
        LevelDBWriteOptions { sync: false }
    }
}

} // verus!

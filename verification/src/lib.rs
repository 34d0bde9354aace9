//! A client layer for a LevelDB database, written so that every decision it
//! takes is proved.
//!
//! The storage engine lives behind a C interface and is never called from
//! here. Each operation is split in two: a method of [`LevelDBHandle`] checks
//! its arguments and describes the native call to make, and `complete` on
//! that description turns what the engine answered into the operation's
//! result. The caller makes the native call in between.

pub mod error;
pub mod options;
pub mod value;
pub mod path;
pub mod engine;
pub mod handle;
pub mod iterator;
pub mod laws;

pub use error::LevelDBError;
pub use handle::LevelDBHandle;
pub use iterator::LevelDBIterator;
pub use options::{LevelDBOptions, LevelDBReadOptions, LevelDBWriteOptions};
pub use value::LevelDBValue;

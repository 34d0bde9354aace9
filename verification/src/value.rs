//! The bytes that a point lookup found.

use vstd::prelude::*;

verus! {

/// An immutable byte string of fixed length, owned by whoever looked it up.
/// The bytes are raw: nothing says that they are text.
#[derive(Debug)]
pub struct LevelDBValue {
    bytes: Vec<u8>,
}

impl View for LevelDBValue {
    type V = Seq<u8>;

    closed spec fn view(&self) -> Seq<u8> {
        self.bytes@
    }
}

impl LevelDBValue {
    /// Takes ownership of the bytes the engine reported.
    pub fn new(bytes: Vec<u8>) -> (value: Self)
        ensures
            value@ == bytes@,
    {
        LevelDBValue { bytes }
    }

    /// The number of bytes held.
    pub fn len(&self) -> (n: usize)
        ensures
            n == self@.len(),
    {
        self.bytes.len()
    }

    /// Whether the value is the empty byte string.
    pub fn is_empty(&self) -> (b: bool)
        ensures
            b == (self@.len() == 0),
    {
        self.bytes.len() == 0
    }

    /// The bytes, borrowed.
    pub fn as_slice(&self) -> (bytes: &[u8])
        ensures
            bytes@ == self@,
    {
        self.bytes.as_slice()
    }

    /// The bytes, handed over.
    pub fn into_bytes(self) -> (bytes: Vec<u8>)
        ensures
            bytes@ == self@,
    {
        self.bytes
    }
}

} // verus!

//! Which database paths the engine can be given, and the form it takes them in.
//!
//! The engine reads a path as a NUL-terminated string. A path can be handed
//! over if it is valid UTF-8 and holds no NUL byte of its own.

use vstd::prelude::*;
use vstd::slice::slice_to_vec;
use vstd::utf8::valid_utf8;
use crate::error::LevelDBError;

verus! {

/// Whether `name` holds a NUL byte.
pub open spec fn has_nul(name: Seq<u8>) -> bool {
    exists|i: int| 0 <= i < name.len() && name[i] == 0u8
}

/// Whether `name` can be written as a native string.
pub open spec fn representable(name: Seq<u8>) -> bool {
    valid_utf8(name) && !has_nul(name)
}

/// The native string for `name`: its bytes, then the terminator.
pub open spec fn native_string(name: Seq<u8>) -> Seq<u8> {
    name.push(0u8)
}

/// Whether `s` is the native string of a representable path.
pub open spec fn is_native_string(s: Seq<u8>) -> bool {
    s.len() > 0 && s.last() == 0u8 && representable(s.drop_last())
}

/// Trusted: `std::str::from_utf8` accepts a byte slice exactly when the
/// slice is well-formed UTF-8.
#[verifier::external_body]
fn is_utf8(bytes: &[u8]) -> (ok: bool)
    ensures
        ok == valid_utf8(bytes@),
{
    std::str::from_utf8(bytes).is_ok()
}

/// Looks for a NUL byte in `name`.
pub fn contains_nul(name: &[u8]) -> (found: bool)
    ensures
        found == has_nul(name@),
{
    let mut i: usize = 0;
    while i < name.len()
        invariant
            i <= name@.len(),
            forall|j: int| 0 <= j < i ==> name@[j] != 0u8,
        decreases name@.len() - i,
    {
        if name[i] == 0u8 {
            return true;
        }
        i = i + 1;
    }
    false
}

/// Decides whether `name` can be handed to the engine.
pub fn is_representable(name: &[u8]) -> (ok: bool)
    ensures
        ok == representable(name@),
{
    is_utf8(name) && !contains_nul(name)
}

/// Writes `name` as the NUL-terminated string the engine reads, or rejects
/// it with `InvalidPath` if it cannot be written so.
pub fn to_native_string(name: &[u8]) -> (r: Result<Vec<u8>, LevelDBError>)
    ensures
        match r {
            Ok(s) => representable(name@) && s@ == native_string(name@) && is_native_string(s@),
            Err(e) => !representable(name@) && e is InvalidPath,
        },
{
    if !is_representable(name) {
        return Err(LevelDBError::InvalidPath);
    }
    let mut s: Vec<u8> = slice_to_vec(name);
    s.push(0u8);
    proof {
        assert(s@.drop_last() =~= name@);
    }
    Ok(s)
}

} // verus!

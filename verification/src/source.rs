//! What reading the beginning of a file brought.

use vstd::prelude::*;

verus! {

/// The outcome of opening a file and reading from its start.
#[derive(Debug, PartialEq, Eq)]
pub enum FileRead {
    /// The file could not be opened.
    OpenFailed,
    /// The file was opened, but reading it failed for a reason other than
    /// reaching its end.
    ReadFailed,
    /// The bytes at the start of the file: as many as were asked for, or fewer
    /// where the file ends before that.
    Data(Vec<u8>),
}

/// The bytes of `content` that lie within its first `limit` bytes: what a
/// reader that stops after `limit` bytes gets of a file with that content.
pub open spec fn leading_bytes(content: Seq<u8>, limit: int) -> Seq<u8> {
    if content.len() <= limit {
        content
    } else {
        content.subrange(0, limit)
    }
}

} // verus!

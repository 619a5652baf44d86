//! A diagnostic hex dump of the beginning of a file.
//!
//! The dump always covers a buffer of [`HEXDUMP_BUFFER_SIZE`] bytes. A file
//! that is shorter fills only the start of the buffer; the rest stays zero and
//! is dumped as such.

use vstd::prelude::*;
use crate::error::InjectionError;
use crate::source::{leading_bytes, FileRead};

verus! {

/// The size of the dumped buffer: no more of a file needs to be read.
pub const HEXDUMP_BUFFER_SIZE: usize = 0x200;

/// The buffer that is dumped for a file with the given content: its first
/// `HEXDUMP_BUFFER_SIZE` bytes, followed by zeros where the content is shorter.
pub open spec fn dump_window(content: Seq<u8>) -> Seq<u8> {
    Seq::new(
        HEXDUMP_BUFFER_SIZE as nat,
        |i: int|
            if i < content.len() {
                content[i]
            } else {
                0u8
            },
    )
}

/// The text that `hxdmp::hexdump` writes for `bytes`: one line for each 16
/// bytes, holding the offset, the bytes in hexadecimal and their printable
/// form.
pub uninterp spec fn hexdump_rendering(bytes: Seq<u8>) -> Seq<u8>;

/// The dump of a file with the given content.
pub open spec fn hexdump_of(content: Seq<u8>) -> Seq<u8> {
    hexdump_rendering(dump_window(content))
}

/// The dump rule: a file that could be opened and read is dumped, however
/// short it is. Every failure is a [`InjectionError::FileError`].
pub open spec fn hexdump_verdict(read: FileRead) -> Result<Seq<u8>, InjectionError> {
    match read {
        FileRead::Data(data) => Ok(hexdump_of(data@)),
        _ => Err(InjectionError::FileError),
    }
}

/// Renders `bytes` with `hxdmp::hexdump`, collecting what it writes in a
/// vector. Nothing is proved about this call: the contract states only that
/// the text is the one function of `bytes` that `hexdump_rendering` names.
/// The writer is a vector, which accepts every write, so the call cannot fail.
#[verifier::external_body]
fn render_hexdump(bytes: &[u8]) -> (text: Vec<u8>)
    ensures
        text@ == hexdump_rendering(bytes@),
{
    let mut text = Vec::new();
    hxdmp::hexdump(bytes, &mut text).unwrap();
    text
}

/// The buffer to dump for a file of which `data` was read.
pub fn fill_dump_buffer(data: &[u8]) -> (buffer: Vec<u8>)
    ensures
        buffer@ == dump_window(data@),
{
    let mut buffer: Vec<u8> = Vec::with_capacity(HEXDUMP_BUFFER_SIZE);
    let mut i: usize = 0;
    while i < HEXDUMP_BUFFER_SIZE
        invariant
            i <= HEXDUMP_BUFFER_SIZE,
            buffer@.len() == i,
            forall|j: int| 0 <= j < i ==> buffer@[j] == dump_window(data@)[j],
        decreases HEXDUMP_BUFFER_SIZE - i,
    {
        let byte: u8 = if i < data.len() {
            data[i]
        } else {
            0
        };
        buffer.push(byte);
        i += 1;
    }
    assert(buffer@ =~= dump_window(data@));
    buffer
}

/// The hex dump to print for a file, from what reading its first
/// [`HEXDUMP_BUFFER_SIZE`] bytes brought.
pub fn print_file_hexdump(read: &FileRead) -> (dump: Result<Vec<u8>, InjectionError>)
    ensures
        match dump {
            Ok(text) => hexdump_verdict(*read) == Ok::<Seq<u8>, InjectionError>(text@),
            Err(e) => hexdump_verdict(*read) == Err::<Seq<u8>, InjectionError>(e),
        },
{
    match read {
        FileRead::Data(data) => {
            let buffer = fill_dump_buffer(data.as_slice());
            Ok(render_hexdump(buffer.as_slice()))
        },
        _ => Err(InjectionError::FileError),
    }
}

/// The dump of a file depends on nothing but its first `HEXDUMP_BUFFER_SIZE`
/// bytes: two files that agree there have the same dump, whatever follows.
pub proof fn lemma_dump_ignores_tail(a: Seq<u8>, b: Seq<u8>)
    requires
        leading_bytes(a, HEXDUMP_BUFFER_SIZE as int) == leading_bytes(
            b,
            HEXDUMP_BUFFER_SIZE as int,
        ),
    ensures
        hexdump_of(a) == hexdump_of(b),
{
    let head_a = leading_bytes(a, HEXDUMP_BUFFER_SIZE as int);
    let head_b = leading_bytes(b, HEXDUMP_BUFFER_SIZE as int);
    assert forall|i: int| 0 <= i < HEXDUMP_BUFFER_SIZE implies dump_window(a)[i] == dump_window(
        b,
    )[i] by {
        if i < head_a.len() {
            assert(a[i] == head_a[i]);
            assert(b[i] == head_b[i]);
        }
    }
    assert(dump_window(a) =~= dump_window(b));
}

/// A file shorter than the buffer is dumped as if zeros followed its content.
pub proof fn lemma_short_file_is_zero_padded(content: Seq<u8>)
    requires
        content.len() <= HEXDUMP_BUFFER_SIZE,
    ensures
        dump_window(content) == content + Seq::new(
            (HEXDUMP_BUFFER_SIZE - content.len()) as nat,
            |i: int| 0u8,
        ),
{
    assert(dump_window(content) =~= content + Seq::new(
        (HEXDUMP_BUFFER_SIZE - content.len()) as nat,
        |i: int| 0u8,
    ));
}

} // verus!

//! Recognising a loadable ELF image by its first bytes.

use vstd::prelude::*;
use crate::error::InjectionError;
use crate::source::{leading_bytes, FileRead};

verus! {

/// The number of bytes at the start of a file that decide whether it is an
/// ELF image: no more need to be read.
pub const ELF_MAGIC_LEN: usize = 4;

/// The signature of an ELF image: `0x7F 'E' 'L' 'F'`.
pub open spec fn elf_magic() -> Seq<u8> {
    seq![0x7fu8, 0x45u8, 0x4cu8, 0x46u8]
}

/// Whether `content` begins with the ELF signature. Content shorter than the
/// signature does not.
pub open spec fn has_elf_magic(content: Seq<u8>) -> bool {
    elf_magic().is_prefix_of(content)
}

/// The validation rule: a file is accepted exactly when it could be read and
/// begins with the ELF signature. Every rejection is a
/// [`InjectionError::FileError`].
pub open spec fn elf_verdict(read: FileRead) -> Result<(), InjectionError> {
    match read {
        FileRead::Data(head) => if has_elf_magic(head@) {
            Ok(())
        } else {
            Err(InjectionError::FileError)
        },
        _ => Err(InjectionError::FileError),
    }
}

/// Whether `head` begins with the ELF signature.
pub fn starts_with_elf_magic(head: &[u8]) -> (found: bool)
    ensures
        found == has_elf_magic(head@),
{
    let found = head.len() >= ELF_MAGIC_LEN && head[0] == 0x7f && head[1] == 0x45 && head[2] == 0x4c
        && head[3] == 0x46;
    proof {
        if found {
            assert(head@.subrange(0, 4) =~= elf_magic());
        } else if has_elf_magic(head@) {
            let start = head@.subrange(0, 4);
            assert(start[0] == 0x7f && start[1] == 0x45 && start[2] == 0x4c && start[3] == 0x46);
        }
    }
    found
}

/// Validates a candidate payload from what reading its first
/// [`ELF_MAGIC_LEN`] bytes brought.
pub fn verify_elf_file(read: &FileRead) -> (verdict: Result<(), InjectionError>)
    ensures
        verdict == elf_verdict(*read),
{
    match read {
        FileRead::Data(head) => if starts_with_elf_magic(head.as_slice()) {
            Ok(())
        } else {
            Err(InjectionError::FileError)
        },
        _ => Err(InjectionError::FileError),
    }
}

/// Whether a file is an ELF image is decided by its first four bytes: reading
/// more of it changes nothing.
pub proof fn lemma_magic_is_in_the_head(content: Seq<u8>, limit: int)
    requires
        limit >= ELF_MAGIC_LEN,
    ensures
        has_elf_magic(content) == has_elf_magic(leading_bytes(content, limit)),
{
    let head = leading_bytes(content, limit);
    if content.len() > limit {
        if has_elf_magic(content) {
            assert(head.subrange(0, 4) =~= content.subrange(0, 4));
        }
        if has_elf_magic(head) {
            assert(content.subrange(0, 4) =~= head.subrange(0, 4));
        }
    }
}

} // verus!

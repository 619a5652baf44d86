//! Preparation of a native shared-library payload for loading by another
//! process: validation of the candidate file, a diagnostic dump of it, staging
//! into the directory the target can read, and the repair of its security
//! label and permission bits.
//!
//! The library performs no I/O. Each operation is a decision over the outcome
//! of the file-system or subprocess work that the caller carried out, so that
//! every decision is covered by a proved contract:
//!
//! * [`verify_elf_file`] and [`print_file_hexdump`] take what reading the start
//!   of the file brought;
//! * [`copy_file_to_tmp`], [`fix_file_context`] and [`fix_file_permissions`]
//!   are stepped: each call takes the outcome of the caller's last action and
//!   returns the next action, or the final result.

pub mod error;
pub mod source;
pub mod elf;
pub mod hexdump;
pub mod stager;
pub mod fixer;

pub use elf::verify_elf_file;
pub use error::InjectionError;
pub use fixer::{fix_file_context, fix_file_permissions};
pub use hexdump::print_file_hexdump;
pub use source::FileRead;
pub use stager::copy_file_to_tmp;

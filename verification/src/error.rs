//! The closed set of failures that staging a payload can report.

use vstd::prelude::*;

verus! {

/// Why an operation on the payload was abandoned.
#[derive(Debug, Clone, Copy, PartialEq, Eq, Structural)]
pub enum InjectionError {
    /// A file could not be opened, read, resolved or copied, or is not a
    /// loadable image.
    FileError,
    /// An external tool could not be launched or reported failure.
    CommandError,
}

} // verus!

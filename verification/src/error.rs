//! The error kinds that processing one source file can produce.

use vstd::prelude::*;

verus! {

/// Everything that can go wrong while resolving, compiling or running one
/// source file. `CompileError` carries the compiler's diagnostic text;
/// `NotFound` and `UnsupportedExtension` carry the offending path and
/// extension so callers can report them.
#[derive(Debug, Clone, PartialEq, Eq)]
pub enum RmakeError {
    /// The input path does not exist on the filesystem.
    NotFound(String),
    /// The file name has no stem before its extension (for example `.a`).
    MissingStem,
    /// The file name has no extension, or an empty one.
    MissingExtension,
    /// The extension is not one of the supported source languages.
    UnsupportedExtension(String),
    /// The debug level is outside the supported range of 0 through 3.
    InvalidDebugLevel(u8),
    /// The compiler exited with a failure; the payload is its standard error.
    CompileError(String),
    /// The compiled binary could not be started.
    SpawnError(String),
    /// Captured bytes (compiler output or forwarded input) are not valid text.
    EncodingError,
    /// A requested mode is accepted on the command line but not implemented.
    NotImplemented,
}

} // verus!

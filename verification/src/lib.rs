//! A small build front-end: it resolves a source file's stem and extension,
//! maps the extension and a debug level to a compiler command line, classifies
//! the compiler's outcome, and prepares the compiled binary for execution.
//! Everything here is pure decision logic; the surrounding binary performs the
//! filesystem and process work and feeds the results back in.

use vstd::prelude::*;

pub mod command;
pub mod descriptor;
pub mod error;
pub mod invoke;
pub mod runner;
pub mod text;

verus! {

use crate::command::{build_command, builds_to, language_of};
use crate::descriptor::{
    ext_spec, file_name_spec, resolvable, resolve, resolved_view, stem_spec, FileDescriptor,
};
use crate::error::RmakeError;

/// The options one invocation accepts: the files to process, a debug level,
/// and the mode flags. Argument parsing itself happens outside the library;
/// this is the plain record it produces.
pub struct Cli {
    pub files_name: Vec<String>,
    pub debug: u8,
    pub is_strict: bool,
    pub is_detailed: bool,
    pub is_run: bool,
}

/// Everything that is decided for one file before any process is spawned:
/// the resolved descriptor, now carrying its output directory, and the shell
/// command line that compiles the file.
#[derive(Debug, Clone, PartialEq, Eq)]
pub struct Plan {
    pub descriptor: FileDescriptor,
    pub command: String,
}

/// Decides the whole compilation of one file from what the filesystem said
/// about its path: resolves the name, builds the compiler command line, and
/// rejects the detailed mode, which is accepted as an option but not
/// implemented — it fails deterministically with `NotImplemented` before any
/// compilation, after the resolution and builder checks have passed.
pub fn plan(path: &str, exists: bool, parent_dir: String, debug: u8, is_detailed: bool) -> (r:
    Result<Plan, RmakeError>)
    ensures
        ({
            let name = file_name_spec(path@);
            match r {
                Ok(p) => {
                    &&& exists
                    &&& resolvable(name)
                    &&& !is_detailed
                    &&& builds_to(resolved_view(path@, parent_dir@), debug, p.descriptor@, p.command@)
                },
                Err(RmakeError::NotFound(q)) => !exists && q@ == path@,
                Err(RmakeError::MissingStem) => exists && stem_spec(name).len() == 0,
                Err(RmakeError::MissingExtension) => {
                    &&& exists
                    &&& stem_spec(name).len() > 0
                    &&& (ext_spec(name) is None || ext_spec(name)->0.len() == 0)
                },
                Err(RmakeError::InvalidDebugLevel(l)) => {
                    &&& exists
                    &&& resolvable(name)
                    &&& debug > 3
                    &&& l == debug
                },
                Err(RmakeError::UnsupportedExtension(x)) => {
                    &&& exists
                    &&& resolvable(name)
                    &&& debug <= 3
                    &&& language_of(ext_spec(name)->0) is None
                    &&& x@ == ext_spec(name)->0
                },
                Err(RmakeError::NotImplemented) => {
                    &&& exists
                    &&& resolvable(name)
                    &&& debug <= 3
                    &&& language_of(ext_spec(name)->0) is Some
                    &&& is_detailed
                },
                Err(_) => false,
            }
        }),
        r is Ok <==> {
            &&& exists
            &&& resolvable(file_name_spec(path@))
            &&& debug <= 3
            &&& language_of(ext_spec(file_name_spec(path@))->0) is Some
            &&& !is_detailed
        },
{
    let mut desc = match resolve(path, exists, parent_dir) {
        Ok(d) => d,
        Err(e) => {
            return Err(e);
        },
    };
    let command = match build_command(&mut desc, debug) {
        Ok(c) => c,
        Err(e) => {
            return Err(e);
        },
    };
    if is_detailed {
        return Err(RmakeError::NotImplemented);
    }
    Ok(Plan { descriptor: desc, command })
}

/// Entry-point policy: after one file's outcome, either go on with the next
/// file (`None`) or abort the whole run with the given process exit code.
/// The first failure stops everything with exit code 1.
pub fn after_file(outcome: &Result<(), RmakeError>) -> (r: Option<i32>)
    ensures
        match r {
            None => outcome is Ok,
            Some(code) => outcome is Err && code == 1,
        },
{
    match outcome {
        Ok(_) => None,
        Err(_) => Some(1),
    }
}

} // verus!

//! Classifying what the compiler did: its exit status and captured standard
//! error become a success, a success with warnings, or a hard error.

use vstd::prelude::*;

verus! {

use vstd::utf8::{decode_utf8, valid_utf8};

use crate::error::RmakeError;
use crate::text::decode_text;

/// How a successful compilation went: silently, or with warning text on the
/// compiler's standard error.
#[derive(Debug, Clone, PartialEq, Eq)]
pub enum CompileStatus {
    Clean,
    Warnings(String),
}

/// Turns the compiler's exit status and captured standard error into the
/// outcome of the invocation. Standard error that is not valid text fails
/// with `EncodingError`; a zero exit status succeeds, carrying any nonempty
/// standard error as warnings; a nonzero exit status fails with
/// `CompileError` holding the full diagnostic text.
pub fn classify_compile(success: bool, stderr: Vec<u8>) -> (r: Result<CompileStatus, RmakeError>)
    ensures
        match r {
            Ok(CompileStatus::Clean) => {
                &&& success
                &&& valid_utf8(stderr@)
                &&& decode_utf8(stderr@).len() == 0
            },
            Ok(CompileStatus::Warnings(w)) => {
                &&& success
                &&& valid_utf8(stderr@)
                &&& w@ == decode_utf8(stderr@)
                &&& w@.len() > 0
            },
            Err(RmakeError::EncodingError) => !valid_utf8(stderr@),
            Err(RmakeError::CompileError(t)) => {
                &&& !success
                &&& valid_utf8(stderr@)
                &&& t@ == decode_utf8(stderr@)
            },
            Err(_) => false,
        },
        r is Ok <==> success && valid_utf8(stderr@),
{
    let err = match decode_text(stderr) {
        Some(s) => s,
        None => {
            return Err(RmakeError::EncodingError);
        },
    };
    if success {
        if err.as_str().is_empty() {
            Ok(CompileStatus::Clean)
        } else {
            Ok(CompileStatus::Warnings(err))
        }
    } else {
        Err(RmakeError::CompileError(err))
    }
}

} // verus!

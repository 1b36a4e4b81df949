//! Preparing a compiled binary for execution: the path it was compiled to,
//! and the captured standard input that will be forwarded to it.

use vstd::prelude::*;

verus! {

use vstd::string::StringExecFns;
use vstd::utf8::{decode_utf8, valid_utf8};

use crate::descriptor::{DescriptorView, FileDescriptor};
use crate::error::RmakeError;
use crate::text::decode_text;

/// Where the compiled binary of a descriptor lives: `stem.out` inside the
/// recorded output directory.
pub open spec fn binary_path_spec(d: DescriptorView) -> Seq<char>
    recommends
        d.output_directory is Some,
{
    d.output_directory->0 + "/"@ + d.stem + ".out"@
}

/// The path of the compiled binary. Calling this before the command builder
/// has recorded an output directory is a contract violation, so the
/// directory is required to be set.
pub fn binary_path(desc: &FileDescriptor) -> (r: String)
    requires
        desc@.output_directory is Some,
    ensures
        r@ == binary_path_spec(desc@),
{
    let mut p = match &desc.output_directory {
        Some(d) => d.clone(),
        None => vstd::pervasive::unreached(),
    };
    p.append("/");
    p.append(desc.stem.as_str());
    p.append(".out");
    proof {
        assert(p@ =~= binary_path_spec(desc@));
    }
    p
}

/// Prepares one run of the compiled binary: the path to start it from, and
/// the captured standard input decoded to the text that will be written to
/// its input pipe. Input that is not valid text fails with `EncodingError`.
pub fn prepare_run(desc: &FileDescriptor, input: Vec<u8>) -> (r: Result<
    (String, String),
    RmakeError,
>)
    requires
        desc@.output_directory is Some,
    ensures
        match r {
            Ok((bin, text)) => {
                &&& valid_utf8(input@)
                &&& bin@ == binary_path_spec(desc@)
                &&& text@ == decode_utf8(input@)
            },
            Err(RmakeError::EncodingError) => !valid_utf8(input@),
            Err(_) => false,
        },
        r is Ok <==> valid_utf8(input@),
{
    let bin = binary_path(desc);
    match decode_text(input) {
        Some(text) => Ok((bin, text)),
        None => Err(RmakeError::EncodingError),
    }
}

} // verus!

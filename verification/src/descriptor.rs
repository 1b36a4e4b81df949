//! One compilation unit: the resolved parent directory, file stem and
//! extension of a source file, plus the output directory once a command has
//! been built for it.

use vstd::prelude::*;

verus! {

use crate::error::RmakeError;
use crate::text::{rfind, last_index_of, lemma_rfind_some};

/// The resolved record for one source file. `output_directory` stays `None`
/// until the command builder selects the per-language output subdirectory;
/// the runner requires it to be set.
#[derive(Debug, Clone, PartialEq, Eq)]
pub struct FileDescriptor {
    /// Absolute, canonicalized path of the directory holding the source file.
    pub source_directory: String,
    /// The file name without its extension.
    pub stem: String,
    /// The file name's extension, the dispatch key for the language.
    pub extension: String,
    /// Where the compiled binary goes, once the command builder has chosen it.
    pub output_directory: Option<String>,
}

/// The mathematical image of a `FileDescriptor`: every field as a sequence of
/// characters.
pub ghost struct DescriptorView {
    pub source_directory: Seq<char>,
    pub stem: Seq<char>,
    pub extension: Seq<char>,
    pub output_directory: Option<Seq<char>>,
}

impl View for FileDescriptor {
    type V = DescriptorView;

    open spec fn view(&self) -> DescriptorView {
        DescriptorView {
            source_directory: self.source_directory@,
            stem: self.stem@,
            extension: self.extension@,
            output_directory: match self.output_directory {
                Some(d) => Some(d@),
                None => None,
            },
        }
    }
}

/// The file name of a path: everything after the last separator, or the whole
/// path when it has none.
pub open spec fn file_name_spec(path: Seq<char>) -> Seq<char> {
    match rfind(path, '/') {
        Some(i) => path.subrange(i + 1, path.len() as int),
        None => path,
    }
}

/// The stem of a file name: everything before the last dot, or the whole name
/// when it has none.
pub open spec fn stem_spec(name: Seq<char>) -> Seq<char> {
    match rfind(name, '.') {
        Some(i) => name.subrange(0, i),
        None => name,
    }
}

/// The extension of a file name: everything after the last dot, or `None`
/// when the name has no dot at all.
pub open spec fn ext_spec(name: Seq<char>) -> Option<Seq<char>> {
    match rfind(name, '.') {
        Some(i) => Some(name.subrange(i + 1, name.len() as int)),
        None => None,
    }
}

/// A file name resolves when a nonempty stem and a nonempty extension can be
/// read off it.
pub open spec fn resolvable(name: Seq<char>) -> bool {
    &&& stem_spec(name).len() > 0
    &&& ext_spec(name) matches Some(e) && e.len() > 0
}

/// The descriptor a resolvable path resolves to: the canonicalized parent
/// directory together with the stem and extension read off the file name,
/// and no output directory yet.
pub open spec fn resolved_view(path: Seq<char>, parent: Seq<char>) -> DescriptorView
    recommends
        resolvable(file_name_spec(path)),
{
    DescriptorView {
        source_directory: parent,
        stem: stem_spec(file_name_spec(path)),
        extension: ext_spec(file_name_spec(path))->0,
        output_directory: None,
    }
}

/// Turns an input path into a `FileDescriptor`, given what the filesystem
/// said about it: whether the path exists and what its parent directory
/// canonicalizes to. Fails with `NotFound` on a missing path, `MissingStem`
/// when nothing stands before the extension dot, and `MissingExtension` when
/// no (nonempty) extension follows the stem — in that order of precedence.
pub fn resolve(path: &str, exists: bool, parent_dir: String) -> (r: Result<
    FileDescriptor,
    RmakeError,
>)
    ensures
        ({
            let name = file_name_spec(path@);
            match r {
                Ok(d) => {
                    &&& exists
                    &&& resolvable(name)
                    &&& d@.source_directory == parent_dir@
                    &&& d@.stem == stem_spec(name)
                    &&& d@.extension == ext_spec(name)->0
                    &&& d@.output_directory is None
                },
                Err(RmakeError::NotFound(p)) => !exists && p@ == path@,
                Err(RmakeError::MissingStem) => exists && stem_spec(name).len() == 0,
                Err(RmakeError::MissingExtension) => {
                    &&& exists
                    &&& stem_spec(name).len() > 0
                    &&& (ext_spec(name) is None || ext_spec(name)->0.len() == 0)
                },
                Err(_) => false,
            }
        }),
        r is Ok <==> exists && resolvable(file_name_spec(path@)),
{
    if !exists {
        return Err(RmakeError::NotFound(path.to_owned()));
    }
    let plen = path.unicode_len();
    let name: &str = match last_index_of(path, '/') {
        Some(i) => {
            proof {
                lemma_rfind_some(path@, '/');
            }
            path.substring_char(i + 1, plen)
        },
        None => path,
    };
    let nlen = name.unicode_len();
    match last_index_of(name, '.') {
        Some(i) => {
            proof {
                lemma_rfind_some(name@, '.');
            }
            if i == 0 {
                return Err(RmakeError::MissingStem);
            }
            if i + 1 == nlen {
                return Err(RmakeError::MissingExtension);
            }
            let stem = name.substring_char(0, i).to_owned();
            let extension = name.substring_char(i + 1, nlen).to_owned();
            Ok(FileDescriptor { source_directory: parent_dir, stem, extension, output_directory: None })
        },
        None => {
            if nlen == 0 {
                return Err(RmakeError::MissingStem);
            }
            Err(RmakeError::MissingExtension)
        },
    }
}

} // verus!

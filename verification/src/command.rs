//! The command builder: maps a debug level to a fixed compiler flag bundle,
//! dispatches on the file extension to a supported language, and assembles
//! the one shell command line that compiles the file into its per-language
//! output directory.

use vstd::prelude::*;

verus! {

use vstd::string::StringExecFns;

use crate::descriptor::{DescriptorView, FileDescriptor};
use crate::error::RmakeError;
use crate::text::str_eq;

/// The supported source languages, each carrying its compiler and its output
/// subdirectory convention.
#[derive(Clone, Copy, PartialEq, Eq, Structural, Debug)]
pub enum Language {
    C,
    Cpp,
}

impl Language {
    /// The compiler this language is built with.
    pub open spec fn compiler_spec(self) -> Seq<char> {
        match self {
            Language::C => "gcc"@,
            Language::Cpp => "g++"@,
        }
    }

    /// The extension a source file of this language carries.
    pub open spec fn source_ext_spec(self) -> Seq<char> {
        match self {
            Language::C => "c"@,
            Language::Cpp => "cpp"@,
        }
    }

    /// The name of the sibling directory that receives compiled binaries.
    pub open spec fn output_dir_name_spec(self) -> Seq<char> {
        match self {
            Language::C => "c-output"@,
            Language::Cpp => "cpp-output"@,
        }
    }

    pub fn compiler(self) -> (r: &'static str)
        ensures
            r@ == self.compiler_spec(),
    {
        match self {
            Language::C => "gcc",
            Language::Cpp => "g++",
        }
    }

    pub fn source_ext(self) -> (r: &'static str)
        ensures
            r@ == self.source_ext_spec(),
    {
        match self {
            Language::C => "c",
            Language::Cpp => "cpp",
        }
    }

    pub fn output_dir_name(self) -> (r: &'static str)
        ensures
            r@ == self.output_dir_name_spec(),
    {
        match self {
            Language::C => "c-output",
            Language::Cpp => "cpp-output",
        }
    }

    /// The language an extension dispatches to, if any.
    pub fn from_extension(ext: &str) -> (r: Result<Language, RmakeError>)
        ensures
            match r {
                Ok(lang) => language_of(ext@) == Some(lang),
                Err(RmakeError::UnsupportedExtension(x)) => {
                    &&& language_of(ext@) is None
                    &&& x@ == ext@
                },
                Err(_) => false,
            },
    {
        if str_eq(ext, "c") {
            Ok(Language::C)
        } else if str_eq(ext, "cpp") {
            Ok(Language::Cpp)
        } else {
            Err(RmakeError::UnsupportedExtension(ext.to_owned()))
        }
    }
}

/// Which language an extension selects: `c` and `cpp` are the supported ones.
pub open spec fn language_of(ext: Seq<char>) -> Option<Language> {
    if ext == "c"@ {
        Some(Language::C)
    } else if ext == "cpp"@ {
        Some(Language::Cpp)
    } else {
        None
    }
}

/// The fixed flag bundle each debug level selects; levels above 3 select
/// nothing.
pub open spec fn debug_flags_spec(debug: u8) -> Option<Seq<char>> {
    if debug == 0 {
        Some("-O3 -Wall -Wextra -lm -masm=intel "@)
    } else if debug == 1 {
        Some("-O1 -g -no-pie -lm -masm=intel "@)
    } else if debug == 2 {
        Some("-O0 -g -no-pie -fno-stack-protector -z execstack -lm -masm=intel "@)
    } else if debug == 3 {
        Some("-O0 -g -no-pie -fno-stack-protector -z execstack -z norelro -lm -masm=intel "@)
    } else {
        None
    }
}

/// The flag bundle for a debug level: level 0 optimizes, levels 1 through 3
/// trade optimization away for ever more debuggability. Levels above 3 are
/// rejected.
pub fn debug_flags(debug: u8) -> (r: Result<&'static str, RmakeError>)
    ensures
        match r {
            Ok(f) => debug_flags_spec(debug) == Some(f@),
            Err(e) => {
                &&& debug > 3
                &&& e == RmakeError::InvalidDebugLevel(debug)
            },
        },
        r is Ok <==> debug <= 3,
{
    match debug {
        0u8 => Ok("-O3 -Wall -Wextra -lm -masm=intel "),
        1u8 => Ok("-O1 -g -no-pie -lm -masm=intel "),
        2u8 => Ok("-O0 -g -no-pie -fno-stack-protector -z execstack -lm -masm=intel "),
        3u8 => Ok("-O0 -g -no-pie -fno-stack-protector -z execstack -z norelro -lm -masm=intel "),
        _ => Err(RmakeError::InvalidDebugLevel(debug)),
    }
}

/// The one shell command line that compiles `dir/stem.<ext>` into
/// `dir/<lang's output dir>/stem.out` with the given flags.
pub open spec fn command_spec(dir: Seq<char>, stem: Seq<char>, lang: Language, flags: Seq<char>) -> Seq<char> {
    lang.compiler_spec() + " "@ + dir + "/"@ + stem + "."@ + lang.source_ext_spec() + " -o "@
        + dir + "/"@ + lang.output_dir_name_spec() + "/"@ + stem + ".out "@ + flags
}

/// The output directory the builder records: the language's subdirectory
/// directly under the source directory.
pub open spec fn output_dir_spec(dir: Seq<char>, lang: Language) -> Seq<char> {
    dir + "/"@ + lang.output_dir_name_spec()
}

/// What one successful run of the command builder does: `before` dispatches
/// to a language, `debug` selects a flag bundle, `cmd` is the assembled
/// command line, and `after` is `before` with the output directory recorded.
pub open spec fn builds_to(before: DescriptorView, debug: u8, after: DescriptorView, cmd: Seq<char>) -> bool {
    &&& debug_flags_spec(debug) matches Some(flags)
    &&& language_of(before.extension) matches Some(lang)
    &&& cmd == command_spec(before.source_directory, before.stem, lang, flags)
    &&& after.source_directory == before.source_directory
    &&& after.stem == before.stem
    &&& after.extension == before.extension
    &&& after.output_directory == Some(output_dir_spec(before.source_directory, lang))
}

/// Builds the compiler command line for `desc` at the given debug level and
/// records the output directory in it. An out-of-range debug level is
/// rejected before the extension is looked at; an unsupported extension is
/// rejected next; either way the descriptor is left untouched.
pub fn build_command(desc: &mut FileDescriptor, debug: u8) -> (r: Result<String, RmakeError>)
    ensures
        match r {
            Ok(cmd) => builds_to(old(desc)@, debug, final(desc)@, cmd@),
            Err(e) => {
                &&& final(desc)@ == old(desc)@
                &&& if debug > 3 {
                    e == RmakeError::InvalidDebugLevel(debug)
                } else {
                    &&& language_of(old(desc)@.extension) is None
                    &&& e matches RmakeError::UnsupportedExtension(x) && x@ == old(desc)@.extension
                }
            },
        },
        r is Ok <==> debug <= 3 && language_of(old(desc)@.extension) is Some,
{
    let flags = match debug_flags(debug) {
        Ok(f) => f,
        Err(e) => {
            return Err(e);
        },
    };
    let lang = match Language::from_extension(desc.extension.as_str()) {
        Ok(l) => l,
        Err(e) => {
            return Err(e);
        },
    };

    let mut cmd = String::new();
    cmd.append(lang.compiler());
    cmd.append(" ");
    cmd.append(desc.source_directory.as_str());
    cmd.append("/");
    cmd.append(desc.stem.as_str());
    cmd.append(".");
    cmd.append(lang.source_ext());
    cmd.append(" -o ");
    cmd.append(desc.source_directory.as_str());
    cmd.append("/");
    cmd.append(lang.output_dir_name());
    cmd.append("/");
    cmd.append(desc.stem.as_str());
    cmd.append(".out ");
    cmd.append(flags);

    let mut out_dir = String::new();
    out_dir.append(desc.source_directory.as_str());
    out_dir.append("/");
    out_dir.append(lang.output_dir_name());

    proof {
        assert(cmd@ =~= command_spec(
            old(desc)@.source_directory,
            old(desc)@.stem,
            lang,
            debug_flags_spec(debug)->0,
        ));
        assert(out_dir@ =~= output_dir_spec(old(desc)@.source_directory, lang));
    }
    desc.output_directory = Some(out_dir);
    Ok(cmd)
}

/// Running the command builder a second time, on the descriptor the first
/// run produced and with the same debug level, yields the same command line
/// and the same descriptor: recording the output directory again changes
/// nothing.
pub proof fn lemma_builder_idempotent(
    d0: DescriptorView,
    d1: DescriptorView,
    d2: DescriptorView,
    debug: u8,
    cmd1: Seq<char>,
    cmd2: Seq<char>,
)
    requires
        builds_to(d0, debug, d1, cmd1),
        builds_to(d1, debug, d2, cmd2),
    ensures
        cmd1 == cmd2,
        d1.source_directory == d2.source_directory,
        d1.stem == d2.stem,
        d1.extension == d2.extension,
        d1.output_directory == d2.output_directory,
{
}

} // verus!

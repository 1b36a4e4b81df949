use rmake::command::{build_command, debug_flags, Language};
use rmake::descriptor::FileDescriptor;
use rmake::error::RmakeError;

fn descriptor(dir: &str, stem: &str, ext: &str) -> FileDescriptor {
    FileDescriptor {
        source_directory: dir.to_string(),
        stem: stem.to_string(),
        extension: ext.to_string(),
        output_directory: None,
    }
}

#[test]
fn unsupported_extension_is_rejected() {
    let mut d = descriptor("/tmp", "test2", "a");
    assert_eq!(
        build_command(&mut d, 1),
        Err(RmakeError::UnsupportedExtension("a".to_string()))
    );
    // The descriptor is left untouched.
    assert_eq!(d, descriptor("/tmp", "test2", "a"));

    let mut d = descriptor("/tmp", "lib", "rs");
    assert_eq!(
        build_command(&mut d, 0),
        Err(RmakeError::UnsupportedExtension("rs".to_string()))
    );
}

#[test]
fn out_of_range_debug_level_is_rejected() {
    for level in [4u8, 5, 100, 255] {
        let mut d = descriptor("/tmp", "main", "c");
        assert_eq!(build_command(&mut d, level), Err(RmakeError::InvalidDebugLevel(level)));
        assert_eq!(d.output_directory, None);
    }
}

#[test]
fn debug_level_is_checked_before_extension() {
    // The flag table is consulted first, so a bad level wins over a bad
    // extension.
    let mut d = descriptor("/tmp", "x", "java");
    assert_eq!(build_command(&mut d, 9), Err(RmakeError::InvalidDebugLevel(9)));
}

#[test]
fn flag_bundles_are_fixed() {
    assert_eq!(debug_flags(0), Ok("-O3 -Wall -Wextra -lm -masm=intel "));
    assert_eq!(debug_flags(1), Ok("-O1 -g -no-pie -lm -masm=intel "));
    assert_eq!(
        debug_flags(2),
        Ok("-O0 -g -no-pie -fno-stack-protector -z execstack -lm -masm=intel ")
    );
    assert_eq!(
        debug_flags(3),
        Ok("-O0 -g -no-pie -fno-stack-protector -z execstack -z norelro -lm -masm=intel ")
    );
    assert_eq!(debug_flags(4), Err(RmakeError::InvalidDebugLevel(4)));
}

#[test]
fn c_file_compiles_with_gcc() {
    let mut d = descriptor("/tmp", "main", "c");
    let cmd = build_command(&mut d, 0).unwrap();
    assert_eq!(
        cmd,
        "gcc /tmp/main.c -o /tmp/c-output/main.out -O3 -Wall -Wextra -lm -masm=intel "
    );
    assert_eq!(d.output_directory, Some("/tmp/c-output".to_string()));
}

#[test]
fn cpp_file_compiles_with_gpp() {
    let mut d = descriptor("/home/user", "prog", "cpp");
    let cmd = build_command(&mut d, 1).unwrap();
    assert_eq!(
        cmd,
        "g++ /home/user/prog.cpp -o /home/user/cpp-output/prog.out -O1 -g -no-pie -lm -masm=intel "
    );
    assert_eq!(d.output_directory, Some("/home/user/cpp-output".to_string()));
}

#[test]
fn building_twice_changes_nothing() {
    let mut d = descriptor("/tmp", "main", "c");
    let first = build_command(&mut d, 2).unwrap();
    let after_first = d.clone();
    let second = build_command(&mut d, 2).unwrap();
    assert_eq!(first, second);
    assert_eq!(d, after_first);
}

#[test]
fn language_dispatch() {
    assert_eq!(Language::from_extension("c"), Ok(Language::C));
    assert_eq!(Language::from_extension("cpp"), Ok(Language::Cpp));
    assert_eq!(
        Language::from_extension("cc"),
        Err(RmakeError::UnsupportedExtension("cc".to_string()))
    );
    assert_eq!(Language::C.compiler(), "gcc");
    assert_eq!(Language::Cpp.compiler(), "g++");
    assert_eq!(Language::C.output_dir_name(), "c-output");
    assert_eq!(Language::Cpp.output_dir_name(), "cpp-output");
}

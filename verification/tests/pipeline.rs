use rmake::error::RmakeError;
use rmake::{after_file, plan, Plan};

#[test]
fn planning_a_c_file() {
    // The scenario behind `main.c` at debug level 0: the command compiles it
    // into a `c-output` directory beside the source.
    let p: Plan = plan("/work/main.c", true, "/work".to_string(), 0, false).unwrap();
    assert_eq!(
        p.command,
        "gcc /work/main.c -o /work/c-output/main.out -O3 -Wall -Wextra -lm -masm=intel "
    );
    assert_eq!(p.descriptor.source_directory, "/work");
    assert_eq!(p.descriptor.stem, "main");
    assert_eq!(p.descriptor.extension, "c");
    assert_eq!(p.descriptor.output_directory, Some("/work/c-output".to_string()));
}

#[test]
fn planning_a_cpp_file() {
    let p = plan("./prog.cpp", true, "/cwd".to_string(), 0, false).unwrap();
    assert_eq!(
        p.command,
        "g++ /cwd/prog.cpp -o /cwd/cpp-output/prog.out -O3 -Wall -Wextra -lm -masm=intel "
    );
    assert_eq!(p.descriptor.output_directory, Some("/cwd/cpp-output".to_string()));
}

#[test]
fn plan_propagates_resolution_errors() {
    assert_eq!(
        plan("./test1.c", false, String::new(), 1, true),
        Err(RmakeError::NotFound("./test1.c".to_string()))
    );
    assert_eq!(
        plan("./.a", true, "/cwd".to_string(), 0, true),
        Err(RmakeError::MissingStem)
    );
    assert_eq!(
        plan("./test2", true, "/cwd".to_string(), 1, true),
        Err(RmakeError::MissingExtension)
    );
    assert_eq!(
        plan("./test2.a", true, "/cwd".to_string(), 1, true),
        Err(RmakeError::UnsupportedExtension("a".to_string()))
    );
}

#[test]
fn plan_rejects_out_of_range_debug_levels() {
    assert_eq!(
        plan("/work/main.c", true, "/work".to_string(), 4, false),
        Err(RmakeError::InvalidDebugLevel(4))
    );
    // The level is checked before the extension.
    assert_eq!(
        plan("/work/main.xyz", true, "/work".to_string(), 7, false),
        Err(RmakeError::InvalidDebugLevel(7))
    );
}

#[test]
fn detailed_mode_is_not_implemented() {
    assert_eq!(
        plan("/work/main.c", true, "/work".to_string(), 0, true),
        Err(RmakeError::NotImplemented)
    );
    // Earlier checks still take precedence over the detailed-mode policy.
    assert_eq!(
        plan("/work/main.c", true, "/work".to_string(), 9, true),
        Err(RmakeError::InvalidDebugLevel(9))
    );
}

#[test]
fn first_failure_stops_the_run() {
    // Two files on one invocation; the first fails to compile, so the second
    // is never attempted and the process exits with code 1.
    let files = ["broken.c", "fine.c"];
    let mut attempted = 0;
    let mut exit_code = None;
    for _file in files {
        attempted += 1;
        let outcome: Result<(), RmakeError> =
            Err(RmakeError::CompileError("broken.c:1: error\n".to_string()));
        if let Some(code) = after_file(&outcome) {
            exit_code = Some(code);
            break;
        }
    }
    assert_eq!(attempted, 1);
    assert_eq!(exit_code, Some(1));
}

#[test]
fn successful_files_continue_the_run() {
    assert_eq!(after_file(&Ok(())), None);
    assert_eq!(after_file(&Err(RmakeError::MissingStem)), Some(1));
}

use rmake::error::RmakeError;
use rmake::invoke::{classify_compile, CompileStatus};

#[test]
fn failing_compile_surfaces_stderr() {
    let diagnostic = "broken.c:3:5: error: expected ';' before '}' token\n";
    let r = classify_compile(false, diagnostic.as_bytes().to_vec());
    assert_eq!(r, Err(RmakeError::CompileError(diagnostic.to_string())));
}

#[test]
fn clean_compile_succeeds() {
    assert_eq!(classify_compile(true, Vec::new()), Ok(CompileStatus::Clean));
}

#[test]
fn warnings_do_not_fail_the_compile() {
    let text = "main.c:5:9: warning: unused variable 'x'\n";
    let r = classify_compile(true, text.as_bytes().to_vec());
    assert_eq!(r, Ok(CompileStatus::Warnings(text.to_string())));
}

#[test]
fn invalid_stderr_bytes_fail_encoding() {
    assert_eq!(classify_compile(true, vec![0xff, 0xfe]), Err(RmakeError::EncodingError));
    // Encoding is checked before the exit status is looked at.
    assert_eq!(classify_compile(false, vec![0xc0, 0x00]), Err(RmakeError::EncodingError));
}

#[test]
fn test_compile_quickly() {
}

use pug_cli::process_output;
use pug_cli::CompileError;

#[test]
fn empty_error_stream_is_success() {
    let r = process_output(Ok((b"<h1>hello pug</h1>".to_vec(), Vec::new())));
    assert_eq!(r.unwrap(), "<h1>hello pug</h1>");
}

#[test]
fn error_stream_text_is_carried_exactly() {
    let r = process_output(Ok((Vec::new(), b"Error: unexpected token\n".to_vec())));
    match r {
        Err(CompileError::PugError(m)) => assert_eq!(m, "Error: unexpected token\n"),
        _ => panic!("a non-empty error stream must classify as PugError"),
    }
}

#[test]
fn error_stream_wins_over_output() {
    let r = process_output(Ok((b"partial output".to_vec(), b"oops".to_vec())));
    match r {
        Err(CompileError::PugError(m)) => assert_eq!(m, "oops"),
        _ => panic!("a non-empty error stream must classify as PugError"),
    }
}

#[test]
fn invalid_output_bytes_are_replaced_not_rejected() {
    let r = process_output(Ok((vec![0xff, 0xfe], Vec::new())));
    assert_eq!(r.unwrap(), "\u{fffd}\u{fffd}");
}

#[test]
fn invalid_error_bytes_are_replaced_not_rejected() {
    let r = process_output(Ok((Vec::new(), vec![0xc3, 0x28])));
    match r {
        Err(CompileError::PugError(m)) => assert_eq!(m, "\u{fffd}("),
        _ => panic!("a non-empty error stream must classify as PugError"),
    }
}

#[test]
fn platform_error_classifies_as_io() {
    let e = std::io::Error::new(std::io::ErrorKind::NotFound, "no such file");
    let r = process_output(Err(e));
    assert!(matches!(r, Err(CompileError::Io(_))));
}

#[test]
fn describe_returns_the_compiler_diagnostic() {
    let e = CompileError::PugError(String::from("bad indent"));
    assert_eq!(e.describe(), "bad indent");
}

#[test]
fn describe_io_uses_the_platform_description() {
    let e = CompileError::Io(std::io::Error::new(std::io::ErrorKind::NotFound, "gone"));
    assert!(!e.describe().is_empty());
}

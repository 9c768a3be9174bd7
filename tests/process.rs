use engage_shell::process::{command_output, launch_failure_message};

#[test]
fn echo_output_is_decoded() {
    let out = command_output(true, b"hi\n", b"");
    assert!(out.success);
    assert!(out.stdout.contains("hi"));
    assert_eq!(out.stdout, "hi\n");
    assert_eq!(out.stderr, "");
}

#[test]
fn failed_exit_is_reported() {
    let out = command_output(false, b"", b"boom");
    assert!(!out.success);
    assert_eq!(out.stderr, "boom");
}

#[test]
fn invalid_bytes_are_replaced() {
    let out = command_output(true, &[b'a', 0xff, b'b'], &[0xc3]);
    assert_eq!(out.stdout, "a\u{FFFD}b");
    assert_eq!(out.stderr, "\u{FFFD}");
}

#[test]
fn launch_failure_names_command() {
    let m = launch_failure_message("__nonexistent_binary__", "No such file or directory (os error 2)");
    assert!(m.contains("__nonexistent_binary__"));
    assert_eq!(
        m,
        "Failed to execute command '__nonexistent_binary__': No such file or directory (os error 2)"
    );
}

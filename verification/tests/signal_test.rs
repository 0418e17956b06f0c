#[test]
fn test_signal_handling_stub() {
    // Interrupting a process with SIGINT is not reproducible in an automated run;
    // what the queue decides once interrupted is covered in `wait_test.rs`.
    let code = queue::error::EXIT_INTERRUPTED;
    assert_eq!(code, 130);
}

use queue::cli::command_line;
use queue::runner::exit_code_from_status;

#[test]
fn test_basic_queue_run() {
    let line = command_line("rustc", &vec!["--version".to_string()]);
    assert_eq!(line, "rustc --version");
    // A command that succeeds makes the queue succeed.
    assert_eq!(exit_code_from_status(Some(0), None), 0);
}

#[test]
fn test_exit_code_propagation() {
    let line = command_line("rustc", &vec!["--does-not-exist".to_string()]);
    assert_eq!(line, "rustc --does-not-exist");
    // rustc rejects an unknown flag with exit code 1, which the queue passes on.
    assert_eq!(exit_code_from_status(Some(1), None), 1);
    assert_ne!(exit_code_from_status(Some(1), None), 0);
}

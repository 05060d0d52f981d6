use worktrunk::error::{GitError, WorktrunkError};
use worktrunk::process::{child_exit_error, command_io_error, streaming_command};

#[test]
fn commands_can_send_output_to_stderr() {
    assert_eq!(streaming_command("make", true), "{ make\n} 1>&2");
    assert_eq!(streaming_command("make", false), "make");
}

#[test]
fn child_failures_become_exit_errors() {
    assert!(child_exit_error(None, true, Some(0)).is_none());
    match child_exit_error(Some(2), false, None) {
        Some(WorktrunkError::ChildProcessExited { code, message }) => {
            assert_eq!(code, 130);
            assert_eq!(message, "terminated by signal 2");
        }
        _ => panic!("expected a signal exit"),
    }
    match child_exit_error(None, false, Some(3)) {
        Some(WorktrunkError::ChildProcessExited { code, message }) => {
            assert_eq!(code, 3);
            assert_eq!(message, "exit status: 3");
        }
        _ => panic!("expected an exit status"),
    }
    match child_exit_error(None, false, None) {
        Some(WorktrunkError::ChildProcessExited { code, message }) => {
            assert_eq!(code, 1);
            assert_eq!(message, "exit status: 1");
        }
        _ => panic!("expected an exit status"),
    }
    match child_exit_error(None, false, Some(-4)) {
        Some(WorktrunkError::ChildProcessExited { message, .. }) => assert_eq!(message, "exit status: -4"),
        _ => panic!("expected an exit status"),
    }
}

#[test]
fn io_errors_name_the_step() {
    match command_io_error("execute", "not found") {
        GitError::Other { message } => assert_eq!(message, "Failed to execute command: not found"),
        _ => panic!("expected Other"),
    }
}

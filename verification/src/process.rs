//! Running commands in a worktree: the shell command line, and the error a
//! finished child process turns into.

use vstd::prelude::*;
use crate::error::{GitError, WorktrunkError};
use crate::text::{i32_string, push_str, signed_decimal};

verus! {

/// The shell command that runs `command`; with `redirect_stdout_to_stderr`
/// it is wrapped as `{ command` newline `} 1>&2`, so that multi-line commands
/// keep working and all their output goes to stderr.
pub fn streaming_command(command: &str, redirect_stdout_to_stderr: bool) -> (res: String)
    ensures
        res@ == (if redirect_stdout_to_stderr { "{ "@ + command@ + "\n} 1>&2"@ } else { command@ }),
{
    if redirect_stdout_to_stderr {
        let mut c = "{ ".to_owned();
        push_str(&mut c, command);
        push_str(&mut c, "\n} 1>&2");
        c
    } else {
        command.to_owned()
    }
}

/// The error a finished child process turns into: killed by a signal (exit
/// code 128 plus the signal), or a non-zero exit status (its code, 1 when
/// there is none); none when it succeeded.
pub open spec fn child_error(signal: Option<i32>, success: bool, code: Option<i32>) -> Option<(int, Seq<char>)> {
    match signal {
        Some(sig) => Some((128 + sig, "terminated by signal "@ + signal_decimal_of(sig))),
        None => if success {
            None
        } else {
            let c = match code { Some(c) => c as int, None => 1 };
            Some((c, "exit status: "@ + signed_decimal(c)))
        },
    }
}

/// The decimal representation of a signal number.
pub open spec fn signal_decimal_of(sig: i32) -> Seq<char> {
    signed_decimal(sig as int)
}

/// The error of a finished child process, if it failed.
pub fn child_exit_error(signal: Option<i32>, success: bool, code: Option<i32>) -> (res: Option<WorktrunkError>)
    requires
        signal matches Some(sig) ==> sig <= i32::MAX - 128,
    ensures
        match (res, child_error(signal, success, code)) {
            (Some(WorktrunkError::ChildProcessExited { code: c, message }), Some((ec, em))) => c as int == ec && message@ == em,
            (None, None) => true,
            _ => false,
        },
{
    match signal {
        Some(sig) => {
            let mut m = "terminated by signal ".to_owned();
            let d = i32_string(sig);
            push_str(&mut m, d.as_str());
            Some(WorktrunkError::ChildProcessExited { code: 128 + sig, message: m })
        },
        None => {
            if success {
                None
            } else {
                let c = match code {
                    Some(c) => c,
                    None => 1,
                };
                let mut m = "exit status: ".to_owned();
                let d = i32_string(c);
                push_str(&mut m, d.as_str());
                Some(WorktrunkError::ChildProcessExited { code: c, message: m })
            }
        },
    }
}

/// The error when a command could not be started or waited for: `what` is
/// `execute` or `wait for`.
pub fn command_io_error(what: &str, detail: &str) -> (res: GitError)
    ensures
        res matches GitError::Other { message } && message@ == "Failed to "@ + what@ + " command: "@ + detail@,
{
    let mut m = "Failed to ".to_owned();
    push_str(&mut m, what);
    push_str(&mut m, " command: ");
    push_str(&mut m, detail);
    GitError::Other { message: m }
}

} // verus!

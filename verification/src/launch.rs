use vstd::prelude::*;

use crate::error::{Error, ErrorKind};

verus! {

/// How a command that ran to its end exited: whether it reported success,
/// and the text of its exit status.
#[derive(Debug)]
pub struct ExitReport {
    pub success: bool,
    pub status: String,
}

/// What follows one attempt to launch: the answer to give, or a move to the
/// next launcher, carrying the message of the error that this one met.
#[derive(Debug)]
pub enum LaunchStep {
    Done(Result<(), Error>),
    TryNext(String),
}

/// Whether `r` is an error of kind `kind` with message `message`.
pub open spec fn is_error(r: Result<(), Error>, kind: ErrorKind, message: Seq<char>) -> bool {
    &&& r is Err
    &&& r->Err_0.spec_kind() == kind
    &&& r->Err_0.spec_message() == message
}

/// The message of a command that exited with failure: the command's text
/// and, in parentheses, its exit status.
pub open spec fn failed_command_message(command_text: Seq<char>, status: Seq<char>) -> Seq<char> {
    command_text + " ("@ + status + ")"@
}

/// The answer for a command that was run: `Ok` where it ran and reported
/// success; a `COMMAND_FAILED` error naming the command and its status where
/// it ran and reported failure; an `IO` error with the error's message where
/// it could not be run.
pub fn into_result(outcome: Result<ExitReport, String>, command_text: &str) -> (r: Result<(), Error>)
    ensures
        match outcome {
            Ok(report) => if report.success {
                r is Ok
            } else {
                is_error(r, ErrorKind::COMMAND_FAILED, failed_command_message(command_text@, report.status@))
            },
            Err(message) => is_error(r, ErrorKind::IO, message@),
        },
{
    match outcome {
        Ok(report) => {
            if report.success {
                Ok(())
            } else {
                let mut text = String::from_str(command_text);
                text.append(" (");
                text.append(report.status.as_str());
                text.append(")");
                Err(Error::new(ErrorKind::COMMAND_FAILED, text.as_str()))
            }
        },
        Err(message) => Err(Error::new(ErrorKind::IO, message.as_str())),
    }
}

/// The step after running one of the commands that open a path and waiting
/// for it: where it ran, its exit decides the answer; where it could not be
/// run, the next launcher is tried.
pub fn that_step(outcome: Result<ExitReport, String>, command_text: &str) -> (step: LaunchStep)
    ensures
        match outcome {
            Ok(report) => step matches LaunchStep::Done(r) && if report.success {
                r is Ok
            } else {
                is_error(r, ErrorKind::COMMAND_FAILED, failed_command_message(command_text@, report.status@))
            },
            Err(message) => step matches LaunchStep::TryNext(m) && m@ == message@,
        },
{
    match outcome {
        Ok(report) => LaunchStep::Done(into_result(Ok(report), command_text)),
        Err(message) => LaunchStep::TryNext(message),
    }
}

/// The step after starting one of the commands detached: where it started,
/// the answer is `Ok`; where it could not be started, the next launcher is
/// tried.
pub fn detached_step(outcome: Result<(), String>) -> (step: LaunchStep)
    ensures
        match outcome {
            Ok(()) => step matches LaunchStep::Done(r) && r is Ok,
            Err(message) => step matches LaunchStep::TryNext(m) && m@ == message@,
        },
{
    match outcome {
        Ok(()) => LaunchStep::Done(Ok(())),
        Err(message) => LaunchStep::TryNext(message),
    }
}

/// The error given once every launcher was tried and none answered: a
/// `NO_LAUNCHER` error with an empty message where there was none to try,
/// else an `IO` error with the message of the last one's error.
pub fn no_launcher_worked(last_error: Option<String>) -> (e: Error)
    ensures
        match last_error {
            None => e.spec_kind() == ErrorKind::NO_LAUNCHER && e.spec_message() == Seq::<char>::empty(),
            Some(m) => e.spec_kind() == ErrorKind::IO && e.spec_message() == m@,
        },
{
    match last_error {
        None => {
            proof {
                reveal_strlit("");
            }
            Error::new(ErrorKind::NO_LAUNCHER, "")
        },
        Some(m) => Error::new(ErrorKind::IO, m.as_str()),
    }
}

/// The answer of the system call that opens a file: it returns 1 on
/// success; otherwise the answer is an `IO` error with the system's message.
pub fn shell_execute_result(returned: isize, os_error: &str) -> (r: Result<(), Error>)
    ensures
        returned == 1 ==> r is Ok,
        returned != 1 ==> is_error(r, ErrorKind::IO, os_error@),
{
    if returned == 1 {
        Ok(())
    } else {
        Err(Error::new(ErrorKind::IO, os_error))
    }
}

/// The answer of the system call that shows a folder with items selected:
/// it returns 0 on success; otherwise the answer is an `IO` error with the
/// message that the system gives for the code returned.
pub fn open_folder_result(code: i32, os_error: &str) -> (r: Result<(), Error>)
    ensures
        code == 0 ==> r is Ok,
        code != 0 ==> is_error(r, ErrorKind::IO, os_error@),
{
    if code == 0 {
        Ok(())
    } else {
        Err(Error::new(ErrorKind::IO, os_error))
    }
}

} // verus!

//! What every command shares: the kinds of failure and how a run ends.

use vstd::prelude::*;

verus! {

/// Why a command did not do its work.
#[derive(Debug)]
pub enum Failure {
    /// The project's configuration lacks something or contradicts itself.
    Configuration(String),
    /// An external tool could not be started or did not end well.
    ToolInvocation(crate::process::ProcessError),
    /// The log stream is malformed.
    Protocol(String),
    /// The operator asked the program to stop.
    Interruption(crate::signal::Signals),
    /// A log destination or the byte source failed.
    Io(String),
}

impl Failure {
    /// The text of the failure.
    pub open spec fn message_of(&self) -> Seq<char> {
        match self {
            Failure::Configuration(text) => text@,
            Failure::ToolInvocation(error) => error.message_of(),
            Failure::Protocol(text) => "log parser failure: "@ + text@,
            Failure::Interruption(_) => "signal"@,
            Failure::Io(text) => text@,
        }
    }

    /// Returns the text of the failure.
    pub fn message(&self) -> (text: String)
        ensures
            text@ == self.message_of(),
    {
        match self {
            Failure::Configuration(text) => text.clone(),
            Failure::ToolInvocation(error) => error.message(),
            Failure::Protocol(text) => {
                let mut message = String::from_str("log parser failure: ");
                message.append(text.as_str());
                message
            },
            Failure::Interruption(_) => String::from_str("signal"),
            Failure::Io(text) => text.clone(),
        }
    }

    /// Returns whether the failure is the operator's request to stop.
    pub fn is_interruption(&self) -> (interrupted: bool)
        ensures
            interrupted == (self is Interruption),
    {
        match self {
            Failure::Interruption(_) => true,
            _ => false,
        }
    }
}

/// The result of a race against the operator's signals as the result of a
/// command: the operation's own result stays, an interruption becomes the
/// failure that stands for the operator's request.
pub open spec fn settled<T>(
    result: Result<T, crate::signal::OperationError<Failure>>,
) -> Result<T, Failure> {
    match result {
        Ok(value) => Ok(value),
        Err(crate::signal::OperationError::Failed(failure)) => Err(failure),
        Err(crate::signal::OperationError::Interrupted(signal)) => Err(
            Failure::Interruption(signal),
        ),
    }
}

/// Returns the result of a race as the result of a command.
pub fn settle<T>(result: Result<T, crate::signal::OperationError<Failure>>) -> (outcome: Result<
    T,
    Failure,
>)
    ensures
        outcome == settled(result),
{
    match result {
        Ok(value) => Ok(value),
        Err(crate::signal::OperationError::Failed(failure)) => Err(failure),
        Err(crate::signal::OperationError::Interrupted(signal)) => Err(
            Failure::Interruption(signal),
        ),
    }
}

/// How the program ends: its exit code and what it reports before it goes.
#[derive(Debug)]
pub struct Exit {
    /// The exit code.
    pub code: i32,
    /// The error to print, where there is one to print.
    pub report: Option<String>,
}

/// Decides how the program ends on the result of its command: code 0 and
/// no report on success; code 1 and no report where the operator stopped
/// the program; code 1 and the failure's text on any other failure.
pub fn run_wrapper(result: &Result<(), Failure>) -> (exit: Exit)
    ensures
        match result {
            Ok(_) => exit.code == 0 && exit.report is None,
            Err(failure) => exit.code == 1 && if failure is Interruption {
                exit.report is None
            } else {
                exit.report matches Some(text) && text@ == failure.message_of()
            },
        },
{
    match result {
        Ok(_) => Exit { code: 0, report: None },
        Err(failure) => {
            if failure.is_interruption() {
                Exit { code: 1, report: None }
            } else {
                Exit { code: 1, report: Some(failure.message()) }
            }
        },
    }
}

} // verus!

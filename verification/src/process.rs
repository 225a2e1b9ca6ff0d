//! External programs: how one is invoked and how its end is judged.

use vstd::prelude::*;

verus! {

/// A program and the arguments it is started with.
#[derive(Debug)]
pub struct CommandLine {
    /// The program to start.
    pub program: String,
    /// Its arguments, in order.
    pub args: Vec<String>,
}

/// A text between double quotes.
pub open spec fn quoted(text: Seq<char>) -> Seq<char> {
    seq!['"'] + text + seq!['"']
}

/// The quoted arguments, each led by a blank.
pub open spec fn quoted_args(args: Seq<Seq<char>>) -> Seq<char>
    decreases args.len(),
{
    if args.len() == 0 {
        Seq::empty()
    } else {
        quoted_args(args.drop_last()) + seq![' '] + quoted(args.last())
    }
}

/// How a command is named in messages: the program and each argument
/// between double quotes, with blanks between them.
pub open spec fn description_of(program: Seq<char>, args: Seq<Seq<char>>) -> Seq<char> {
    quoted(program) + quoted_args(args)
}

impl CommandLine {
    /// The arguments as texts.
    pub open spec fn arguments(&self) -> Seq<Seq<char>> {
        crate::text::views(self.args@)
    }

    /// Returns the invocation of `program` without arguments.
    pub fn new(program: &str) -> (command: CommandLine)
        ensures
            command.program@ == program@,
            command.arguments() == Seq::<Seq<char>>::empty(),
    {
        let command = CommandLine { program: String::from_str(program), args: Vec::new() };
        assert(command.arguments() =~= Seq::<Seq<char>>::empty());
        command
    }

    /// Adds one argument at the end.
    pub fn arg(&mut self, arg: &str)
        ensures
            final(self).program == old(self).program,
            final(self).arguments() == old(self).arguments().push(arg@),
    {
        self.args.push(String::from_str(arg));
        assert(self.arguments() =~= old(self).arguments().push(arg@));
    }

    /// Adds the arguments at the end, in their order.
    pub fn args(&mut self, args: &Vec<String>)
        ensures
            final(self).program == old(self).program,
            final(self).arguments() == old(self).arguments() + crate::text::views(args@),
    {
        let mut at: usize = 0;
        assert(crate::text::views(args@).take(0) =~= Seq::<Seq<char>>::empty());
        assert(self.arguments() + Seq::<Seq<char>>::empty() =~= self.arguments());
        while at < args.len()
            invariant
                at <= args.len(),
                self.program == old(self).program,
                self.arguments() == old(self).arguments() + crate::text::views(args@).take(
                    at as int,
                ),
            decreases args.len() - at,
        {
            let ghost before = self.arguments();
            self.args.push(args[at].clone());
            at += 1;
            proof {
                let texts = crate::text::views(args@);
                assert(self.arguments() =~= before.push(texts[at - 1]));
                assert(texts.take(at as int) =~= texts.take(at - 1).push(texts[at - 1]));
                assert(self.arguments() =~= old(self).arguments() + texts.take(at as int));
            }
        }
        assert(crate::text::views(args@).take(at as int) =~= crate::text::views(args@));
    }

    /// Returns the name of the command for messages.
    pub fn describe(&self) -> (text: String)
        ensures
            text@ == description_of(self.program@, self.arguments()),
    {
        let mut text = String::new();
        text.push('"');
        text.append(self.program.as_str());
        text.push('"');
        assert(text@ =~= quoted(self.program@));
        let ghost texts = self.arguments();
        let mut at: usize = 0;
        assert(texts.take(0) =~= Seq::<Seq<char>>::empty());
        assert(text@ =~= quoted(self.program@) + quoted_args(texts.take(0)));
        while at < self.args.len()
            invariant
                at <= self.args.len(),
                texts == self.arguments(),
                text@ == quoted(self.program@) + quoted_args(texts.take(at as int)),
            decreases self.args.len() - at,
        {
            let ghost before = text@;
            text.push(' ');
            text.push('"');
            text.append(self.args[at].as_str());
            text.push('"');
            at += 1;
            proof {
                assert(texts.take(at as int).drop_last() =~= texts.take(at - 1));
                assert(texts.take(at as int).last() == self.args@[at - 1]@);
                assert(text@ =~= before + seq![' '] + quoted(self.args@[at - 1]@));
                assert(text@ =~= quoted(self.program@) + quoted_args(texts.take(at as int)));
            }
        }
        assert(texts.take(at as int) =~= texts);
        text
    }
}

/// How an external program ended.
#[derive(Debug)]
pub enum ProcessOutcome {
    /// It exited with status zero.
    Success,
    /// It exited with this status.
    ExitCode(i32),
    /// A signal ended it; it left no status.
    KilledBySignal,
    /// It could not be started, for this cause.
    SpawnFailed(String),
}

/// Why an external program counts as failed.
#[derive(Debug)]
pub enum ProcessError {
    /// The command exited with a status other than zero.
    ExitCode(i32, String),
    /// The command was ended by a signal.
    Signalled(String),
    /// The command could not be started, for the cause given last.
    SpawnFailed(String, String),
}

impl ProcessError {
    /// The text of the error.
    pub open spec fn message_of(&self) -> Seq<char> {
        match self {
            ProcessError::ExitCode(code, command) => seq!['`'] + command@
                + "` exited with status code: "@ + crate::text::signed_decimal_of(*code as int),
            ProcessError::Signalled(command) => seq!['`'] + command@ + "` terminated by signal"@,
            ProcessError::SpawnFailed(command, cause) => seq!['`'] + command@
                + "` failed to execute: "@ + cause@,
        }
    }

    /// Returns the text of the error.
    pub fn message(&self) -> (text: String)
        ensures
            text@ == self.message_of(),
    {
        let mut text = String::new();
        text.push('`');
        match self {
            ProcessError::ExitCode(code, command) => {
                text.append(command.as_str());
                text.append("` exited with status code: ");
                crate::text::push_signed(&mut text, *code);
            },
            ProcessError::Signalled(command) => {
                text.append(command.as_str());
                text.append("` terminated by signal");
            },
            ProcessError::SpawnFailed(command, cause) => {
                text.append(command.as_str());
                text.append("` failed to execute: ");
                text.append(cause.as_str());
            },
        }
        assert(text@ =~= self.message_of());
        text
    }
}

/// Judges how the command ended: a zero status is success, another status,
/// a signal and a failed start are each an error of their own that names the
/// command.
pub fn run_command(outcome: ProcessOutcome, command: &CommandLine) -> (result: Result<
    (),
    ProcessError,
>)
    ensures
        match outcome {
            ProcessOutcome::Success => result is Ok,
            ProcessOutcome::ExitCode(code) => if code == 0 {
                result is Ok
            } else {
                result matches Err(ProcessError::ExitCode(status, name)) && status == code
                    && name@ == description_of(command.program@, command.arguments())
            },
            ProcessOutcome::KilledBySignal => result matches Err(ProcessError::Signalled(name))
                && name@ == description_of(command.program@, command.arguments()),
            ProcessOutcome::SpawnFailed(cause) => result matches Err(
                ProcessError::SpawnFailed(name, reason),
            ) && name@ == description_of(command.program@, command.arguments()) && reason@
                == cause@,
        },
{
    match outcome {
        ProcessOutcome::Success => Ok(()),
        ProcessOutcome::ExitCode(code) => {
            if code == 0 {
                Ok(())
            } else {
                Err(ProcessError::ExitCode(code, command.describe()))
            }
        },
        ProcessOutcome::KilledBySignal => Err(ProcessError::Signalled(command.describe())),
        ProcessOutcome::SpawnFailed(cause) => Err(
            ProcessError::SpawnFailed(command.describe(), cause),
        ),
    }
}

/// Judges the start of a command that is to run on its own: a start that
/// failed, for the cause given, is an error that names the command.
pub fn spawn_command(failed: Option<String>, command: &CommandLine) -> (result: Result<
    (),
    ProcessError,
>)
    ensures
        match failed {
            None => result is Ok,
            Some(cause) => result matches Err(ProcessError::SpawnFailed(name, reason)) && name@
                == description_of(command.program@, command.arguments()) && reason@ == cause@,
        },
{
    match failed {
        None => Ok(()),
        Some(cause) => Err(ProcessError::SpawnFailed(command.describe(), cause)),
    }
}

} // verus!

use drone::process::{run_command, spawn_command, CommandLine, ProcessError, ProcessOutcome};
use drone::signal::{OperationError, Signals};
use drone::utils::{run_wrapper, settle, Failure};

fn linker() -> CommandLine {
    let mut command = CommandLine::new("rust-lld");
    command.arg("-flavor");
    command.args(&vec!["gnu".to_string(), "main.o".to_string()]);
    command
}

#[test]
fn a_command_line_keeps_its_arguments_in_order() {
    let command = linker();
    assert_eq!(command.program, "rust-lld");
    assert_eq!(command.args, vec!["-flavor", "gnu", "main.o"]);
    assert_eq!(command.describe(), "\"rust-lld\" \"-flavor\" \"gnu\" \"main.o\"");
    assert_eq!(CommandLine::new("gdb").describe(), "\"gdb\"");
}

#[test]
fn a_zero_status_is_success() {
    assert!(run_command(ProcessOutcome::Success, &linker()).is_ok());
    assert!(run_command(ProcessOutcome::ExitCode(0), &linker()).is_ok());
}

#[test]
fn another_status_is_an_error_with_the_code() {
    match run_command(ProcessOutcome::ExitCode(2), &linker()) {
        Err(ProcessError::ExitCode(code, command)) => {
            assert_eq!(code, 2);
            assert_eq!(command, "\"rust-lld\" \"-flavor\" \"gnu\" \"main.o\"");
        }
        other => panic!("{:?}", other),
    }
    let error = run_command(ProcessOutcome::ExitCode(-11), &CommandLine::new("gdb")).unwrap_err();
    assert_eq!(error.message(), "`\"gdb\"` exited with status code: -11");
}

#[test]
fn a_signal_is_an_error_without_a_code() {
    let error = run_command(ProcessOutcome::KilledBySignal, &CommandLine::new("gdb")).unwrap_err();
    assert!(matches!(error, ProcessError::Signalled(_)));
    assert_eq!(error.message(), "`\"gdb\"` terminated by signal");
}

#[test]
fn a_failed_start_is_an_error_with_its_cause() {
    let outcome = ProcessOutcome::SpawnFailed("No such file or directory".to_string());
    let error = run_command(outcome, &CommandLine::new("gdb")).unwrap_err();
    assert!(matches!(error, ProcessError::SpawnFailed(_, _)));
    assert_eq!(error.message(), "`\"gdb\"` failed to execute: No such file or directory");
    assert!(spawn_command(None, &CommandLine::new("openocd")).is_ok());
    let error = spawn_command(Some("denied".to_string()), &CommandLine::new("openocd")).unwrap_err();
    assert_eq!(error.message(), "`\"openocd\"` failed to execute: denied");
}

#[test]
fn the_program_ends_with_zero_on_success() {
    let exit = run_wrapper(&Ok(()));
    assert_eq!(exit.code, 0);
    assert_eq!(exit.report, None);
}

#[test]
fn the_program_ends_with_one_and_a_report_on_failure() {
    let error = run_command(ProcessOutcome::ExitCode(1), &CommandLine::new("ld")).unwrap_err();
    let exit = run_wrapper(&Err(Failure::ToolInvocation(error)));
    assert_eq!(exit.code, 1);
    assert_eq!(exit.report, Some("`\"ld\"` exited with status code: 1".to_string()));
    let exit = run_wrapper(&Err(Failure::Configuration("no target".to_string())));
    assert_eq!(exit.code, 1);
    assert_eq!(exit.report, Some("no target".to_string()));
    let exit = run_wrapper(&Err(Failure::Io("sink closed".to_string())));
    assert_eq!(exit.report, Some("sink closed".to_string()));
    let exit = run_wrapper(&Err(Failure::Protocol("torn".to_string())));
    assert_eq!(exit.report, Some("log parser failure: torn".to_string()));
}

#[test]
fn a_race_settles_into_the_result_of_the_command() {
    assert!(matches!(settle::<u8>(Ok(4)), Ok(4)));
    assert!(matches!(
        settle::<u8>(Err(OperationError::Failed(Failure::Io("gone".to_string())))),
        Err(Failure::Io(_))
    ));
    assert!(matches!(
        settle::<u8>(Err(OperationError::Interrupted(Signals::SigQuit))),
        Err(Failure::Interruption(Signals::SigQuit))
    ));
}

use drone::process::ProcessError;
use drone::session::{Session, SessionAction, SessionEvent, SessionState};
use drone::signal::{Observation, OperationError, SignalFuture, Signals};
use drone::utils::{run_wrapper, settle, Failure};

fn finish(action: SessionAction<u8>) -> (Result<u8, String>, bool) {
    match action {
        SessionAction::Finish(report) => {
            (report.result.map_err(|failure| failure.message()), report.server_was_dead)
        }
        other => panic!("the session did not finish: {:?}", other),
    }
}

fn client_running_with_server() -> Session<u8> {
    let session = Session::new(true);
    let (session, action) = session.step(SessionEvent::Start);
    assert!(matches!(action, SessionAction::SpawnServer));
    assert!(matches!(session.state, SessionState::ServerStarting));
    assert!(!session.server_running);
    let (session, action) = session.step(SessionEvent::ServerSpawned);
    assert!(matches!(action, SessionAction::RunClient));
    assert!(matches!(session.state, SessionState::ServerRunning));
    assert!(session.server_running);
    let (session, action) = session.step(SessionEvent::ClientStarted);
    assert!(matches!(action, SessionAction::AwaitClient));
    assert!(matches!(session.state, SessionState::ClientRunning));
    session
}

#[test]
fn the_server_is_killed_after_a_successful_client() {
    let session = client_running_with_server();
    let (session, action) = session.step(SessionEvent::ClientFinished(Ok(5)));
    assert!(matches!(action, SessionAction::KillServer));
    assert!(session.server_running);
    assert!(!session.is_over());
    let (session, action) = session.step(SessionEvent::ServerKilled);
    assert_eq!(finish(action), (Ok(5), false));
    assert!(matches!(session.state, SessionState::Completed));
    assert!(!session.server_running);
    assert!(session.is_over());
}

#[test]
fn the_server_is_killed_after_a_failed_client() {
    let session = client_running_with_server();
    let failure = Failure::Io("device gone".to_string());
    let (session, action) = session.step(SessionEvent::ClientFinished(Err(failure)));
    assert!(matches!(action, SessionAction::KillServer));
    let (session, action) = session.step(SessionEvent::ServerKilled);
    assert_eq!(finish(action), (Err("device gone".to_string()), false));
    assert!(matches!(session.state, SessionState::Failed));
    assert!(!session.server_running);
}

#[test]
fn an_interrupt_kills_the_server_and_exits_silently() {
    let session = client_running_with_server();
    let waiting = || Observation::<u8, Failure> { operation: None, signal: None };
    let signalled = |kind| Observation::<u8, Failure> { operation: None, signal: Some(kind) };
    let race = SignalFuture::with_signals(true);
    let looks = vec![waiting(), signalled(Signals::SigInt), waiting(), signalled(Signals::SigTerm)];
    let waited = race.wait(looks).unwrap();
    assert!(matches!(waited, Err(OperationError::Interrupted(Signals::SigTerm))));
    let (session, action) = session.step(SessionEvent::ClientFinished(settle(waited)));
    assert!(matches!(action, SessionAction::KillServer));
    let (session, action) = session.step(SessionEvent::ServerKilled);
    assert!(matches!(session.state, SessionState::Failed));
    assert!(!session.server_running);
    let report = match action {
        SessionAction::Finish(report) => report,
        other => panic!("the session did not finish: {:?}", other),
    };
    assert!(matches!(report.result, Err(Failure::Interruption(Signals::SigTerm))));
    let exit = run_wrapper(&report.result.map(|_| ()));
    assert_eq!(exit.code, 1);
    assert_eq!(exit.report, None);
}

#[test]
fn a_server_found_dead_is_reported_beside_the_result() {
    let session = client_running_with_server();
    let (session, _) = session.step(SessionEvent::ClientFinished(Ok(1)));
    let (session, action) = session.step(SessionEvent::ServerAlreadyDead);
    assert_eq!(finish(action), (Ok(1), true));
    assert!(matches!(session.state, SessionState::Completed));
    assert!(!session.server_running);
}

#[test]
fn no_result_is_handed_on_before_the_kill_is_reported() {
    let session = client_running_with_server();
    let (session, _) = session.step(SessionEvent::ClientFinished(Ok(1)));
    let (session, action) = session.step(SessionEvent::Start);
    assert!(matches!(action, SessionAction::Nothing));
    let (session, action) = session.step(SessionEvent::ClientFinished(Ok(2)));
    assert!(matches!(action, SessionAction::Nothing));
    assert!(matches!(session.state, SessionState::ServerStopping(Ok(1))));
    assert!(session.server_running);
}

#[test]
fn a_server_that_does_not_start_fails_the_session() {
    let session: Session<u8> = Session::new(true);
    let (session, _) = session.step(SessionEvent::Start);
    let error = ProcessError::SpawnFailed("\"openocd\"".to_string(), "not found".to_string());
    let (session, action) = session.step(SessionEvent::ServerFailed(error));
    assert_eq!(finish(action), (Err("`\"openocd\"` failed to execute: not found".to_string()), false));
    assert!(matches!(session.state, SessionState::Failed));
    assert!(!session.server_running);
}

#[test]
fn a_session_without_a_server_runs_the_client_at_once() {
    let session: Session<u8> = Session::new(false);
    let (session, action) = session.step(SessionEvent::Start);
    assert!(matches!(action, SessionAction::RunClient));
    assert!(matches!(session.state, SessionState::ClientRunning));
    assert!(!session.server_running);
    let (session, action) = session.step(SessionEvent::ClientFinished(Ok(8)));
    assert_eq!(finish(action), (Ok(8), false));
    assert!(matches!(session.state, SessionState::Completed));
}

#[test]
fn events_out_of_place_change_nothing() {
    let session: Session<u8> = Session::new(true);
    let (session, action) = session.step(SessionEvent::ServerKilled);
    assert!(matches!(action, SessionAction::Nothing));
    assert!(matches!(session.state, SessionState::Idle));
    let (session, action) = session.step(SessionEvent::ClientFinished(Ok(1)));
    assert!(matches!(action, SessionAction::Nothing));
    assert!(matches!(session.state, SessionState::Idle));
    assert!(!session.server_running);
}

//! The debug session: a probe server is brought up, a client does its work
//! against it, and the server is taken down again on every way out.
//!
//! The controller decides; the program around it acts. Each event reports
//! what happened to the last action, and `step` answers with the next one.

use vstd::prelude::*;

verus! {

/// Where a session stands.
#[derive(Debug)]
pub enum SessionState<T> {
    /// Nothing has been started.
    Idle,
    /// The server is being started.
    ServerStarting,
    /// The server is up; the client is about to be run.
    ServerRunning,
    /// The client is at work.
    ClientRunning,
    /// The client has ended with this result and the server is being taken
    /// down.
    ServerStopping(Result<T, crate::utils::Failure>),
    /// The session ended with the client's success.
    Completed,
    /// The session ended with a failure.
    Failed,
}

/// What the program reports to the controller.
#[derive(Debug)]
pub enum SessionEvent<T> {
    /// The command was given.
    Start,
    /// The server process was started.
    ServerSpawned,
    /// The server process could not be started.
    ServerFailed(crate::process::ProcessError),
    /// The client operation has been set up and can be waited for.
    ClientStarted,
    /// The client operation ended: with its value, with its own failure, or
    /// interrupted by the operator.
    ClientFinished(Result<T, crate::utils::Failure>),
    /// The server process was terminated.
    ServerKilled,
    /// The server process was to be terminated and was found dead already.
    ServerAlreadyDead,
}

/// How a session ended.
#[derive(Debug)]
pub struct SessionReport<T> {
    /// The result to hand on: the client's own, or the failure to start the
    /// server.
    pub result: Result<T, crate::utils::Failure>,
    /// Whether the server had died before it was terminated.
    pub server_was_dead: bool,
}

/// What the controller asks the program to do next.
#[derive(Debug)]
pub enum SessionAction<T> {
    /// Start the server process.
    SpawnServer,
    /// Set the client operation up, raced against the operator's signals.
    RunClient,
    /// Wait for the client operation to end.
    AwaitClient,
    /// Terminate the server process.
    KillServer,
    /// Return from the command with this report.
    Finish(SessionReport<T>),
    /// The event does not belong to the state: do nothing.
    Nothing,
}

/// The controller of one session.
#[derive(Debug)]
pub struct Session<T> {
    /// Whether the probe needs a server process of its own.
    pub needs_server: bool,
    /// Whether a server process started by this session is still to be
    /// terminated.
    pub server_running: bool,
    /// Where the session stands.
    pub state: SessionState<T>,
}

/// The state in which a session with this result ends.
pub open spec fn ended<T>(result: Result<T, crate::utils::Failure>) -> SessionState<T> {
    if result is Ok {
        SessionState::Completed
    } else {
        SessionState::Failed
    }
}

/// The session after an event, and the action that answers the event.
pub open spec fn next<T>(session: Session<T>, event: SessionEvent<T>) -> (
    Session<T>,
    SessionAction<T>,
) {
    match (session.state, event) {
        (SessionState::Idle, SessionEvent::Start) => if session.needs_server {
            (
                Session { state: SessionState::ServerStarting, ..session },
                SessionAction::SpawnServer,
            )
        } else {
            (Session { state: SessionState::ClientRunning, ..session }, SessionAction::RunClient)
        },
        (SessionState::ServerStarting, SessionEvent::ServerSpawned) => (
            Session { state: SessionState::ServerRunning, server_running: true, ..session },
            SessionAction::RunClient,
        ),
        (SessionState::ServerStarting, SessionEvent::ServerFailed(error)) => (
            Session { state: SessionState::Failed, server_running: false, ..session },
            SessionAction::Finish(
                SessionReport {
                    result: Err(crate::utils::Failure::ToolInvocation(error)),
                    server_was_dead: false,
                },
            ),
        ),
        (SessionState::ServerRunning, SessionEvent::ClientStarted) => (
            Session { state: SessionState::ClientRunning, ..session },
            SessionAction::AwaitClient,
        ),
        (SessionState::ClientRunning, SessionEvent::ClientStarted) => (
            session,
            SessionAction::AwaitClient,
        ),
        (SessionState::ServerRunning, SessionEvent::ClientFinished(result)) => after_client(
            session.needs_server,
            session.server_running,
            result,
        ),
        (SessionState::ClientRunning, SessionEvent::ClientFinished(result)) => after_client(
            session.needs_server,
            session.server_running,
            result,
        ),
        (SessionState::ServerStopping(result), SessionEvent::ServerKilled) => (
            Session { state: ended(result), server_running: false, ..session },
            SessionAction::Finish(SessionReport { result, server_was_dead: false }),
        ),
        (SessionState::ServerStopping(result), SessionEvent::ServerAlreadyDead) => (
            Session { state: ended(result), server_running: false, ..session },
            SessionAction::Finish(SessionReport { result, server_was_dead: true }),
        ),
        _ => (session, SessionAction::Nothing),
    }
}

/// The session after the client has ended: a running server is taken down
/// first, and the result waits for that; without one the session ends.
pub open spec fn after_client<T>(
    needs_server: bool,
    server_running: bool,
    result: Result<T, crate::utils::Failure>,
) -> (Session<T>, SessionAction<T>) {
    if server_running {
        (
            Session { needs_server, server_running, state: SessionState::ServerStopping(result) },
            SessionAction::KillServer,
        )
    } else {
        (
            Session { needs_server, server_running, state: ended(result) },
            SessionAction::Finish(SessionReport { result, server_was_dead: false }),
        )
    }
}

impl<T> Session<T> {
    /// The server process is marked as running exactly in the states in
    /// which one has been started and not yet terminated.
    pub open spec fn wf(&self) -> bool {
        match self.state {
            SessionState::Idle => !self.server_running,
            SessionState::ServerStarting => !self.server_running && self.needs_server,
            SessionState::ServerRunning => self.server_running && self.needs_server,
            SessionState::ClientRunning => self.server_running == self.needs_server,
            SessionState::ServerStopping(_) => self.server_running && self.needs_server,
            SessionState::Completed => !self.server_running,
            SessionState::Failed => !self.server_running,
        }
    }

    /// Returns the session of a command that has not begun.
    pub fn new(needs_server: bool) -> (session: Session<T>)
        ensures
            session.needs_server == needs_server,
            !session.server_running,
            session.state is Idle,
            session.wf(),
    {
        Session { needs_server, server_running: false, state: SessionState::Idle }
    }

    /// Returns whether the session has ended.
    pub fn is_over(&self) -> (over: bool)
        ensures
            over == (self.state is Completed || self.state is Failed),
    {
        match self.state {
            SessionState::Completed => true,
            SessionState::Failed => true,
            _ => false,
        }
    }

    /// Takes the event in and returns the session after it with the action
    /// to perform.
    pub fn step(self, event: SessionEvent<T>) -> (after: (Session<T>, SessionAction<T>))
        ensures
            after == next(self, event),
    {
        let Session { needs_server, server_running, state } = self;
        match (state, event) {
            (SessionState::Idle, SessionEvent::Start) => {
                if needs_server {
                    (
                        Session { needs_server, server_running, state: SessionState::ServerStarting },
                        SessionAction::SpawnServer,
                    )
                } else {
                    (
                        Session { needs_server, server_running, state: SessionState::ClientRunning },
                        SessionAction::RunClient,
                    )
                }
            },
            (SessionState::ServerStarting, SessionEvent::ServerSpawned) => (
                Session { needs_server, server_running: true, state: SessionState::ServerRunning },
                SessionAction::RunClient,
            ),
            (SessionState::ServerStarting, SessionEvent::ServerFailed(error)) => (
                Session { needs_server, server_running: false, state: SessionState::Failed },
                SessionAction::Finish(
                    SessionReport {
                        result: Err(crate::utils::Failure::ToolInvocation(error)),
                        server_was_dead: false,
                    },
                ),
            ),
            (SessionState::ServerRunning, SessionEvent::ClientStarted) => (
                Session { needs_server, server_running, state: SessionState::ClientRunning },
                SessionAction::AwaitClient,
            ),
            (SessionState::ClientRunning, SessionEvent::ClientStarted) => (
                Session { needs_server, server_running, state: SessionState::ClientRunning },
                SessionAction::AwaitClient,
            ),
            (SessionState::ServerRunning, SessionEvent::ClientFinished(result)) => Self::finish_client(
                needs_server,
                server_running,
                result,
            ),
            (SessionState::ClientRunning, SessionEvent::ClientFinished(result)) => Self::finish_client(
                needs_server,
                server_running,
                result,
            ),
            (SessionState::ServerStopping(result), SessionEvent::ServerKilled) => {
                let state = Self::end_state(&result);
                (
                    Session { needs_server, server_running: false, state },
                    SessionAction::Finish(SessionReport { result, server_was_dead: false }),
                )
            },
            (SessionState::ServerStopping(result), SessionEvent::ServerAlreadyDead) => {
                let state = Self::end_state(&result);
                (
                    Session { needs_server, server_running: false, state },
                    SessionAction::Finish(SessionReport { result, server_was_dead: true }),
                )
            },
            (state, _) => (Session { needs_server, server_running, state }, SessionAction::Nothing),
        }
    }

    /// Returns the state in which a session with this result ends.
    fn end_state(result: &Result<T, crate::utils::Failure>) -> (state: SessionState<T>)
        ensures
            state == ended(*result),
    {
        match result {
            Ok(_) => SessionState::Completed,
            Err(_) => SessionState::Failed,
        }
    }

    /// Answers the end of the client operation.
    fn finish_client(
        needs_server: bool,
        server_running: bool,
        result: Result<T, crate::utils::Failure>,
    ) -> (after: (Session<T>, SessionAction<T>))
        ensures
            after == after_client(needs_server, server_running, result),
    {
        if server_running {
            (
                Session { needs_server, server_running, state: SessionState::ServerStopping(result) },
                SessionAction::KillServer,
            )
        } else {
            let state = Self::end_state(&result);
            (
                Session { needs_server, server_running, state },
                SessionAction::Finish(SessionReport { result, server_was_dead: false }),
            )
        }
    }
}

/// The session that a sequence of events leads to.
pub open spec fn session_after<T>(session: Session<T>, events: Seq<SessionEvent<T>>) -> Session<T>
    decreases events.len(),
{
    if events.len() == 0 {
        session
    } else {
        next(session_after(session, events.drop_last()), events.last()).0
    }
}

/// No event breaks the bookkeeping of the server process.
pub proof fn lemma_step_keeps_wf<T>(session: Session<T>, event: SessionEvent<T>)
    requires
        session.wf(),
    ensures
        next(session, event).0.wf(),
{
}

/// The controller lets the command return only when no server process of
/// the session is left running, and a running server stops being counted as
/// running only on the report that it was terminated or found dead.
pub proof fn lemma_return_leaves_no_server<T>(session: Session<T>, event: SessionEvent<T>)
    requires
        session.wf(),
    ensures
        next(session, event).1 is Finish ==> !next(session, event).0.server_running && (next(
            session,
            event,
        ).0.state is Completed || next(session, event).0.state is Failed),
        session.server_running && !next(session, event).0.server_running ==> (event is ServerKilled
            || event is ServerAlreadyDead),
{
}

/// Whatever the client operation ends with, a value, a failure of its own
/// or an interruption, the answer of a session with a running server is to
/// terminate the server; the command returns only on the report of that, and
/// then with the client's result unchanged.
pub proof fn lemma_server_terminated_before_return<T>(
    session: Session<T>,
    result: Result<T, crate::utils::Failure>,
    later: SessionEvent<T>,
)
    requires
        session.wf(),
        session.server_running,
        session.state is ClientRunning || session.state is ServerRunning,
    ensures
        next(session, SessionEvent::ClientFinished(result)).1 is KillServer,
        next(session, SessionEvent::ClientFinished(result)).0.server_running,
        ({
            let stopping = next(session, SessionEvent::ClientFinished(result)).0;
            let last = next(stopping, later);
            if later is ServerKilled || later is ServerAlreadyDead {
                &&& last.1 == SessionAction::Finish(
                    SessionReport { result, server_was_dead: later is ServerAlreadyDead },
                )
                &&& !last.0.server_running
                &&& last.0.state == ended(result)
            } else {
                last.1 is Nothing && last.0 == stopping
            }
        }),
{
}

/// On every path from the beginning of a session, the bookkeeping holds:
/// a session that has ended has no server process left running.
pub proof fn lemma_no_server_outlives_session<T>(
    needs_server: bool,
    events: Seq<SessionEvent<T>>,
)
    ensures
        ({
            let session = session_after(
                Session { needs_server, server_running: false, state: SessionState::Idle },
                events,
            );
            &&& session.wf()
            &&& session.needs_server == needs_server
            &&& (session.state is Completed || session.state is Failed) ==> !session.server_running
        }),
    decreases events.len(),
{
    if events.len() > 0 {
        lemma_no_server_outlives_session(needs_server, events.drop_last());
    }
}

} // verus!

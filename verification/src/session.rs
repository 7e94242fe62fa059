//! Job Session Protocol: the per-connection state machine.
//!
//! A session is driven by events (messages received from the client,
//! notifications from the executor, the timeout clock, connection close) and
//! answers each event with a new state and a list of actions for the
//! connection handler to perform.  The whole transition table is the spec
//! function [`spec_step`]; the executable [`step`] is proved to follow it
//! exactly.

use vstd::prelude::*;
use crate::auth::{token_valid, validate, AuthOutcome, TrustedTokens};

verus! {

/// A client-submitted description of the workload to execute: fully
/// specified before execution begins, immutable once accepted.
#[derive(Debug)]
pub struct JobSpec {
    pub program: String,
    pub args: Vec<String>,
}

/// Messages a client may send over the framed channel.
#[derive(Debug)]
pub enum ClientMessage {
    Authenticate { token: Vec<u8> },
    SubmitJob { job: JobSpec },
}

/// Why an authentication attempt was rejected.
#[derive(Clone, Copy, PartialEq, Eq, Structural, Debug)]
pub enum RejectReason {
    InvalidToken,
}

/// Why the executor could not spawn the workload.  Each is a configuration
/// or request fault, reported as such, never silently swallowed.
#[derive(Clone, Copy, PartialEq, Eq, Structural, Debug)]
pub enum SpawnError {
    DelegationRuleMissing,
    SandboxIdentityAbsent,
    WorkloadNotFound,
}

/// The specific cause of a failed job, as delivered in the terminal
/// `JobResult`.
#[derive(Clone, Copy, PartialEq, Eq, Structural, Debug)]
pub enum FailureReason {
    Spawn(SpawnError),
    NonZeroExit(i32),
    Killed,
    Timeout,
}

/// Terminal status of a job: the workload exited with status 0, or failed
/// for a specific reason.
#[derive(Clone, Copy, PartialEq, Eq, Structural, Debug)]
pub enum JobStatus {
    Completed,
    Failed(FailureReason),
}

/// Messages the server sends to the client.
#[derive(Debug)]
pub enum ServerMessage {
    OutputChunk(Vec<u8>),
    JobResult(JobStatus),
    Rejected(RejectReason),
}

/// Everything that can happen to a session: a client message arrives, the
/// executor reports spawn success or failure, the workload produces output
/// or exits, the wall-clock budget runs out, or the client disconnects.
#[derive(Debug)]
pub enum Event {
    Received(ClientMessage),
    SpawnOk,
    SpawnFailed(SpawnError),
    WorkloadOutput(Vec<u8>),
    WorkloadExited(Option<i32>),
    TimedOut,
    ClientClosed,
}

/// What the connection handler must do after a step: send a message,
/// dispatch the accepted job to the executor, terminate the execution
/// handle (a no-op if none is running), or close the connection.
#[derive(Debug)]
pub enum Action {
    Send(ServerMessage),
    Dispatch(JobSpec),
    Kill,
    Close,
}

/// Session states.  Authentication is validated atomically inside the step
/// that consumes the `Authenticate` message, so the machine moves straight
/// from `Connected` to `Authenticated` or `Closed`.
#[derive(Clone, Copy, PartialEq, Eq, Structural, Debug)]
pub enum SessionState {
    Connected,
    Authenticated,
    JobReceived,
    Executing,
    Completed,
    Failed,
    Closed,
}

/// The full transition table of the session protocol.
///
/// * `Connected`: only `Authenticate` is accepted; a valid token moves to
///   `Authenticated`, an invalid one sends `Rejected` and closes.  Any other
///   message or executor event is a protocol violation and closes.
/// * `Authenticated`: exactly one `SubmitJob` is accepted and dispatched.
/// * `JobReceived` / `Executing`: a second `SubmitJob` (or any further
///   client message) is a protocol violation: the execution is terminated
///   and the session closes.  Workload output is forwarded unchanged and in
///   order; exit status 0 completes the job, anything else fails it with a
///   specific reason; a timeout kills the workload and fails the job with
///   reason `Timeout`; a client disconnect kills the workload.
/// * `Completed` / `Failed`: the terminal `JobResult` has been sent; the
///   next event closes the session.
/// * `Closed` is absorbing and acts on nothing.
pub open spec fn spec_step(s: SessionState, ev: Event, trusted: Seq<Seq<u8>>) -> (SessionState, Seq<
    Action,
>) {
    match s {
        SessionState::Connected => match ev {
            Event::Received(ClientMessage::Authenticate { token }) => {
                if token_valid(trusted, token@) {
                    (SessionState::Authenticated, Seq::<Action>::empty())
                } else {
                    (
                        SessionState::Closed,
                        seq![
                            Action::Send(ServerMessage::Rejected(RejectReason::InvalidToken)),
                            Action::Close,
                        ],
                    )
                }
            },
            Event::ClientClosed => (SessionState::Closed, Seq::<Action>::empty()),
            _ => (SessionState::Closed, seq![Action::Close]),
        },
        SessionState::Authenticated => match ev {
            Event::Received(ClientMessage::SubmitJob { job }) => (
                SessionState::JobReceived,
                seq![Action::Dispatch(job)],
            ),
            Event::ClientClosed => (SessionState::Closed, Seq::<Action>::empty()),
            _ => (SessionState::Closed, seq![Action::Close]),
        },
        SessionState::JobReceived => match ev {
            Event::SpawnOk => (SessionState::Executing, Seq::<Action>::empty()),
            Event::SpawnFailed(e) => (
                SessionState::Failed,
                seq![Action::Send(ServerMessage::JobResult(JobStatus::Failed(FailureReason::Spawn(e))))],
            ),
            Event::ClientClosed => (SessionState::Closed, seq![Action::Kill]),
            _ => (SessionState::Closed, seq![Action::Kill, Action::Close]),
        },
        SessionState::Executing => match ev {
            Event::WorkloadOutput(bytes) => (
                SessionState::Executing,
                seq![Action::Send(ServerMessage::OutputChunk(bytes))],
            ),
            Event::WorkloadExited(code) => match code {
                Some(c) => {
                    if c == 0 {
                        (
                            SessionState::Completed,
                            seq![Action::Send(ServerMessage::JobResult(JobStatus::Completed))],
                        )
                    } else {
                        (
                            SessionState::Failed,
                            seq![
                                Action::Send(ServerMessage::JobResult(JobStatus::Failed(FailureReason::NonZeroExit(c)))),
                            ],
                        )
                    }
                },
                None => (
                    SessionState::Failed,
                    seq![Action::Send(ServerMessage::JobResult(JobStatus::Failed(FailureReason::Killed)))],
                ),
            },
            Event::TimedOut => (
                SessionState::Failed,
                seq![
                    Action::Kill,
                    Action::Send(ServerMessage::JobResult(JobStatus::Failed(FailureReason::Timeout))),
                ],
            ),
            Event::ClientClosed => (SessionState::Closed, seq![Action::Kill]),
            _ => (SessionState::Closed, seq![Action::Kill, Action::Close]),
        },
        SessionState::Completed => match ev {
            Event::ClientClosed => (SessionState::Closed, Seq::<Action>::empty()),
            _ => (SessionState::Closed, seq![Action::Close]),
        },
        SessionState::Failed => match ev {
            Event::ClientClosed => (SessionState::Closed, Seq::<Action>::empty()),
            _ => (SessionState::Closed, seq![Action::Close]),
        },
        SessionState::Closed => (SessionState::Closed, Seq::<Action>::empty()),
    }
}

/// Executable step of the session protocol: consumes the event and returns
/// the next state and the actions to perform, exactly as `spec_step` says.
pub fn step(s: SessionState, ev: Event, trusted: &TrustedTokens) -> (r: (SessionState, Vec<Action>))
    ensures
        r.0 == spec_step(s, ev, trusted@).0,
        r.1@ == spec_step(s, ev, trusted@).1,
{
    match s {
        SessionState::Connected => match ev {
            Event::Received(ClientMessage::Authenticate { token }) => {
                if validate(&token, trusted) == AuthOutcome::Authorized {
                    (SessionState::Authenticated, Vec::new())
                } else {
                    let mut acts: Vec<Action> = Vec::new();
                    acts.push(Action::Send(ServerMessage::Rejected(RejectReason::InvalidToken)));
                    acts.push(Action::Close);
                    (SessionState::Closed, acts)
                }
            },
            Event::ClientClosed => (SessionState::Closed, Vec::new()),
            _ => {
                let mut acts: Vec<Action> = Vec::new();
                acts.push(Action::Close);
                (SessionState::Closed, acts)
            },
        },
        SessionState::Authenticated => match ev {
            Event::Received(ClientMessage::SubmitJob { job }) => {
                let mut acts: Vec<Action> = Vec::new();
                acts.push(Action::Dispatch(job));
                (SessionState::JobReceived, acts)
            },
            Event::ClientClosed => (SessionState::Closed, Vec::new()),
            _ => {
                let mut acts: Vec<Action> = Vec::new();
                acts.push(Action::Close);
                (SessionState::Closed, acts)
            },
        },
        SessionState::JobReceived => match ev {
            Event::SpawnOk => (SessionState::Executing, Vec::new()),
            Event::SpawnFailed(e) => {
                let mut acts: Vec<Action> = Vec::new();
                acts.push(
                    Action::Send(ServerMessage::JobResult(JobStatus::Failed(FailureReason::Spawn(e)))),
                );
                (SessionState::Failed, acts)
            },
            Event::ClientClosed => {
                let mut acts: Vec<Action> = Vec::new();
                acts.push(Action::Kill);
                (SessionState::Closed, acts)
            },
            _ => {
                let mut acts: Vec<Action> = Vec::new();
                acts.push(Action::Kill);
                acts.push(Action::Close);
                (SessionState::Closed, acts)
            },
        },
        SessionState::Executing => match ev {
            Event::WorkloadOutput(bytes) => {
                let mut acts: Vec<Action> = Vec::new();
                acts.push(Action::Send(ServerMessage::OutputChunk(bytes)));
                (SessionState::Executing, acts)
            },
            Event::WorkloadExited(code) => match code {
                Some(c) => {
                    if c == 0 {
                        let mut acts: Vec<Action> = Vec::new();
                        acts.push(Action::Send(ServerMessage::JobResult(JobStatus::Completed)));
                        (SessionState::Completed, acts)
                    } else {
                        let mut acts: Vec<Action> = Vec::new();
                        acts.push(
                            Action::Send(
                                ServerMessage::JobResult(
                                    JobStatus::Failed(FailureReason::NonZeroExit(c)),
                                ),
                            ),
                        );
                        (SessionState::Failed, acts)
                    }
                },
                None => {
                    let mut acts: Vec<Action> = Vec::new();
                    acts.push(
                        Action::Send(ServerMessage::JobResult(JobStatus::Failed(FailureReason::Killed))),
                    );
                    (SessionState::Failed, acts)
                },
            },
            Event::TimedOut => {
                let mut acts: Vec<Action> = Vec::new();
                acts.push(Action::Kill);
                acts.push(
                    Action::Send(ServerMessage::JobResult(JobStatus::Failed(FailureReason::Timeout))),
                );
                (SessionState::Failed, acts)
            },
            Event::ClientClosed => {
                let mut acts: Vec<Action> = Vec::new();
                acts.push(Action::Kill);
                (SessionState::Closed, acts)
            },
            _ => {
                let mut acts: Vec<Action> = Vec::new();
                acts.push(Action::Kill);
                acts.push(Action::Close);
                (SessionState::Closed, acts)
            },
        },
        SessionState::Completed => match ev {
            Event::ClientClosed => (SessionState::Closed, Vec::new()),
            _ => {
                let mut acts: Vec<Action> = Vec::new();
                acts.push(Action::Close);
                (SessionState::Closed, acts)
            },
        },
        SessionState::Failed => match ev {
            Event::ClientClosed => (SessionState::Closed, Vec::new()),
            _ => {
                let mut acts: Vec<Action> = Vec::new();
                acts.push(Action::Close);
                (SessionState::Closed, acts)
            },
        },
        SessionState::Closed => (SessionState::Closed, Vec::new()),
    }
}

/// One authenticated client connection: its protocol state, stepped in
/// place by the connection handler.
pub struct Session {
    pub state: SessionState,
}

impl Session {
    /// A freshly accepted connection starts in `Connected`.
    pub fn new() -> (r: Session)
        ensures
            r.state == SessionState::Connected,
    {
        Session { state: SessionState::Connected }
    }

    /// Advances the session by one event, in place, returning the actions
    /// for the connection handler to perform.
    pub fn handle(&mut self, ev: Event, trusted: &TrustedTokens) -> (acts: Vec<Action>)
        ensures
            final(self).state == spec_step(old(self).state, ev, trusted@).0,
            acts@ == spec_step(old(self).state, ev, trusted@).1,
    {
        let (next, acts) = step(self.state, ev, trusted);
        self.state = next;
        acts
    }
}

} // verus!

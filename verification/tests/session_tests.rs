use ussal_runner::auth::TrustedTokens;
use ussal_runner::session::{
    Action, ClientMessage, Event, FailureReason, JobSpec, JobStatus, RejectReason, ServerMessage,
    Session, SessionState, SpawnError,
};

fn trusted() -> TrustedTokens {
    TrustedTokens::new(vec![b"valid-token".to_vec()])
}

fn authenticate(token: &[u8]) -> Event {
    Event::Received(ClientMessage::Authenticate { token: token.to_vec() })
}

fn submit(program: &str, args: &[&str]) -> Event {
    Event::Received(ClientMessage::SubmitJob {
        job: JobSpec {
            program: program.to_string(),
            args: args.iter().map(|a| a.to_string()).collect(),
        },
    })
}

#[test]
fn test_happy_path_scenario() {
    // Connect, authenticate, submit an echo-style workload printing "ok",
    // receive its output chunk and a completed result, close cleanly.
    let t = trusted();
    let mut s = Session::new();
    assert_eq!(s.state, SessionState::Connected);

    let acts = s.handle(authenticate(b"valid-token"), &t);
    assert_eq!(s.state, SessionState::Authenticated);
    assert!(acts.is_empty());

    let acts = s.handle(submit("echo", &["ok"]), &t);
    assert_eq!(s.state, SessionState::JobReceived);
    assert_eq!(acts.len(), 1);
    match &acts[0] {
        Action::Dispatch(job) => {
            assert_eq!(job.program, "echo");
            assert_eq!(job.args, vec!["ok".to_string()]);
        }
        other => panic!("expected Dispatch, got {:?}", other),
    }

    let acts = s.handle(Event::SpawnOk, &t);
    assert_eq!(s.state, SessionState::Executing);
    assert!(acts.is_empty());

    let acts = s.handle(Event::WorkloadOutput(b"ok\n".to_vec()), &t);
    assert_eq!(s.state, SessionState::Executing);
    assert_eq!(acts.len(), 1);
    match &acts[0] {
        Action::Send(ServerMessage::OutputChunk(bytes)) => assert_eq!(bytes, b"ok\n"),
        other => panic!("expected OutputChunk, got {:?}", other),
    }

    let acts = s.handle(Event::WorkloadExited(Some(0)), &t);
    assert_eq!(s.state, SessionState::Completed);
    assert_eq!(acts.len(), 1);
    assert!(matches!(
        acts[0],
        Action::Send(ServerMessage::JobResult(JobStatus::Completed))
    ));

    let acts = s.handle(Event::ClientClosed, &t);
    assert_eq!(s.state, SessionState::Closed);
    assert!(acts.is_empty());
}

#[test]
fn test_garbage_token_rejected_scenario() {
    // A garbage token is answered with Rejected{invalid token} and the
    // session closes; no job is ever dispatched.
    let t = trusted();
    let mut s = Session::new();
    let acts = s.handle(authenticate(b"garbage"), &t);
    assert_eq!(s.state, SessionState::Closed);
    assert_eq!(acts.len(), 2);
    assert!(matches!(
        acts[0],
        Action::Send(ServerMessage::Rejected(RejectReason::InvalidToken))
    ));
    assert!(matches!(acts[1], Action::Close));

    // Even if the client keeps talking, nothing happens and no dispatch ever occurs.
    let acts = s.handle(submit("echo", &["ok"]), &t);
    assert_eq!(s.state, SessionState::Closed);
    assert!(acts.is_empty());
}

#[test]
fn test_second_job_closes_session() {
    let t = trusted();
    let mut s = Session::new();
    s.handle(authenticate(b"valid-token"), &t);
    s.handle(submit("echo", &["one"]), &t);
    s.handle(Event::SpawnOk, &t);
    assert_eq!(s.state, SessionState::Executing);

    let acts = s.handle(submit("echo", &["two"]), &t);
    assert_eq!(s.state, SessionState::Closed);
    assert_eq!(acts.len(), 2);
    assert!(matches!(acts[0], Action::Kill));
    assert!(matches!(acts[1], Action::Close));
}

#[test]
fn test_second_job_before_spawn_closes_session() {
    let t = trusted();
    let mut s = Session::new();
    s.handle(authenticate(b"valid-token"), &t);
    s.handle(submit("echo", &["one"]), &t);
    assert_eq!(s.state, SessionState::JobReceived);

    let acts = s.handle(submit("echo", &["two"]), &t);
    assert_eq!(s.state, SessionState::Closed);
    assert!(matches!(acts[0], Action::Kill));
    assert!(matches!(acts[1], Action::Close));
}

#[test]
fn test_job_before_auth_closes_session() {
    let t = trusted();
    let mut s = Session::new();
    let acts = s.handle(submit("echo", &["ok"]), &t);
    assert_eq!(s.state, SessionState::Closed);
    assert_eq!(acts.len(), 1);
    assert!(matches!(acts[0], Action::Close));
}

#[test]
fn test_client_close_kills_execution() {
    let t = trusted();
    let mut s = Session::new();
    s.handle(authenticate(b"valid-token"), &t);
    s.handle(submit("sleep", &["10000"]), &t);
    s.handle(Event::SpawnOk, &t);
    assert_eq!(s.state, SessionState::Executing);

    let acts = s.handle(Event::ClientClosed, &t);
    assert_eq!(s.state, SessionState::Closed);
    assert_eq!(acts.len(), 1);
    assert!(matches!(acts[0], Action::Kill));
}

#[test]
fn test_timeout_fails_never_completes() {
    let t = trusted();
    let mut s = Session::new();
    s.handle(authenticate(b"valid-token"), &t);
    s.handle(submit("sleep", &["10000"]), &t);
    s.handle(Event::SpawnOk, &t);

    let acts = s.handle(Event::TimedOut, &t);
    assert_eq!(s.state, SessionState::Failed);
    assert_eq!(acts.len(), 2);
    assert!(matches!(acts[0], Action::Kill));
    assert!(matches!(
        acts[1],
        Action::Send(ServerMessage::JobResult(JobStatus::Failed(FailureReason::Timeout)))
    ));
    for a in &acts {
        assert!(!matches!(
            a,
            Action::Send(ServerMessage::JobResult(JobStatus::Completed))
        ));
    }
}

#[test]
fn test_nonzero_exit_reports_specific_reason() {
    let t = trusted();
    let mut s = Session::new();
    s.handle(authenticate(b"valid-token"), &t);
    s.handle(submit("false", &[]), &t);
    s.handle(Event::SpawnOk, &t);

    let acts = s.handle(Event::WorkloadExited(Some(3)), &t);
    assert_eq!(s.state, SessionState::Failed);
    assert!(matches!(
        acts[0],
        Action::Send(ServerMessage::JobResult(JobStatus::Failed(FailureReason::NonZeroExit(3))))
    ));
}

#[test]
fn test_killed_workload_reports_killed() {
    let t = trusted();
    let mut s = Session::new();
    s.handle(authenticate(b"valid-token"), &t);
    s.handle(submit("cat", &[]), &t);
    s.handle(Event::SpawnOk, &t);

    let acts = s.handle(Event::WorkloadExited(None), &t);
    assert_eq!(s.state, SessionState::Failed);
    assert!(matches!(
        acts[0],
        Action::Send(ServerMessage::JobResult(JobStatus::Failed(FailureReason::Killed)))
    ));
}

#[test]
fn test_spawn_failure_variants_reported() {
    let t = trusted();
    for (err, expect) in [
        (SpawnError::DelegationRuleMissing, FailureReason::Spawn(SpawnError::DelegationRuleMissing)),
        (SpawnError::SandboxIdentityAbsent, FailureReason::Spawn(SpawnError::SandboxIdentityAbsent)),
        (SpawnError::WorkloadNotFound, FailureReason::Spawn(SpawnError::WorkloadNotFound)),
    ] {
        let mut s = Session::new();
        s.handle(authenticate(b"valid-token"), &t);
        s.handle(submit("missing", &[]), &t);
        assert_eq!(s.state, SessionState::JobReceived);
        let acts = s.handle(Event::SpawnFailed(err), &t);
        assert_eq!(s.state, SessionState::Failed);
        assert_eq!(acts.len(), 1);
        match &acts[0] {
            Action::Send(ServerMessage::JobResult(JobStatus::Failed(reason))) => {
                assert_eq!(*reason, expect)
            }
            other => panic!("expected JobResult, got {:?}", other),
        }
    }
}

#[test]
fn test_two_sessions_complete_independently() {
    // Two simultaneous sessions with valid tokens each submit jobs; the
    // events interleave, both complete, and neither observes the other's
    // output chunks.
    let t = trusted();
    let mut s1 = Session::new();
    let mut s2 = Session::new();
    let mut out1: Vec<Vec<u8>> = Vec::new();
    let mut out2: Vec<Vec<u8>> = Vec::new();

    s1.handle(authenticate(b"valid-token"), &t);
    s2.handle(authenticate(b"valid-token"), &t);
    s1.handle(submit("echo", &["one"]), &t);
    s2.handle(submit("echo", &["two"]), &t);
    s1.handle(Event::SpawnOk, &t);
    s2.handle(Event::SpawnOk, &t);

    for a in s1.handle(Event::WorkloadOutput(b"one\n".to_vec()), &t) {
        if let Action::Send(ServerMessage::OutputChunk(b)) = a {
            out1.push(b);
        }
    }
    for a in s2.handle(Event::WorkloadOutput(b"two\n".to_vec()), &t) {
        if let Action::Send(ServerMessage::OutputChunk(b)) = a {
            out2.push(b);
        }
    }

    let acts1 = s1.handle(Event::WorkloadExited(Some(0)), &t);
    let acts2 = s2.handle(Event::WorkloadExited(Some(0)), &t);
    assert_eq!(s1.state, SessionState::Completed);
    assert_eq!(s2.state, SessionState::Completed);
    assert!(matches!(
        acts1[0],
        Action::Send(ServerMessage::JobResult(JobStatus::Completed))
    ));
    assert!(matches!(
        acts2[0],
        Action::Send(ServerMessage::JobResult(JobStatus::Completed))
    ));

    assert_eq!(out1, vec![b"one\n".to_vec()]);
    assert_eq!(out2, vec![b"two\n".to_vec()]);
}

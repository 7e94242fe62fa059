use ussal_runner::executor::{
    check_spawn_preconditions, classify_outcome, delegated_command, ExecutorConfig,
};
use ussal_runner::session::{FailureReason, JobSpec, JobStatus, SpawnError};

fn config(rule: bool, identity: bool) -> ExecutorConfig {
    ExecutorConfig {
        service_identity: "ussal-runner".to_string(),
        sandbox_identity: "ussal-sandbox".to_string(),
        delegation_rule_present: rule,
        sandbox_identity_present: identity,
        timeout_ms: 60_000,
    }
}

#[test]
fn test_spawn_allowed_when_provisioned() {
    assert_eq!(check_spawn_preconditions(&config(true, true)), Ok(()));
}

#[test]
fn test_spawn_refused_without_delegation_rule() {
    assert_eq!(
        check_spawn_preconditions(&config(false, true)),
        Err(SpawnError::DelegationRuleMissing)
    );
    // Both absent: the delegation rule is reported first.
    assert_eq!(
        check_spawn_preconditions(&config(false, false)),
        Err(SpawnError::DelegationRuleMissing)
    );
}

#[test]
fn test_spawn_refused_without_sandbox_identity() {
    assert_eq!(
        check_spawn_preconditions(&config(true, false)),
        Err(SpawnError::SandboxIdentityAbsent)
    );
}

#[test]
fn test_delegated_command_exact_argv() {
    let job = JobSpec {
        program: "echo".to_string(),
        args: vec!["ok".to_string(), "--fast".to_string()],
    };
    let (prog, argv) = delegated_command(&config(true, true), &job);
    assert_eq!(prog, "sudo");
    assert_eq!(
        argv,
        vec![
            "-n".to_string(),
            "-u".to_string(),
            "ussal-sandbox".to_string(),
            "--".to_string(),
            "echo".to_string(),
            "ok".to_string(),
            "--fast".to_string(),
        ]
    );
}

#[test]
fn test_delegated_command_no_args() {
    let job = JobSpec { program: "true".to_string(), args: vec![] };
    let (prog, argv) = delegated_command(&config(true, true), &job);
    assert_eq!(prog, "sudo");
    assert_eq!(argv.len(), 5);
    assert_eq!(argv[2], "ussal-sandbox");
    assert_eq!(argv[4], "true");
}

#[test]
fn test_classify_completed_only_on_clean_exit_in_budget() {
    assert_eq!(classify_outcome(false, Some(0)), JobStatus::Completed);
    assert_eq!(
        classify_outcome(false, Some(2)),
        JobStatus::Failed(FailureReason::NonZeroExit(2))
    );
    assert_eq!(
        classify_outcome(false, None),
        JobStatus::Failed(FailureReason::Killed)
    );
}

#[test]
fn test_classify_timeout_never_completed() {
    // Even a clean exit observed after the budget ran out is a timeout.
    assert_eq!(
        classify_outcome(true, Some(0)),
        JobStatus::Failed(FailureReason::Timeout)
    );
    assert_eq!(
        classify_outcome(true, None),
        JobStatus::Failed(FailureReason::Timeout)
    );
}

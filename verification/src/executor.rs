//! Privilege-Separated Executor decisions: whether execution is allowed at
//! all, the exact command line that runs a workload under the unprivileged
//! identity, and the classification of an execution's outcome.
//!
//! The process holding the connection never runs the workload itself: it
//! asks the OS to run it as the dedicated sandbox identity through the
//! standing delegation rule, and refuses to run anything when the rule or
//! the identity is absent.

use vstd::prelude::*;
use vstd::string::StringExecFns;
use crate::session::{FailureReason, JobSpec, JobStatus, SpawnError};

verus! {

/// Process-wide executor configuration, probed once at startup and never
/// mutated: the two OS identities, whether the provisioning postconditions
/// (delegation rule, sandbox identity) were found to hold, and the
/// wall-clock budget for one workload.
pub struct ExecutorConfig {
    pub service_identity: String,
    pub sandbox_identity: String,
    pub delegation_rule_present: bool,
    pub sandbox_identity_present: bool,
    pub timeout_ms: u64,
}

/// Fail-closed gate: execution is permitted only when the standing
/// delegation rule and the sandbox identity both exist.  A missing
/// precondition is a configuration fault with a specific reason — never a
/// fallback to running the workload under the service's own identity.
pub fn check_spawn_preconditions(cfg: &ExecutorConfig) -> (r: Result<(), SpawnError>)
    ensures
        r is Ok <==> (cfg.delegation_rule_present && cfg.sandbox_identity_present),
        !cfg.delegation_rule_present ==> r == Result::<(), SpawnError>::Err(
            SpawnError::DelegationRuleMissing,
        ),
        cfg.delegation_rule_present && !cfg.sandbox_identity_present ==> r == Result::<
            (),
            SpawnError,
        >::Err(SpawnError::SandboxIdentityAbsent),
{
    if !cfg.delegation_rule_present {
        Err(SpawnError::DelegationRuleMissing)
    } else if !cfg.sandbox_identity_present {
        Err(SpawnError::SandboxIdentityAbsent)
    } else {
        Ok(())
    }
}

/// The argument vector of the delegated spawn: non-interactive, the single
/// target identity, an argument separator, then the job's own command —
/// nothing else, so no call site can widen the scope or smuggle in an
/// option of the delegation tool.
pub open spec fn delegated_argv(sandbox: Seq<char>, job: JobSpec) -> Seq<Seq<char>> {
    seq!["-n"@, "-u"@, sandbox, "--"@, job.program@] + job.args.deep_view()
}

/// Builds the command that runs `job` under the sandbox identity via the
/// standing delegation rule: `sudo -n -u <sandbox> -- <program> <args..>`.
pub fn delegated_command(cfg: &ExecutorConfig, job: &JobSpec) -> (r: (String, Vec<String>))
    ensures
        r.0@ == "sudo"@,
        r.1.deep_view() == delegated_argv(cfg.sandbox_identity@, *job),
{
    let mut argv: Vec<String> = Vec::new();
    argv.push(String::from_str("-n"));
    argv.push(String::from_str("-u"));
    argv.push(cfg.sandbox_identity.clone());
    argv.push(String::from_str("--"));
    argv.push(job.program.clone());
    let n: usize = job.args.len();
    for i in 0..n
        invariant
            n == job.args.len(),
            argv@.len() == 5 + i,
            argv@[0]@ == "-n"@,
            argv@[1]@ == "-u"@,
            argv@[2]@ == cfg.sandbox_identity@,
            argv@[3]@ == "--"@,
            argv@[4]@ == job.program@,
            forall|j: int| 0 <= j < i ==> argv@[5 + j]@ == #[trigger] job.args@[j]@,
    {
        argv.push(job.args[i].clone());
    }
    proof {
        assert forall|j: int|
            0 <= j < job.args.deep_view().len() implies job.args.deep_view()[j] == job.args@[j]@ by {}
        assert(argv.deep_view() =~= delegated_argv(cfg.sandbox_identity@, *job));
    }
    (String::from_str("sudo"), argv)
}

/// The delegated command narrows privilege and nothing else: position by
/// position it is the fixed delegation prefix naming exactly the sandbox
/// identity, followed by the job's own program and arguments unchanged.
pub proof fn lemma_delegation_scope(sandbox: Seq<char>, job: JobSpec)
    ensures
        delegated_argv(sandbox, job).len() == 5 + job.args.deep_view().len(),
        delegated_argv(sandbox, job)[0] == "-n"@,
        delegated_argv(sandbox, job)[1] == "-u"@,
        delegated_argv(sandbox, job)[2] == sandbox,
        delegated_argv(sandbox, job)[3] == "--"@,
        delegated_argv(sandbox, job)[4] == job.program@,
        delegated_argv(sandbox, job).skip(5) == job.args.deep_view(),
{
    assert(delegated_argv(sandbox, job).skip(5) =~= job.args.deep_view());
}

/// Classifies how an execution ended.  A timed-out workload is `Failed`
/// with reason `Timeout`, never `Completed`, whatever its exit status; exit
/// status 0 within budget is the only way to complete.
pub fn classify_outcome(timed_out: bool, exit_code: Option<i32>) -> (r: JobStatus)
    ensures
        r == (if timed_out {
            JobStatus::Failed(FailureReason::Timeout)
        } else {
            match exit_code {
                Some(c) => if c == 0 {
                    JobStatus::Completed
                } else {
                    JobStatus::Failed(FailureReason::NonZeroExit(c))
                },
                None => JobStatus::Failed(FailureReason::Killed),
            }
        }),
        r == JobStatus::Completed <==> (!timed_out && exit_code == Some(0i32)),
{
    if timed_out {
        JobStatus::Failed(FailureReason::Timeout)
    } else {
        match exit_code {
            Some(c) => {
                if c == 0 {
                    JobStatus::Completed
                } else {
                    JobStatus::Failed(FailureReason::NonZeroExit(c))
                }
            },
            None => JobStatus::Failed(FailureReason::Killed),
        }
    }
}

} // verus!

//! Provisioning decisions: the computations behind the one-shot bootstrap
//! that creates the two OS identities, the delegation rule and the service
//! unit.  Reading `/etc/passwd` or `/etc/sudoers` and running the commands
//! is I/O and lives with the caller; everything decided or rendered from
//! their contents is here, with exact contracts.

use vstd::prelude::*;
use vstd::string::StringExecFns;

verus! {

/// Whether `pat` occurs in `data` starting exactly at `i`.
pub open spec fn match_at(data: Seq<u8>, pat: Seq<u8>, i: int) -> bool {
    &&& 0 <= i
    &&& i + pat.len() <= data.len()
    &&& data.subrange(i, i + pat.len()) == pat
}

/// A passwd-style listing has an entry for `name`: some line starts with
/// `name` followed by the field separator.
pub open spec fn lists_user(passwd: Seq<u8>, name: Seq<u8>) -> bool {
    exists|i: int|
        #[trigger] match_at(passwd, name, i) && (i == 0 || passwd[i - 1] == 10) && i + name.len()
            < passwd.len() && passwd[i + name.len()] == 58
}

/// `pat` occurs somewhere in `data`.
pub open spec fn contains_bytes(data: Seq<u8>, pat: Seq<u8>) -> bool {
    exists|i: int| #[trigger] match_at(data, pat, i)
}

/// Compares `pat` against `data` at position `i`.
fn prefix_matches_at(data: &[u8], i: usize, pat: &[u8]) -> (r: bool)
    requires
        i + pat@.len() <= data@.len(),
    ensures
        r == match_at(data@, pat@, i as int),
{
    let m: usize = pat.len();
    let n: usize = data.len();
    for j in 0..m
        invariant
            m == pat@.len(),
            n == data@.len(),
            i + m <= data@.len(),
            forall|k: int| 0 <= k < j ==> data@[i + k] == pat@[k],
    {
        if data[i + j] != pat[j] {
            proof {
                assert(data@.subrange(i as int, i + pat@.len())[j as int] == data@[i + j]);
            }
            return false;
        }
    }
    proof {
        assert(data@.subrange(i as int, i + pat@.len()) =~= pat@);
    }
    true
}

/// Whether the user database in `passwd` (the byte contents of a
/// passwd-style file) has an entry whose name field is exactly `name`:
/// a line starting `name:`.
pub fn passwd_has_user(passwd: &[u8], name: &[u8]) -> (r: bool)
    ensures
        r == lists_user(passwd@, name@),
{
    let n: usize = passwd.len();
    let m: usize = name.len();
    if n < m || n - m < 1 {
        proof {
            assert forall|i: int| !(#[trigger] match_at(passwd@, name@, i) && (i == 0 || passwd@[i
                - 1] == 10) && i + name@.len() < passwd@.len() && passwd@[i + name@.len()]
                == 58) by {}
        }
        return false;
    }
    let last: usize = n - m;
    for i in 0..last
        invariant
            n == passwd@.len(),
            m == name@.len(),
            m + 1 <= n,
            last == n - m,
            forall|k: int|
                0 <= k < i ==> !(#[trigger] match_at(passwd@, name@, k) && (k == 0 || passwd@[k - 1]
                    == 10) && k + name@.len() < passwd@.len() && passwd@[k + name@.len()] == 58),
    {
        let at_line_start = i == 0 || passwd[i - 1] == 10;
        if at_line_start && prefix_matches_at(passwd, i, name) && passwd[i + m] == 58 {
            return true;
        }
    }
    proof {
        assert forall|k: int| !(#[trigger] match_at(passwd@, name@, k) && (k == 0 || passwd@[k - 1]
            == 10) && k + name@.len() < passwd@.len() && passwd@[k + name@.len()] == 58) by {
            if match_at(passwd@, name@, k) && k + name@.len() < passwd@.len() {
                assert(0 <= k < last);
            }
        }
    }
    false
}

/// Whether `pat` occurs anywhere in `data`; used to test whether the
/// delegation rule is already installed before appending it.
pub fn bytes_contain(data: &[u8], pat: &[u8]) -> (r: bool)
    ensures
        r == contains_bytes(data@, pat@),
{
    let n: usize = data.len();
    let m: usize = pat.len();
    if m > n {
        proof {
            assert forall|i: int| !(#[trigger] match_at(data@, pat@, i)) by {}
        }
        return false;
    }
    if m == 0 {
        proof {
            assert(data@.subrange(0, 0) =~= pat@);
            assert(match_at(data@, pat@, 0));
        }
        return true;
    }
    let last: usize = n - m;
    let mut i: usize = 0;
    while i <= last
        invariant
            n == data@.len(),
            m == pat@.len(),
            1 <= m <= n,
            last == n - m,
            i <= last + 1,
            forall|k: int| 0 <= k < i ==> !(#[trigger] match_at(data@, pat@, k)),
        decreases last + 1 - i,
    {
        if prefix_matches_at(data, i, pat) {
            return true;
        }
        i = i + 1;
    }
    proof {
        assert forall|k: int| !(#[trigger] match_at(data@, pat@, k)) by {
            if match_at(data@, pat@, k) {
                assert(0 <= k <= last);
            }
        }
    }
    false
}

/// The delegation rule line: the service identity may run commands as the
/// sandbox identity, without authentication, and nothing else.
pub open spec fn spec_sudoers_rule(runner: Seq<char>, sandbox: Seq<char>) -> Seq<char> {
    runner + " ALL = ("@ + sandbox + ") NOPASSWD: ALL"@
}

/// Renders the delegation rule for the two identities.
pub fn sudoers_rule(runner: &str, sandbox: &str) -> (r: String)
    ensures
        r@ == spec_sudoers_rule(runner@, sandbox@),
{
    let mut s = String::from_str(runner);
    s.append(" ALL = (");
    s.append(sandbox);
    s.append(") NOPASSWD: ALL");
    s
}

/// Items joined by a separator, in order.
pub open spec fn spec_joined(items: Seq<Seq<char>>, sep: Seq<char>) -> Seq<char>
    decreases items.len(),
{
    if items.len() == 0 {
        Seq::<char>::empty()
    } else if items.len() == 1 {
        items[0]
    } else {
        items[0] + sep + spec_joined(items.drop_first(), sep)
    }
}

/// Joining one more item appends a separator (unless the list was empty)
/// and the item.
pub proof fn lemma_joined_push(items: Seq<Seq<char>>, sep: Seq<char>, x: Seq<char>)
    ensures
        spec_joined(items.push(x), sep) == if items.len() == 0 {
            x
        } else {
            spec_joined(items, sep) + sep + x
        },
    decreases items.len(),
{
    if items.len() == 0 {
        assert(spec_joined(items.push(x), sep) == items.push(x)[0]);
    } else if items.len() == 1 {
        assert(items.push(x)[0] == items[0]);
        assert(items.push(x).drop_first() =~= seq![x]);
        assert(spec_joined(seq![x], sep) == x);
    } else {
        assert(items.push(x)[0] == items[0]);
        assert(items.push(x).drop_first() =~= items.drop_first().push(x));
        lemma_joined_push(items.drop_first(), sep, x);
        assert(spec_joined(items.push(x), sep) =~= spec_joined(items, sep) + sep + x);
    }
}

/// Joins the items with single spaces.
pub fn join_spaces(items: &Vec<String>) -> (r: String)
    ensures
        r@ == spec_joined(items.deep_view(), " "@),
{
    let mut s = String::new();
    let n: usize = items.len();
    for i in 0..n
        invariant
            n == items.len(),
            items.deep_view().len() == n,
            s@ == spec_joined(items.deep_view().take(i as int), " "@),
    {
        proof {
            assert(items.deep_view()[i as int] == items@[i as int]@);
            assert(items.deep_view().take(i + 1) =~= items.deep_view().take(i as int).push(
                items.deep_view()[i as int],
            ));
            lemma_joined_push(items.deep_view().take(i as int), " "@, items.deep_view()[i as int]);
        }
        if i > 0 {
            s.append(" ");
        }
        s.append(items[i].as_str());
    }
    proof {
        assert(items.deep_view().take(n as int) =~= items.deep_view());
    }
    s
}

/// The command line the service unit starts: the installed binary in
/// orchestrator-and-runner mode on the public port, with the configured
/// domain set and, when one was given, the operator's contact address.
pub open spec fn spec_exec_start(domains: Seq<Seq<char>>, email: Option<Seq<char>>) -> Seq<char> {
    "/home/ussal-runner/ussal-runner --mode orchestrator-and-runner --port 443 --domains "@
        + spec_joined(domains, " "@) + " "@ + (match email {
        Some(e) => "--email "@ + e,
        None => Seq::<char>::empty(),
    })
}

/// Renders the start command for the service unit.
pub fn exec_start(domains: &Vec<String>, email: &Option<String>) -> (r: String)
    ensures
        r@ == spec_exec_start(domains.deep_view(), match email {
            Some(e) => Some(e@),
            None => None,
        }),
{
    let mut s = String::from_str(
        "/home/ussal-runner/ussal-runner --mode orchestrator-and-runner --port 443 --domains ",
    );
    let joined = join_spaces(domains);
    s.append(joined.as_str());
    s.append(" ");
    match email {
        Some(e) => {
            s.append("--email ");
            s.append(e.as_str());
        },
        None => {},
    }
    s
}

/// A restart-on-failure service unit for the given description and start
/// command, running as the service identity with only the capability to
/// bind the privileged port.
pub open spec fn spec_service_unit(description: Seq<char>, start: Seq<char>) -> Seq<char> {
    "\n[Unit]\nDescription="@ + description
        + "\nAfter=network.target\nStartLimitIntervalSec=0\n\n[Service]\nAmbientCapabilities=CAP_NET_BIND_SERVICE\nType=simple\nRestart=always\nRestartSec=1\nUser=ussal-runner\nExecStart="@
        + start + "\n\n[Install]\nWantedBy=multi-user.target\n"@
}

/// Renders the service unit file.
pub fn service_unit(description: &str, start: &str) -> (r: String)
    ensures
        r@ == spec_service_unit(description@, start@),
{
    let mut s = String::from_str("\n[Unit]\nDescription=");
    s.append(description);
    s.append(
        "\nAfter=network.target\nStartLimitIntervalSec=0\n\n[Service]\nAmbientCapabilities=CAP_NET_BIND_SERVICE\nType=simple\nRestart=always\nRestartSec=1\nUser=ussal-runner\nExecStart=",
    );
    s.append(start);
    s.append("\n\n[Install]\nWantedBy=multi-user.target\n");
    s
}

/// The two OS identities provisioning manages.
#[derive(Clone, Copy, PartialEq, Eq, Structural, Debug)]
pub enum OsIdentity {
    ServiceRunner,
    Sandbox,
}

/// One step of the bootstrap, in the order the plan lists them.  The
/// strings a step needs (the rule line, the unit file) come from
/// [`sudoers_rule`] and [`service_unit`].
#[derive(Clone, Copy, PartialEq, Eq, Structural, Debug)]
pub enum InstallStep {
    StopService,
    DeleteUser(OsIdentity),
    CreateUser { identity: OsIdentity, with_home: bool },
    CopyExecutable,
    ChownHome,
    AppendSudoersRule,
    WriteServiceUnit,
    DaemonReload,
    EnableService,
    StartService,
}

/// Why no plan could be made.
#[derive(Clone, Copy, PartialEq, Eq, Structural, Debug)]
pub enum InstallError {
    NotRoot,
}

/// The bootstrap sequence: stop the old service, recreate the sandbox
/// identity, recreate the service identity keeping its home directory,
/// install the binary and hand the home directory over, append the
/// delegation rule unless it is already present, then install, reload,
/// enable and start the service unit.
pub open spec fn spec_install_plan(
    sandbox_exists: bool,
    runner_exists: bool,
    rule_installed: bool,
) -> Seq<InstallStep> {
    seq![InstallStep::StopService] + (if sandbox_exists {
        seq![InstallStep::DeleteUser(OsIdentity::Sandbox)]
    } else {
        Seq::<InstallStep>::empty()
    }) + seq![InstallStep::CreateUser { identity: OsIdentity::Sandbox, with_home: false }] + (
    if runner_exists {
        seq![InstallStep::DeleteUser(OsIdentity::ServiceRunner)]
    } else {
        Seq::<InstallStep>::empty()
    }) + seq![
        InstallStep::CreateUser { identity: OsIdentity::ServiceRunner, with_home: true },
        InstallStep::CopyExecutable,
        InstallStep::ChownHome,
    ] + (if rule_installed {
        Seq::<InstallStep>::empty()
    } else {
        seq![InstallStep::AppendSudoersRule]
    }) + seq![
        InstallStep::WriteServiceUnit,
        InstallStep::DaemonReload,
        InstallStep::EnableService,
        InstallStep::StartService,
    ]
}

/// Decides the bootstrap.  Only root may provision; for root the plan is
/// exactly `spec_install_plan` of the probed facts.
pub fn install_plan(
    current_user: &String,
    sandbox_exists: bool,
    runner_exists: bool,
    rule_installed: bool,
) -> (r: Result<Vec<InstallStep>, InstallError>)
    ensures
        r is Ok <==> current_user@ == "root"@,
        r matches Ok(plan) ==> plan@ == spec_install_plan(
            sandbox_exists,
            runner_exists,
            rule_installed,
        ),
        r is Err ==> r == Result::<Vec<InstallStep>, InstallError>::Err(InstallError::NotRoot),
{
    let root = String::from_str("root");
    if !current_user.eq(&root) {
        return Err(InstallError::NotRoot);
    }
    let mut plan: Vec<InstallStep> = Vec::new();
    plan.push(InstallStep::StopService);
    if sandbox_exists {
        plan.push(InstallStep::DeleteUser(OsIdentity::Sandbox));
    }
    plan.push(InstallStep::CreateUser { identity: OsIdentity::Sandbox, with_home: false });
    if runner_exists {
        plan.push(InstallStep::DeleteUser(OsIdentity::ServiceRunner));
    }
    plan.push(InstallStep::CreateUser { identity: OsIdentity::ServiceRunner, with_home: true });
    plan.push(InstallStep::CopyExecutable);
    plan.push(InstallStep::ChownHome);
    if !rule_installed {
        plan.push(InstallStep::AppendSudoersRule);
    }
    plan.push(InstallStep::WriteServiceUnit);
    plan.push(InstallStep::DaemonReload);
    plan.push(InstallStep::EnableService);
    plan.push(InstallStep::StartService);
    proof {
        assert(plan@ =~= spec_install_plan(sandbox_exists, runner_exists, rule_installed));
    }
    Ok(plan)
}

} // verus!

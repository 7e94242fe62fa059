use ussal_runner::provision::{
    bytes_contain, exec_start, install_plan, passwd_has_user, service_unit, sudoers_rule,
    InstallError, InstallStep, OsIdentity,
};

#[test]
fn test_passwd_has_user_matches_whole_name_at_line_start() {
    let passwd = b"root:x:0:0:root:/root:/bin/bash\nussal-runner:x:1000:1000::/home/ussal-runner:\n";
    assert!(passwd_has_user(passwd, b"root"));
    assert!(passwd_has_user(passwd, b"ussal-runner"));
    // A prefix of a name is not an entry.
    assert!(!passwd_has_user(passwd, b"ussal"));
    assert!(!passwd_has_user(passwd, b"ussal-sandbox"));
    // A name occurring mid-line is not an entry.
    assert!(!passwd_has_user(passwd, b"bin"));
}

#[test]
fn test_passwd_has_user_empty_file() {
    assert!(!passwd_has_user(b"", b"root"));
}

#[test]
fn test_bytes_contain() {
    let sudoers = b"# rules\nussal-runner ALL = (ussal-sandbox) NOPASSWD: ALL\n";
    assert!(bytes_contain(sudoers, b"ussal-runner"));
    assert!(!bytes_contain(sudoers, b"other-user"));
    assert!(bytes_contain(sudoers, b""));
}

#[test]
fn test_sudoers_rule_exact() {
    assert_eq!(
        sudoers_rule("ussal-runner", "ussal-sandbox"),
        "ussal-runner ALL = (ussal-sandbox) NOPASSWD: ALL"
    );
}

#[test]
fn test_exec_start_with_email() {
    let domains = vec!["bench.example.org".to_string(), "alt.example.org".to_string()];
    let email = Some("ops@example.org".to_string());
    assert_eq!(
        exec_start(&domains, &email),
        "/home/ussal-runner/ussal-runner --mode orchestrator-and-runner --port 443 \
         --domains bench.example.org alt.example.org --email ops@example.org"
    );
}

#[test]
fn test_exec_start_without_email() {
    let domains = vec!["bench.example.org".to_string()];
    assert_eq!(
        exec_start(&domains, &None),
        "/home/ussal-runner/ussal-runner --mode orchestrator-and-runner --port 443 \
         --domains bench.example.org "
    );
}

#[test]
fn test_service_unit_exact() {
    let unit = service_unit("Ussal orchestrator and runner", "/home/ussal-runner/ussal-runner");
    assert_eq!(
        unit,
        "\n[Unit]\nDescription=Ussal orchestrator and runner\nAfter=network.target\n\
         StartLimitIntervalSec=0\n\n[Service]\nAmbientCapabilities=CAP_NET_BIND_SERVICE\n\
         Type=simple\nRestart=always\nRestartSec=1\nUser=ussal-runner\n\
         ExecStart=/home/ussal-runner/ussal-runner\n\n[Install]\nWantedBy=multi-user.target\n"
    );
}

#[test]
fn test_install_plan_requires_root() {
    let r = install_plan(&"alice".to_string(), false, false, false);
    assert_eq!(r, Err(InstallError::NotRoot));
}

#[test]
fn test_install_plan_fresh_host() {
    let plan = install_plan(&"root".to_string(), false, false, false).unwrap();
    assert_eq!(
        plan,
        vec![
            InstallStep::StopService,
            InstallStep::CreateUser { identity: OsIdentity::Sandbox, with_home: false },
            InstallStep::CreateUser { identity: OsIdentity::ServiceRunner, with_home: true },
            InstallStep::CopyExecutable,
            InstallStep::ChownHome,
            InstallStep::AppendSudoersRule,
            InstallStep::WriteServiceUnit,
            InstallStep::DaemonReload,
            InstallStep::EnableService,
            InstallStep::StartService,
        ]
    );
}

#[test]
fn test_install_plan_reinstall_keeps_rule() {
    let plan = install_plan(&"root".to_string(), true, true, true).unwrap();
    assert_eq!(
        plan,
        vec![
            InstallStep::StopService,
            InstallStep::DeleteUser(OsIdentity::Sandbox),
            InstallStep::CreateUser { identity: OsIdentity::Sandbox, with_home: false },
            InstallStep::DeleteUser(OsIdentity::ServiceRunner),
            InstallStep::CreateUser { identity: OsIdentity::ServiceRunner, with_home: true },
            InstallStep::CopyExecutable,
            InstallStep::ChownHome,
            InstallStep::WriteServiceUnit,
            InstallStep::DaemonReload,
            InstallStep::EnableService,
            InstallStep::StartService,
        ]
    );
}

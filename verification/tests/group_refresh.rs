use obscuravpn_client::linux::ipc::{group_refresh_rerun, group_refresh_test, sg_exec_command, LinuxIpcError};
use obscuravpn_client::manager_cmd::ManagerCmdErrorCode;

fn members() -> Vec<String> {
    vec!["alice".to_owned(), "bob".to_owned()]
}

#[test]
fn group_refresh_test_runs_only_when_refused_and_member() {
    let refused: Result<Result<(), ManagerCmdErrorCode>, LinuxIpcError> = Err(LinuxIpcError::InsufficientPermissions);
    let argv = group_refresh_test(&refused, "bob", "obscura", &members(), "/usr/bin/obscura").unwrap();
    assert_eq!(argv, vec!["sg", "obscura", "-c", "exec /usr/bin/obscura --no-group-refresh ipc-test"]);
    assert!(group_refresh_test(&refused, "carol", "obscura", &members(), "/usr/bin/obscura").is_none());
    let ok: Result<Result<(), ManagerCmdErrorCode>, LinuxIpcError> = Ok(Ok(()));
    assert!(group_refresh_test(&ok, "bob", "obscura", &members(), "/usr/bin/obscura").is_none());
    let no_listener: Result<Result<(), ManagerCmdErrorCode>, LinuxIpcError> = Err(LinuxIpcError::NoListener);
    assert!(group_refresh_test(&no_listener, "bob", "obscura", &members(), "/usr/bin/obscura").is_none());
}

#[test]
fn group_refresh_rerun_quotes_arguments() {
    let args = vec!["set-tunnel".to_owned(), "it's here".to_owned()];
    let argv = group_refresh_rerun(true, "obscura", "/usr/bin/obscura", &args).unwrap();
    assert_eq!(argv[..3], ["sg", "obscura", "-c"]);
    assert_eq!(
        shlex::split(&argv[3]).unwrap(),
        vec!["exec", "/usr/bin/obscura", "--no-group-refresh", "set-tunnel", "it's here"]
    );
    assert!(group_refresh_rerun(false, "obscura", "/usr/bin/obscura", &args).is_none());
    let nul = vec!["a\0b".to_owned()];
    assert!(group_refresh_rerun(true, "obscura", "/usr/bin/obscura", &nul).is_none());
    assert!(sg_exec_command("g", "p", &nul).is_none());
}

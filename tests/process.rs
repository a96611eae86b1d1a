use multiprocessing::process::{CompletedProcess, ExitStatus, JoinHandle};

#[test]
fn clean_exit_is_success() {
    let done = CompletedProcess::new(42, ExitStatus::Exited(0));
    assert!(done.success());
    assert_eq!(done.exitcode(), Some(0));
    assert_eq!(done.exit_status(), ExitStatus::Exited(0));
}

#[test]
fn nonzero_exit_is_failure() {
    let done = CompletedProcess::new(42, ExitStatus::Exited(3));
    assert!(!done.success());
    assert_eq!(done.exitcode(), Some(3));
}

#[test]
fn killed_child_is_failure() {
    let done = CompletedProcess::new(42, ExitStatus::Signaled(9));
    assert!(!done.success());
    assert_eq!(done.exitcode(), None);
}

#[test]
fn other_status_has_no_code() {
    let done = CompletedProcess::new(7, ExitStatus::Other);
    assert!(!done.success());
    assert_eq!(done.exitcode(), None);
}

#[test]
fn handle_keeps_pid() {
    assert_eq!(JoinHandle::from_pid(1234).pid(), 1234);
}

#[test]
fn joining_a_process_that_is_not_a_child_fails() {
    let r = JoinHandle::from_pid(1).join();
    assert!(matches!(r, Err(nix::errno::Errno::ECHILD)));
}

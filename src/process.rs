//! Joining forked processes and reading how they ended.
use vstd::prelude::*;


verus! {

/// How a child process terminated.
#[derive(Clone, Copy, Debug, PartialEq, Eq, Structural)]
pub enum ExitStatus {
    /// It exited normally with this code.
    Exited(i32),
    /// It was killed by the signal with this number.
    Signaled(i32),
    /// Any other state change the system reported.
    Other,
}

impl ExitStatus {
    /// The exit code, for a process that exited normally.
    pub open spec fn code(self) -> Option<i32> {
        match self {
            ExitStatus::Exited(code) => Some(code),
            _ => None,
        }
    }

    /// A normal exit with code 0.
    pub open spec fn is_success(self) -> bool {
        self.code() == Some(0i32)
    }
}

/// Relies on `nix::sys::wait::waitpid` called with no flags: it blocks until
/// the child `pid` changes state and reports that state, or an error. Each
/// variant of nix's status is carried over with its fields.
#[verifier::external_body]
fn wait_child(pid: i32) -> (r: Result<ExitStatus, nix::errno::Errno>) {
    match nix::sys::wait::waitpid(nix::unistd::Pid::from_raw(pid), None) {
        Ok(nix::sys::wait::WaitStatus::Exited(_, code)) => Ok(ExitStatus::Exited(code)),
        Ok(nix::sys::wait::WaitStatus::Signaled(_, sig, _)) => Ok(ExitStatus::Signaled(sig as i32)),
        Ok(_) => Ok(ExitStatus::Other),
        Err(e) => Err(e),
    }
}

/// The handle on a spawned child process, owned until it is joined.
pub struct JoinHandle {
    pid: i32,
}

impl JoinHandle {
    pub closed spec fn spec_pid(&self) -> i32 {
        self.pid
    }

    /// A handle on the child process `pid`, as a fork in the parent returned it.
    pub fn from_pid(pid: i32) -> (r: JoinHandle)
        ensures
            r.spec_pid() == pid,
    {
        JoinHandle { pid }
    }

    /// The identifier of the child process.
    pub fn pid(&self) -> (r: i32)
        ensures
            r == self.spec_pid(),
    {
        self.pid
    }

    /// Waits until the child terminates. Consumes the handle, so each child
    /// is joined at most once. The record holds the status the system
    /// reported; a failed wait returns its error.
    pub fn join(self) -> (r: Result<CompletedProcess, nix::errno::Errno>)
        ensures
            r matches Ok(c) ==> c.pid() == self.spec_pid(),
    {
        match wait_child(self.pid) {
            Ok(status) => Ok(CompletedProcess::new(self.pid, status)),
            Err(e) => Err(e),
        }
    }
}

/// The record of a terminated child process.
pub struct CompletedProcess {
    pid: i32,
    status: ExitStatus,
}

impl CompletedProcess {
    pub closed spec fn pid(&self) -> i32 {
        self.pid
    }

    pub closed spec fn status(&self) -> ExitStatus {
        self.status
    }

    /// The record of child `pid` that terminated with `status`.
    pub fn new(pid: i32, status: ExitStatus) -> (r: CompletedProcess)
        ensures
            r.pid() == pid,
            r.status() == status,
    {
        CompletedProcess { pid, status }
    }

    /// How the child terminated.
    pub fn exit_status(&self) -> (r: ExitStatus)
        ensures
            r == self.status(),
    {
        self.status
    }

    /// True iff the child exited normally with code 0.
    pub fn success(&self) -> (r: bool)
        ensures
            r == self.status().is_success(),
    {
        self.exitcode() == Some(0i32)
    }

    /// The exit code, if the child exited normally; none if it was killed.
    pub fn exitcode(&self) -> (r: Option<i32>)
        ensures
            r == self.status().code(),
    {
        match self.status {
            ExitStatus::Exited(code) => Some(code),
            _ => None,
        }
    }
}

} // verus!

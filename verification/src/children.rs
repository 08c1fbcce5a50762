//! Interrupting a child process, each call leaving a record that only this
//! call can make.

use vstd::prelude::*;

verus! {

/// One attempt to interrupt a process. Its fields are private and it cannot be
/// copied or cloned: only `interrupt_process` builds one, and each call builds
/// one, so every attempt records the process that its own signal was sent to.
#[derive(Debug)]
pub struct KillAttempt {
    pid: i32,
    ok: bool,
}

impl KillAttempt {
    /// The process the signal was sent to.
    pub closed spec fn target(&self) -> i32 {
        self.pid
    }

    /// Whether the signal was delivered.
    pub closed spec fn succeeded(&self) -> bool {
        self.ok
    }

    /// The process the signal was sent to.
    pub fn pid(&self) -> (r: i32)
        ensures
            r == self.target(),
    {
        self.pid
    }

    /// Whether the signal was delivered.
    pub fn is_success(&self) -> (r: bool)
        ensures
            r == self.succeeded(),
    {
        self.ok
    }
}

/// Sends `SIGINT` to process `pid` through `nix::sys::signal::kill` and records
/// the process and whether the call succeeded. Whether it succeeds depends on
/// the system, so only the process it was sent to is stated.
#[verifier::external_body]
pub(crate) fn interrupt_process(pid: i32) -> (r: KillAttempt)
    ensures
        r.target() == pid,
{
    let ok = nix::sys::signal::kill(
        nix::unistd::Pid::from_raw(pid),
        nix::sys::signal::Signal::SIGINT,
    ).is_ok();
    KillAttempt { pid, ok }
}

} // verus!

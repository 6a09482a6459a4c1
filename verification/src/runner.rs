//! The deadline runner's decision logic: one external command is polled at
//! a fixed interval and force-killed once the configured timeout elapses.
//! The process work itself lives outside the library; these functions
//! decide, from elapsed time and observed process state, what happens
//! next, and package the outcomes.

use vstd::prelude::*;

use crate::strutil::contains_seq;
use crate::strutil::contains_str;

verus! {

/// Whether the init process's cgroup listing says the process itself runs
/// inside a container: the self-test commands refuse to run elsewhere.
pub fn is_running_as_docker_container(init_cgroups: &str) -> (r: bool)
    ensures
        r == contains_seq(init_cgroups@, "docker"@),
{
    contains_str(init_cgroups, "docker")
}

/// Outcome of one sandboxed command: the command may exit non-zero, which
/// is a legitimate result, not a runner-level error.
#[derive(Debug)]
pub struct ExecResult {
    pub exit_code: Option<i32>,
    pub stdout: String,
    pub stderr: String,
    pub timed_out: bool,
    pub duration_ms: u64,
}

impl ExecResult {
    /// The all-default value: reported for the execution phase whenever it
    /// was never attempted.
    pub open spec fn is_default(&self) -> bool {
        &&& self.exit_code is None
        &&& self.stdout@.len() == 0
        &&& self.stderr@.len() == 0
        &&& !self.timed_out
        &&& self.duration_ms == 0
    }

    /// A phase failed when it timed out or exited non-zero.
    pub open spec fn is_failure(&self) -> bool {
        self.timed_out || (self.exit_code matches Some(c) && c != 0)
    }
}

impl Default for ExecResult {
    fn default() -> (r: Self)
        ensures
            r.is_default(),
    {
        ExecResult {
            exit_code: None,
            stdout: String::new(),
            stderr: String::new(),
            timed_out: false,
            duration_ms: 0,
        }
    }
}

/// What the runner does after one poll of the child process.
#[derive(Debug, Clone, Copy, PartialEq, Eq, Structural)]
pub enum PollAction {
    /// The process exited: collect its output and exit code.
    Finish,
    /// The deadline has passed: kill the process and report a timeout.
    Kill,
    /// Sleep one poll interval and look again.
    Wait,
}

/// The decision taken when the child has been seen `exited` after
/// `elapsed_ms` of a run capped at `timeout_seconds` (0 caps nothing).
pub open spec fn spec_poll_decision(timeout_seconds: u64, elapsed_ms: u64, exited: bool)
    -> PollAction {
    if exited {
        PollAction::Finish
    } else if timeout_seconds != 0 && elapsed_ms >= timeout_seconds * 1000 {
        PollAction::Kill
    } else {
        PollAction::Wait
    }
}

pub fn poll_decision(timeout_seconds: u64, elapsed_ms: u64, exited: bool) -> (r: PollAction)
    ensures
        r == spec_poll_decision(timeout_seconds, elapsed_ms, exited),
{
    if exited {
        PollAction::Finish
    } else if timeout_seconds != 0 && elapsed_ms / 1000 >= timeout_seconds {
        proof {
            assert(elapsed_ms >= timeout_seconds * 1000) by (nonlinear_arith)
                requires
                    elapsed_ms / 1000 >= timeout_seconds,
            ;
        }
        PollAction::Kill
    } else {
        proof {
            if timeout_seconds != 0 {
                assert(elapsed_ms < timeout_seconds * 1000) by (nonlinear_arith)
                    requires
                        elapsed_ms / 1000 < timeout_seconds,
                ;
            }
        }
        PollAction::Wait
    }
}

/// The result reported for a killed run: flagged timed out, no exit code,
/// and partial output discarded by design.
pub fn timeout_result(elapsed_ms: u64) -> (r: ExecResult)
    ensures
        r.timed_out,
        r.exit_code is None,
        r.stdout@.len() == 0,
        r.stderr@.len() == 0,
        r.duration_ms == elapsed_ms,
        r.is_failure(),
{
    ExecResult {
        exit_code: None,
        stdout: String::new(),
        stderr: String::new(),
        timed_out: true,
        duration_ms: elapsed_ms,
    }
}

/// A process killed at the first poll past the deadline dies within one
/// poll interval of the configured timeout: if the previous poll was
/// still waiting and polls are at most `poll_interval_ms` apart, the kill
/// happens no later than `timeout + interval`.
pub proof fn lemma_kill_within_poll_interval(
    timeout_seconds: u64,
    prev_elapsed_ms: u64,
    elapsed_ms: u64,
    poll_interval_ms: u64,
)
    requires
        spec_poll_decision(timeout_seconds, prev_elapsed_ms, false) is Wait,
        elapsed_ms <= prev_elapsed_ms + poll_interval_ms,
        spec_poll_decision(timeout_seconds, elapsed_ms, false) is Kill,
    ensures
        timeout_seconds * 1000 <= elapsed_ms < timeout_seconds * 1000 + poll_interval_ms,
{
}

} // verus!

//! The outcome of running a diagnostic command.

use vstd::prelude::*;

verus! {

/// Most bytes of a command's output that a bundle keeps, per stream.
pub const OUTPUT_LIMIT: u64 = 65536;

/// How a command ended: with an exit code, or killed by a signal.
#[derive(Debug, Clone, Copy, PartialEq, Eq, Structural)]
pub enum DebugTaskCommandExitStatus {
    Code(i32),
    Signal(i32),
}

impl DebugTaskCommandExitStatus {
    /// The exit status from what the OS reports: the exit code if there is one, else the signal;
    /// `None` if there is neither.
    pub fn from_code_and_signal(code: Option<i32>, signal: Option<i32>) -> (r: Option<Self>)
        ensures
            r == (match (code, signal) {
                (Some(c), _) => Some(DebugTaskCommandExitStatus::Code(c)),
                (None, Some(s)) => Some(DebugTaskCommandExitStatus::Signal(s)),
                (None, None) => None,
            }),
    {
        if let Some(code) = code {
            return Some(DebugTaskCommandExitStatus::Code(code));
        }
        if let Some(signal) = signal {
            return Some(DebugTaskCommandExitStatus::Signal(signal));
        }
        None
    }
}

/// A command that a debug bundle ran, and what it printed.
#[derive(Debug, Clone)]
pub struct DebugTaskCommand {
    pub program: String,
    pub args: Vec<String>,
    pub exit_status: DebugTaskCommandExitStatus,
    pub stdout: String,
    pub stdout_truncated_bytes: Option<u64>,
    pub stderr: String,
    pub stderr_truncated_bytes: Option<u64>,
}

/// How many bytes of a stream were dropped beyond the limit, if any were.
pub fn truncated_bytes(dropped: u64) -> (r: Option<u64>)
    ensures
        r == (if dropped > 0 {
            Some(dropped)
        } else {
            None
        }),
{
    if dropped > 0 {
        Some(dropped)
    } else {
        None
    }
}

} // verus!

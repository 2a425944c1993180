//! The states of a process.

use vstd::prelude::*;

verus! {

/// The state of a process.
#[derive(Debug, Clone, Copy, PartialEq, Eq, Structural)]
pub enum ProcessState {
    /// Waiting for the CPU.
    Ready,
    /// On the CPU.
    Running,
    /// Waiting for a resource or an event.
    Blocked,
    /// Waiting for a message.
    WaitingForMessage,
    /// Ended, and waiting to be removed.
    Terminated,
}

impl ProcessState {
    /// The name of the state.
    pub open spec fn name(self) -> Seq<char> {
        match self {
            ProcessState::Ready => "Ready"@,
            ProcessState::Running => "Running"@,
            ProcessState::Blocked => "Blocked"@,
            ProcessState::WaitingForMessage => "WaitingForMessage"@,
            ProcessState::Terminated => "Terminated"@,
        }
    }

    /// Whether the process can be given the CPU: it is ready.
    pub fn is_schedulable(self) -> (r: bool)
        ensures
            r == (self == ProcessState::Ready),
    {
        matches!(self, ProcessState::Ready)
    }

    /// Whether the process is on the CPU.
    pub fn is_running(self) -> (r: bool)
        ensures
            r == (self == ProcessState::Running),
    {
        matches!(self, ProcessState::Running)
    }

    /// Whether the process waits, for whatever.
    pub fn is_blocked(self) -> (r: bool)
        ensures
            r == (self == ProcessState::Blocked || self == ProcessState::WaitingForMessage),
    {
        matches!(self, ProcessState::Blocked | ProcessState::WaitingForMessage)
    }

    /// Whether the process has ended.
    pub fn is_terminated(self) -> (r: bool)
        ensures
            r == (self == ProcessState::Terminated),
    {
        matches!(self, ProcessState::Terminated)
    }

    /// The name of the state.
    pub fn as_str(&self) -> (r: &'static str)
        ensures
            r@ == self.name(),
    {
        match self {
            ProcessState::Ready => "Ready",
            ProcessState::Running => "Running",
            ProcessState::Blocked => "Blocked",
            ProcessState::WaitingForMessage => "WaitingForMessage",
            ProcessState::Terminated => "Terminated",
        }
    }
}

} // verus!

//! A process: its identity, state, address space, registers, capabilities
//! and pending messages.

use super::capability::CapabilitySet;
use super::context::ProcessContext;
use super::id::ProcessId;
use super::ipc::Message;
use super::state::ProcessState;
use crate::memory::address::{PhysAddr, VirtAddr};
use std::collections::VecDeque;
use vstd::prelude::*;

verus! {

/// A process.
#[derive(Debug, Clone, PartialEq, Eq)]
pub struct Process {
    /// Identifier; 0 until the process table assigns one.
    pub pid: ProcessId,
    /// State.
    pub state: ProcessState,
    /// Physical address of the root page table.
    pub page_table: PhysAddr,
    /// Saved registers.
    pub context: ProcessContext,
    /// Top of the stack.
    pub stack_top: VirtAddr,
    /// Where execution starts.
    pub entry_point: VirtAddr,
    /// Capabilities held.
    pub capabilities: CapabilitySet,
    /// Messages received and not yet taken, oldest first.
    pub ipc_queue: VecDeque<Message>,
}

impl Process {
    /// A ready process that starts at `entry_point` with its stack at
    /// `stack_addr`. It has no identifier, no page table and no messages yet.
    pub fn new(entry_point: VirtAddr, stack_addr: VirtAddr, capabilities: CapabilitySet) -> (r:
        Self)
        ensures
            r.pid@ == 0,
            r.state == ProcessState::Ready,
            r.page_table@ == 0,
            r.context == ProcessContext::entry_context(entry_point@, stack_addr@),
            r.stack_top == stack_addr,
            r.entry_point == entry_point,
            r.capabilities == capabilities,
            r.ipc_queue@ == Seq::<Message>::empty(),
    {
        Self {
            pid: ProcessId::new(0),
            state: ProcessState::Ready,
            page_table: PhysAddr::new(0),
            context: ProcessContext::for_entry(entry_point.as_u64(), stack_addr.as_u64()),
            stack_top: stack_addr,
            entry_point,
            capabilities,
            ipc_queue: VecDeque::new(),
        }
    }

    /// A process like that of `new`, with the root page table at
    /// `page_table`.
    pub fn with_page_table(
        entry_point: VirtAddr,
        stack_addr: VirtAddr,
        page_table: PhysAddr,
        capabilities: CapabilitySet,
    ) -> (r: Self)
        ensures
            r.pid@ == 0,
            r.state == ProcessState::Ready,
            r.page_table == page_table,
            r.context == ProcessContext::entry_context(entry_point@, stack_addr@),
            r.stack_top == stack_addr,
            r.entry_point == entry_point,
            r.capabilities == capabilities,
            r.ipc_queue@ == Seq::<Message>::empty(),
    {
        let mut process = Self::new(entry_point, stack_addr, capabilities);
        process.page_table = page_table;
        process
    }

    /// Assigns the identifier.
    pub fn set_pid(&mut self, pid: ProcessId)
        ensures
            *final(self) == (Process { pid, ..*old(self) }),
    {
        self.pid = pid;
    }

    /// Sets the state.
    pub fn set_state(&mut self, state: ProcessState)
        ensures
            *final(self) == (Process { state, ..*old(self) }),
    {
        self.state = state;
    }

    /// The process is on the CPU.
    pub fn mark_running(&mut self)
        ensures
            *final(self) == (Process { state: ProcessState::Running, ..*old(self) }),
    {
        self.state = ProcessState::Running;
    }

    /// The process waits for the CPU.
    pub fn mark_ready(&mut self)
        ensures
            *final(self) == (Process { state: ProcessState::Ready, ..*old(self) }),
    {
        self.state = ProcessState::Ready;
    }

    /// The process waits for a resource or an event.
    pub fn mark_blocked(&mut self)
        ensures
            *final(self) == (Process { state: ProcessState::Blocked, ..*old(self) }),
    {
        self.state = ProcessState::Blocked;
    }

    /// The process waits for a message.
    pub fn mark_waiting_for_message(&mut self)
        ensures
            *final(self) == (Process { state: ProcessState::WaitingForMessage, ..*old(self) }),
    {
        self.state = ProcessState::WaitingForMessage;
    }

    /// The process has ended.
    pub fn mark_terminated(&mut self)
        ensures
            *final(self) == (Process { state: ProcessState::Terminated, ..*old(self) }),
    {
        self.state = ProcessState::Terminated;
    }

    /// Puts `message` at the end of the queue. A process that waits for a
    /// message becomes ready; any other keeps its state.
    pub fn queue_message(&mut self, message: Message)
        ensures
            final(self).ipc_queue@ == old(self).ipc_queue@.push(message),
            final(self).state == if old(self).state == ProcessState::WaitingForMessage {
                ProcessState::Ready
            } else {
                old(self).state
            },
            final(self).pid == old(self).pid,
            final(self).page_table == old(self).page_table,
            final(self).context == old(self).context,
            final(self).stack_top == old(self).stack_top,
            final(self).entry_point == old(self).entry_point,
            final(self).capabilities == old(self).capabilities,
    {
        self.ipc_queue.push_back(message);
        if self.state == ProcessState::WaitingForMessage {
            self.state = ProcessState::Ready;
        }
    }

    /// Takes the oldest message from the queue, if there is one.
    pub fn receive_message(&mut self) -> (r: Option<Message>)
        ensures
            match r {
                Some(message) => old(self).ipc_queue@.len() > 0 && message == old(
                    self,
                ).ipc_queue@[0] && final(self).ipc_queue@ == old(self).ipc_queue@.subrange(
                    1,
                    old(self).ipc_queue@.len() as int,
                ),
                None => old(self).ipc_queue@.len() == 0 && final(self).ipc_queue@ == old(
                    self,
                ).ipc_queue@,
            },
            final(self).state == old(self).state,
            final(self).pid == old(self).pid,
            final(self).page_table == old(self).page_table,
            final(self).context == old(self).context,
            final(self).stack_top == old(self).stack_top,
            final(self).entry_point == old(self).entry_point,
            final(self).capabilities == old(self).capabilities,
    {
        self.ipc_queue.pop_front()
    }

    /// Whether any message waits in the queue.
    pub fn has_pending_messages(&self) -> (r: bool)
        ensures
            r == (self.ipc_queue@.len() > 0),
    {
        self.ipc_queue.len() > 0
    }

    /// Number of messages that wait in the queue.
    pub fn pending_message_count(&self) -> (r: usize)
        ensures
            r == self.ipc_queue@.len(),
    {
        self.ipc_queue.len()
    }
}

} // verus!

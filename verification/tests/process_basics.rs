use yomi_kernel::process::capability::{Capability, CapabilitySet, CapabilityType};
use yomi_kernel::process::context::ProcessContext;
use yomi_kernel::process::id::ProcessId;
use yomi_kernel::process::ipc::{Message, MAX_INLINE_DATA};
use yomi_kernel::process::state::ProcessState;

#[test]
fn test_empty_capability_set() {
    let caps = CapabilitySet::new();
    assert!(caps.is_empty());
    assert_eq!(caps.len(), 0);
}

#[test]
fn test_add_capability() {
    let mut caps = CapabilitySet::new();
    let cap = Capability {
        cap_type: CapabilityType::Memory,
        object_id: 1,
        permissions: 0x3,
    };

    caps.add(cap);
    assert!(!caps.is_empty());
    assert_eq!(caps.len(), 1);
    assert!(caps.contains(&cap));
}

#[test]
fn test_add_duplicate_capability() {
    let mut caps = CapabilitySet::new();
    let cap = Capability {
        cap_type: CapabilityType::Memory,
        object_id: 1,
        permissions: 0x3,
    };

    caps.add(cap);
    caps.add(cap);
    assert_eq!(caps.len(), 1);
}

#[test]
fn test_remove_capability() {
    let mut caps = CapabilitySet::new();
    let cap = Capability {
        cap_type: CapabilityType::Endpoint,
        object_id: 42,
        permissions: 0x1,
    };

    caps.add(cap);
    assert!(caps.remove(&cap));
    assert!(caps.is_empty());
    assert!(!caps.remove(&cap));
}

#[test]
fn test_has_capability_type() {
    let mut caps = CapabilitySet::new();
    assert!(!caps.has_capability_type(CapabilityType::Device));

    caps.add(Capability {
        cap_type: CapabilityType::Device,
        object_id: 0,
        permissions: 0,
    });
    assert!(caps.has_capability_type(CapabilityType::Device));
    assert!(!caps.has_capability_type(CapabilityType::Process));
}

#[test]
fn capability_set_keeps_order_and_removes_the_first() {
    let a = Capability { cap_type: CapabilityType::Memory, object_id: 1, permissions: 1 };
    let b = Capability { cap_type: CapabilityType::Process, object_id: 2, permissions: 2 };
    let mut caps = CapabilitySet::with_capabilities(vec![a, b, a]);
    assert_eq!(caps.len(), 3);
    assert!(caps.remove(&a));
    assert_eq!(caps.iter().copied().collect::<Vec<_>>(), vec![b, a]);
    caps.add(a);
    assert_eq!(caps.len(), 2);
    caps.clear();
    assert!(caps.is_empty());
    assert_eq!(CapabilitySet::default(), CapabilitySet::new());
}

#[test]
fn test_new_context() {
    let ctx = ProcessContext::new();
    assert_eq!(ctx.rax, 0);
    assert_eq!(ctx.rip, 0);
    assert_eq!(ctx.rflags, 0x200); // IF=1
}

#[test]
fn test_for_entry() {
    let entry = 0x1000;
    let stack = 0x8000;
    let ctx = ProcessContext::for_entry(entry, stack);

    assert_eq!(ctx.rip, entry);
    assert_eq!(ctx.rsp, stack);
    assert_eq!(ctx.rbp, stack);
    assert_eq!(ctx.rflags, 0x200);
}

#[test]
fn test_set_stack_pointer() {
    let mut ctx = ProcessContext::new();
    ctx.set_stack_pointer(0x5000);
    assert_eq!(ctx.rsp, 0x5000);
    assert_eq!(ctx.rbp, 0x5000);
}

#[test]
fn test_set_instruction_pointer() {
    let mut ctx = ProcessContext::new();
    ctx.set_instruction_pointer(0x2000);
    assert_eq!(ctx.rip, 0x2000);
}

#[test]
fn test_context_size() {
    // Ensure the context is the expected size (18 * 8 = 144 bytes)
    assert_eq!(core::mem::size_of::<ProcessContext>(), 144);
}

#[test]
fn context_setters_touch_nothing_else() {
    let mut ctx = ProcessContext::for_entry(0x1000, 0x8000);
    ctx.set_instruction_pointer(0x2000);
    ctx.set_stack_pointer(0x9000);
    let mut expected = ProcessContext::new();
    expected.rip = 0x2000;
    expected.rsp = 0x9000;
    expected.rbp = 0x9000;
    assert_eq!(ctx, expected);
    assert_eq!(ProcessContext::default(), ProcessContext::new());
}

#[test]
fn test_process_id_creation() {
    let pid = ProcessId::new(42);
    assert_eq!(pid.as_u64(), 42);
}

#[test]
fn test_kernel_pid() {
    assert!(ProcessId::kernel().is_kernel());
    assert_eq!(ProcessId::kernel().as_u64(), 0);
}

#[test]
fn test_non_kernel_pid() {
    let pid = ProcessId::new(1);
    assert!(!pid.is_kernel());
}

#[test]
fn test_pid_equality() {
    let pid1 = ProcessId::new(10);
    let pid2 = ProcessId::new(10);
    let pid3 = ProcessId::new(20);
    assert_eq!(pid1, pid2);
    assert_ne!(pid1, pid3);
}

#[test]
fn test_pid_ordering() {
    let pid1 = ProcessId::new(1);
    let pid2 = ProcessId::new(2);
    assert!(pid1 < pid2);
}

#[test]
fn test_new_message() {
    let sender = ProcessId::new(1);
    let msg = Message::new(sender, 42);

    assert_eq!(msg.sender, sender);
    assert_eq!(msg.tag, 42);
    assert_eq!(msg.data_len, 0);
    assert!(!msg.has_data());
}

#[test]
fn test_message_with_data() {
    let sender = ProcessId::new(1);
    let data = b"Hello";
    let msg = Message::with_data(sender, 1, data).unwrap();

    assert_eq!(msg.sender, sender);
    assert_eq!(msg.tag, 1);
    assert_eq!(msg.data(), data.as_slice());
    assert!(msg.has_data());
}

#[test]
fn test_message_data_too_large() {
    let sender = ProcessId::new(1);
    let data = [0u8; MAX_INLINE_DATA + 1];
    let msg = Message::with_data(sender, 1, &data);

    assert!(msg.is_none());
}

#[test]
fn test_max_inline_data() {
    let sender = ProcessId::new(1);
    let data = [0xaa; MAX_INLINE_DATA];
    let msg = Message::with_data(sender, 1, &data).unwrap();

    assert_eq!(msg.data_len, MAX_INLINE_DATA);
    assert_eq!(msg.data(), &data);
}

#[test]
fn message_pads_with_zeros() {
    let msg = Message::with_data(ProcessId::new(7), 3, &[1, 2, 3]).unwrap();
    let mut expected = [0u8; MAX_INLINE_DATA];
    expected[..3].copy_from_slice(&[1, 2, 3]);
    assert_eq!(msg.data, expected);
    assert_eq!(msg.data_len, 3);
    let empty = Message::with_data(ProcessId::new(7), 3, &[]).unwrap();
    assert_eq!(empty, Message::new(ProcessId::new(7), 3));
    assert!(empty.data().is_empty());
}

#[test]
fn test_ready_state() {
    let state = ProcessState::Ready;
    assert!(state.is_schedulable());
    assert!(!state.is_running());
    assert!(!state.is_blocked());
    assert!(!state.is_terminated());
}

#[test]
fn test_running_state() {
    let state = ProcessState::Running;
    assert!(!state.is_schedulable());
    assert!(state.is_running());
    assert!(!state.is_blocked());
    assert!(!state.is_terminated());
}

#[test]
fn test_blocked_state() {
    let state = ProcessState::Blocked;
    assert!(!state.is_schedulable());
    assert!(!state.is_running());
    assert!(state.is_blocked());
    assert!(!state.is_terminated());
}

#[test]
fn test_waiting_for_message_state() {
    let state = ProcessState::WaitingForMessage;
    assert!(!state.is_schedulable());
    assert!(!state.is_running());
    assert!(state.is_blocked());
    assert!(!state.is_terminated());
}

#[test]
fn test_terminated_state() {
    let state = ProcessState::Terminated;
    assert!(!state.is_schedulable());
    assert!(!state.is_running());
    assert!(!state.is_blocked());
    assert!(state.is_terminated());
}

#[test]
fn state_names() {
    assert_eq!(ProcessState::Ready.as_str(), "Ready");
    assert_eq!(ProcessState::Running.as_str(), "Running");
    assert_eq!(ProcessState::Blocked.as_str(), "Blocked");
    assert_eq!(ProcessState::WaitingForMessage.as_str(), "WaitingForMessage");
    assert_eq!(ProcessState::Terminated.as_str(), "Terminated");
}

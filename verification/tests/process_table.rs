use yomi_kernel::memory::address::VirtAddr;
use yomi_kernel::process::capability::CapabilitySet;
use yomi_kernel::process::id::ProcessId;
use yomi_kernel::process::process::Process;
use yomi_kernel::process::state::ProcessState;
use yomi_kernel::process::table::{ProcessError, ProcessTable, MAX_PROCESSES};

fn create_test_process() -> Process {
    Process::new(
        VirtAddr::new(0x1000),
        VirtAddr::new(0x8000),
        CapabilitySet::new(),
    )
}

#[test]
fn test_new_process_table() {
    let table = ProcessTable::new();
    assert!(table.is_empty());
    assert_eq!(table.len(), 0);
}

#[test]
fn test_add_process() {
    let mut table = ProcessTable::new();
    let process = create_test_process();

    let pid = table.add_process(process).unwrap();
    assert_eq!(pid.as_u64(), 1);
    assert!(!table.is_empty());
    assert_eq!(table.len(), 1);
}

#[test]
fn test_get_process() {
    let mut table = ProcessTable::new();
    let process = create_test_process();

    let pid = table.add_process(process).unwrap();

    assert!(table.get_process(pid).is_some());
    assert_eq!(table.get_process(pid).unwrap().pid, pid);

    let non_existent = ProcessId::new(999);
    assert!(table.get_process(non_existent).is_none());
}

#[test]
fn test_remove_process() {
    let mut table = ProcessTable::new();
    let process = create_test_process();

    let pid = table.add_process(process).unwrap();
    assert!(table.contains(pid));

    let removed = table.remove_process(pid).unwrap();
    assert_eq!(removed.pid, pid);
    assert!(!table.contains(pid));

    // Removing again should fail
    assert_eq!(
        table.remove_process(pid),
        Err(ProcessError::ProcessNotFound)
    );
}

#[test]
fn test_multiple_processes() {
    let mut table = ProcessTable::new();

    let pid1 = table.add_process(create_test_process()).unwrap();
    let pid2 = table.add_process(create_test_process()).unwrap();
    let pid3 = table.add_process(create_test_process()).unwrap();

    assert_eq!(pid1.as_u64(), 1);
    assert_eq!(pid2.as_u64(), 2);
    assert_eq!(pid3.as_u64(), 3);
    assert_eq!(table.len(), 3);
}

#[test]
fn test_pid_reuse() {
    let mut table = ProcessTable::new();

    let pid1 = table.add_process(create_test_process()).unwrap();
    let _pid2 = table.add_process(create_test_process()).unwrap();

    table.remove_process(pid1).unwrap();

    // Next PID should continue incrementing, not reuse immediately
    let pid3 = table.add_process(create_test_process()).unwrap();
    assert_eq!(pid3.as_u64(), 3);
}

#[test]
fn test_terminate_process() {
    let mut table = ProcessTable::new();
    let pid = table.add_process(create_test_process()).unwrap();

    table.terminate_process(pid).unwrap();

    let process = table.get_process(pid).unwrap();
    assert_eq!(process.state, ProcessState::Terminated);
}

#[test]
fn test_terminate_already_terminated() {
    let mut table = ProcessTable::new();
    let pid = table.add_process(create_test_process()).unwrap();

    table.terminate_process(pid).unwrap();
    assert_eq!(
        table.terminate_process(pid),
        Err(ProcessError::InvalidState)
    );
}

#[test]
fn test_cleanup_terminated() {
    let mut table = ProcessTable::new();

    let pid1 = table.add_process(create_test_process()).unwrap();
    let pid2 = table.add_process(create_test_process()).unwrap();
    let pid3 = table.add_process(create_test_process()).unwrap();

    table.terminate_process(pid1).unwrap();
    table.terminate_process(pid3).unwrap();

    let removed = table.cleanup_terminated();
    assert_eq!(removed, 2);
    assert_eq!(table.len(), 1);
    assert!(table.contains(pid2));
}

#[test]
fn test_ready_processes() {
    let mut table = ProcessTable::new();

    let pid1 = table.add_process(create_test_process()).unwrap();
    let pid2 = table.add_process(create_test_process()).unwrap();
    let pid3 = table.add_process(create_test_process()).unwrap();

    table.get_process_mut(pid2).unwrap().mark_running();

    let ready: Vec<_> = table.ready_processes();
    assert_eq!(ready.len(), 2);
    assert!(ready.iter().any(|p| p.pid == pid1));
    assert!(ready.iter().any(|p| p.pid == pid3));
}

#[test]
fn test_iter() {
    let mut table = ProcessTable::new();

    table.add_process(create_test_process()).unwrap();
    table.add_process(create_test_process()).unwrap();

    let count = table.iter().count();
    assert_eq!(count, 2);
}

#[test]
fn test_success_criteria() {
    let mut process_table = ProcessTable::new();

    let entry_point = VirtAddr::new(0x1000);
    let stack_addr = VirtAddr::new(0x8000);
    let initial_caps = CapabilitySet::new();

    let process = Process::new(entry_point, stack_addr, initial_caps);

    let pid = process_table.add_process(process).unwrap();
    assert!(process_table.get_process(pid).is_some());
}

#[test]
fn terminate_unknown_process() {
    let mut table = ProcessTable::new();
    assert_eq!(
        table.terminate_process(ProcessId::new(5)),
        Err(ProcessError::ProcessNotFound)
    );
    assert!(table.get_process_mut(ProcessId::new(5)).is_none());
    assert_eq!(table.cleanup_terminated(), 0);
    assert!(ProcessTable::default().is_empty());
}

#[test]
fn get_process_mut_changes_only_that_process() {
    let mut table = ProcessTable::new();
    let pid1 = table.add_process(create_test_process()).unwrap();
    let pid2 = table.add_process(create_test_process()).unwrap();
    table.get_process_mut(pid1).unwrap().mark_blocked();
    assert_eq!(table.get_process(pid1).unwrap().state, ProcessState::Blocked);
    assert_eq!(table.get_process(pid2).unwrap().state, ProcessState::Ready);
    let blocked = table.processes_in_state(ProcessState::Blocked);
    assert_eq!(blocked.len(), 1);
    assert_eq!(blocked[0].pid, pid1);
    assert!(table.processes_in_state(ProcessState::Terminated).is_empty());
}

#[test]
fn pids_wrap_around_and_the_table_fills() {
    assert_eq!(MAX_PROCESSES, 65536);
    let mut table = ProcessTable::new();
    for expected in 1..=65535u64 {
        let pid = table.add_process(create_test_process()).unwrap();
        assert_eq!(pid.as_u64(), expected);
    }
    assert_eq!(table.len(), 65535);
    assert_eq!(
        table.add_process(create_test_process()),
        Err(ProcessError::TableFull)
    );
    table.remove_process(ProcessId::new(7)).unwrap();
    table.remove_process(ProcessId::new(3)).unwrap();
    assert_eq!(table.add_process(create_test_process()).unwrap().as_u64(), 3);
    assert_eq!(table.add_process(create_test_process()).unwrap().as_u64(), 7);
    assert_eq!(
        table.add_process(create_test_process()),
        Err(ProcessError::TableFull)
    );
    assert!(!table.contains(ProcessId::kernel()));
}

#[test]
fn process_error_texts() {
    assert_eq!(ProcessError::TableFull.as_str(), "process table is full");
    assert_eq!(ProcessError::ProcessNotFound.as_str(), "process not found");
    assert_eq!(ProcessError::InvalidPid.as_str(), "invalid process ID");
    assert_eq!(ProcessError::InvalidState.as_str(), "invalid process state");
}

//! The table of all processes, keyed by their identifiers.
//!
//! Identifiers are handed out in increasing order from 1 to 65535 and then
//! start again at 1, passing over those still in use. 0 is the kernel's and is
//! never handed out.

use super::id::ProcessId;
use super::process::Process;
use super::state::ProcessState;
use std::collections::BTreeMap;
use vstd::prelude::*;
use vstd::std_specs::cmp::OrdSpec;
use vstd::std_specs::iter::IteratorSpec;

verus! {

/// Largest number of processes.
pub const MAX_PROCESSES: usize = 65536;

/// Largest identifier that is handed out.
pub const MAX_PID: u64 = 65535;

/// Why an operation on the table failed.
#[derive(Debug, Clone, Copy, PartialEq, Eq, Structural)]
pub enum ProcessError {
    /// No identifier is free.
    TableFull,
    /// The table holds no process with the identifier.
    ProcessNotFound,
    /// The identifier is not one that the table hands out.
    InvalidPid,
    /// The state of the process does not allow the operation.
    InvalidState,
}

impl ProcessError {
    /// The text of the error.
    pub open spec fn message(self) -> Seq<char> {
        match self {
            ProcessError::TableFull => "process table is full"@,
            ProcessError::ProcessNotFound => "process not found"@,
            ProcessError::InvalidPid => "invalid process ID"@,
            ProcessError::InvalidState => "invalid process state"@,
        }
    }

    /// The text of the error.
    pub fn as_str(&self) -> (r: &'static str)
        ensures
            r@ == self.message(),
    {
        match self {
            ProcessError::TableFull => "process table is full",
            ProcessError::ProcessNotFound => "process not found",
            ProcessError::InvalidPid => "invalid process ID",
            ProcessError::InvalidState => "invalid process state",
        }
    }
}

/// The identifier that is tried `offset` steps after `start`: the identifiers
/// 1..=65535 in a circle.
pub open spec fn visited(start: u64, offset: int) -> u64 {
    ((start - 1 + offset) % 65535 + 1) as u64
}

/// The table of processes.
#[derive(Debug)]
pub struct ProcessTable {
    processes: BTreeMap<u64, Process>,
    next_pid: u64,
}

impl View for ProcessTable {
    type V = Map<u64, Process>;

    closed spec fn view(&self) -> Map<u64, Process> {
        self.processes@
    }
}

/// The value stored under `key`, for writing. What is written through the
/// reference is what the map holds under `key` afterwards; no other key
/// changes. This is what `BTreeMap::get_mut` is documented to do: it returns
/// a mutable reference to the value corresponding to the key, or `None` where
/// the map does not hold the key.
#[verifier::external_body]
fn map_get_mut<'a>(map: &'a mut BTreeMap<u64, Process>, key: u64) -> (r: Option<&'a mut Process>)
    ensures
        match r {
            Some(process) => {
                &&& old(map)@.contains_key(key)
                &&& *process == old(map)@[key]
                &&& final(map)@ == old(map)@.insert(key, *final(process))
            },
            None => !old(map)@.contains_key(key) && final(map)@ == old(map)@,
        },
{
    map.get_mut(&key)
}

impl ProcessTable {
    /// The identifier that is tried first for the next process.
    pub closed spec fn next_pid(self) -> u64 {
        self.next_pid
    }

    /// Every identifier in use, and the one tried next, lies in 1..=65535.
    pub open spec fn wf(self) -> bool {
        &&& 1 <= self.next_pid() <= MAX_PID
        &&& forall|k: u64| self@.contains_key(k) ==> 1 <= k <= MAX_PID
    }

    /// The identifier `offset` steps after the one tried next is free, and
    /// all before it on the way are in use.
    pub open spec fn first_free_at(self, offset: int) -> bool {
        &&& 0 <= offset < 65535
        &&& !self@.contains_key(visited(self.next_pid(), offset))
        &&& forall|j: int| 0 <= j < offset ==> self@.contains_key(#[trigger] visited(self.next_pid(), j))
    }

    /// Every identifier is in use.
    pub open spec fn full(self) -> bool {
        forall|j: int| 0 <= j < 65535 ==> self@.contains_key(#[trigger] visited(self.next_pid(), j))
    }

    /// The empty table. The first identifier handed out will be 1.
    pub fn new() -> (r: Self)
        ensures
            r@ == Map::<u64, Process>::empty(),
            r.next_pid() == 1,
            r.wf(),
    {
        Self { processes: BTreeMap::new(), next_pid: 1 }
    }

    /// Picks the identifier for the next process: the first free one from
    /// `next_pid` on, going round the circle once at most.
    fn allocate_pid(&mut self) -> (r: Result<ProcessId, ProcessError>)
        requires
            old(self).wf(),
        ensures
            final(self).wf(),
            final(self)@ == old(self)@,
            match r {
                Ok(pid) => exists|i: int|
                    {
                        &&& #[trigger] old(self).first_free_at(i)
                        &&& pid@ == visited(old(self).next_pid(), i)
                        &&& final(self).next_pid() == visited(old(self).next_pid(), i + 1)
                    },
                Err(e) => {
                    &&& e == ProcessError::TableFull
                    &&& old(self).full() || old(self)@.len() >= MAX_PROCESSES
                    &&& final(self).next_pid() == old(self).next_pid()
                },
            },
    {
        if self.processes.len() >= MAX_PROCESSES {
            return Err(ProcessError::TableFull);
        }
        let start_pid = self.next_pid;
        let mut steps: u64 = 0;
        loop
            invariant
                self.wf(),
                self@ == old(self)@,
                start_pid == old(self).next_pid(),
                0 <= steps < 65535,
                1 <= start_pid <= 65535,
                self.next_pid() == visited(start_pid, steps as int),
                forall|j: int| 0 <= j < steps ==> self@.contains_key(#[trigger] visited(start_pid, j)),
            decreases 65535 - steps,
        {
            let pid = ProcessId::new(self.next_pid);
            self.next_pid = if self.next_pid >= MAX_PID {
                1
            } else {
                self.next_pid + 1
            };
            assert(self.next_pid == visited(start_pid, steps + 1));
            if !self.processes.contains_key(&pid.as_u64()) {
                assert(old(self).first_free_at(steps as int));
                return Ok(pid);
            }
            if self.next_pid == start_pid {
                assert(steps + 1 == 65535);
                return Err(ProcessError::TableFull);
            }
            assert(visited(start_pid, 65535) == start_pid);
            steps += 1;
        }
    }

    /// Adds `process` under the first free identifier from `next_pid` on and
    /// returns that identifier, which the process gets as its `pid`. Where no
    /// identifier is free the table stays as it is.
    pub fn add_process(&mut self, process: Process) -> (r: Result<ProcessId, ProcessError>)
        requires
            old(self).wf(),
        ensures
            final(self).wf(),
            match r {
                Ok(pid) => exists|i: int|
                    {
                        &&& #[trigger] old(self).first_free_at(i)
                        &&& pid@ == visited(old(self).next_pid(), i)
                        &&& final(self).next_pid() == visited(old(self).next_pid(), i + 1)
                        &&& final(self)@ == old(self)@.insert(pid@, Process { pid, ..process })
                    },
                Err(e) => {
                    &&& e == ProcessError::TableFull
                    &&& old(self).full() || old(self)@.len() >= MAX_PROCESSES
                    &&& final(self).next_pid() == old(self).next_pid()
                    &&& final(self)@ == old(self)@
                },
            },
    {
        let mut process = process;
        let pid = match self.allocate_pid() {
            Ok(pid) => pid,
            Err(e) => {
                return Err(e);
            },
        };
        process.set_pid(pid);
        self.processes.insert(pid.as_u64(), process);
        Ok(pid)
    }

    /// Takes the process with the identifier `pid` out of the table.
    pub fn remove_process(&mut self, pid: ProcessId) -> (r: Result<Process, ProcessError>)
        ensures
            final(self).next_pid() == old(self).next_pid(),
            old(self).wf() ==> final(self).wf(),
            match r {
                Ok(process) => old(self)@.contains_key(pid@) && process == old(self)@[pid@]
                    && final(self)@ == old(self)@.remove(pid@),
                Err(e) => e == ProcessError::ProcessNotFound && !old(self)@.contains_key(pid@)
                    && final(self)@ == old(self)@,
            },
    {
        let key = pid.as_u64();
        match self.processes.remove(&key) {
            Some(process) => Ok(process),
            None => Err(ProcessError::ProcessNotFound),
        }
    }

    /// The process with the identifier `pid`.
    pub fn get_process(&self, pid: ProcessId) -> (r: Option<&Process>)
        ensures
            r is Some <==> self@.contains_key(pid@),
            r is Some ==> *r.unwrap() == self@[pid@],
    {
        let key = pid.as_u64();
        self.processes.get(&key)
    }

    /// The process with the identifier `pid`, for changing it. No other
    /// process changes.
    pub fn get_process_mut(&mut self, pid: ProcessId) -> (r: Option<&mut Process>)
        ensures
            final(self).next_pid() == old(self).next_pid(),

            match r {
                Some(process) => {
                    &&& old(self)@.contains_key(pid@)
                    &&& *process == old(self)@[pid@]
                    &&& final(self)@ == old(self)@.insert(pid@, *final(process))
                    &&& final(self)@.dom() == old(self)@.dom()
                    &&& old(self).wf() ==> final(self).wf()
                },
                None => !old(self)@.contains_key(pid@) && final(self)@ == old(self)@ && (old(
                    self,
                ).wf() ==> final(self).wf()),
            },
    {
        let ghost before = self.processes@;
        let r = map_get_mut(&mut self.processes, pid.as_u64());
        proof {
            if r is Some {
                assert(before.insert(pid@, *final(r->Some_0)).dom() =~= before.dom());
            }
            if r is Some {
                let after = before.insert(pid@, *final(r->Some_0));
                assert forall|k: u64| #[trigger] after.contains_key(k) implies before.contains_key(
                    k,
                ) by {}
            }
        }
        r
    }

    /// Whether the table holds a process with the identifier `pid`.
    pub fn contains(&self, pid: ProcessId) -> (r: bool)
        ensures
            r == self@.contains_key(pid@),
    {
        let key = pid.as_u64();
        self.processes.contains_key(&key)
    }

    /// Number of processes in the table.
    pub fn len(&self) -> (r: usize)
        ensures
            r == self@.len(),
    {
        self.processes.len()
    }

    /// Whether the table is empty.
    pub fn is_empty(&self) -> (r: bool)
        ensures
            r == self@.is_empty(),
    {
        self.processes.is_empty()
    }

    /// Marks the process with the identifier `pid` as terminated. A process
    /// that is terminated already is left alone and reported as
    /// `InvalidState`.
    pub fn terminate_process(&mut self, pid: ProcessId) -> (r: Result<(), ProcessError>)
        ensures
            final(self).next_pid() == old(self).next_pid(),
            old(self).wf() ==> final(self).wf(),
            match r {
                Ok(_) => {
                    &&& old(self)@.contains_key(pid@)
                    &&& old(self)@[pid@].state != ProcessState::Terminated
                    &&& final(self)@ == old(self)@.insert(
                        pid@,
                        Process { state: ProcessState::Terminated, ..old(self)@[pid@] },
                    )
                },
                Err(e) => {
                    &&& final(self)@ == old(self)@
                    &&& e == if old(self)@.contains_key(pid@) {
                        ProcessError::InvalidState
                    } else {
                        ProcessError::ProcessNotFound
                    }
                    &&& old(self)@.contains_key(pid@) ==> old(self)@[pid@].state
                        == ProcessState::Terminated
                },
            },
    {
        let process = match map_get_mut(&mut self.processes, pid.as_u64()) {
            Some(process) => process,
            None => {
                return Err(ProcessError::ProcessNotFound);
            },
        };
        if process.state == ProcessState::Terminated {
            assert(old(self)@.insert(pid@, old(self)@[pid@]) =~= old(self)@);
            return Err(ProcessError::InvalidState);
        }
        process.mark_terminated();
        Ok(())
    }
}

/// `a` is ordered before `b`.
spec fn before<K: Ord>(a: K, b: K) -> bool {
    a.cmp_spec(&b) is Less
}

/// The keys of a map come out of its iterator in strictly increasing order.
proof fn lemma_key_order(order: Seq<&u64>)
    requires
        vstd::std_specs::btree::increasing_seq(order),
    ensures
        forall|i: int, j: int| 0 <= i < j < order.len() ==> *order[i] < *order[j],
{
    reveal(vstd::laws_cmp::obeys_cmp_partial_ord);
    reveal(vstd::laws_cmp::obeys_cmp_ord);
    assert(vstd::laws_cmp::obeys_cmp::<&u64>());
    vstd::std_specs::btree::axiom_increasing_seq_meaning(order);
    assert forall|i: int, j: int| 0 <= i < j < order.len() implies *order[i] < *order[j] by {
        assert(before::<&u64>(order[i], order[j]));
        assert(before::<u64>(*order[i], *order[j]));
    }
}

/// Keys that a map calls increasing increase strictly as numbers.
proof fn lemma_pid_order(order: Seq<u64>)
    requires
        vstd::std_specs::btree::increasing_seq(order),
    ensures
        increasing(order),
{
    vstd::std_specs::btree::axiom_increasing_seq_meaning(order);
    assert forall|i: int, j: int| 0 <= i < j < order.len() implies order[i] < order[j] by {
        assert(before::<u64>(order[i], order[j]));
    }
}

/// The identifiers of `pids` increase strictly.
pub open spec fn increasing(pids: Seq<u64>) -> bool {
    forall|i: int, j: int| 0 <= i < j < pids.len() ==> pids[i] < pids[j]
}

/// `p` is among the first `upto` identifiers of `order`.
spec fn seen(order: Seq<&u64>, upto: int, p: u64) -> bool {
    exists|j: int| 0 <= j < upto && *order[j] == p
}

/// `p` is among the identifiers of `order` from position `from` on.
spec fn pending(order: Seq<&u64>, from: int, p: u64) -> bool {
    exists|j: int| from <= j < order.len() && *order[j] == p
}

impl ProcessTable {
    /// The identifiers of the processes in the state `state`.
    pub open spec fn pids_in_state(self, state: ProcessState) -> Set<u64> {
        Set::new(|k: u64| self@.contains_key(k) && self@[k].state == state)
    }

    /// An iterator over the identifiers in use and their processes. Each
    /// process of the table comes once, in the order of the identifiers.
    pub fn iter(&self) -> (r: std::collections::btree_map::Iter<'_, u64, Process>)
        ensures
            vstd::std_specs::btree::into_iter(r).to_set() == self@.kv_pairs(),
            vstd::std_specs::btree::into_iter(r).len() == self@.len(),
            increasing(vstd::std_specs::btree::into_iter(r).map_values(|kv: (u64, Process)| kv.0)),
    {
        let it = self.processes.iter();
        proof {
            vstd::std_specs::btree::axiom_spec_btree_map_iter(&self.processes);
            assert(it.remaining().unref().len() == it.remaining().len());
            let keys = it.remaining().map_values(|kv: (&u64, &Process)| *kv.0);
            lemma_pid_order(keys);
            assert(keys =~= vstd::std_specs::btree::into_iter(it).map_values(
                |kv: (u64, Process)| kv.0,
            ));
        }
        it
    }

    /// The identifiers of the processes in the state `state`, in increasing
    /// order.
    fn collect_pids(&self, state: ProcessState) -> (r: Vec<u64>)
        ensures
            increasing(r@),
            r@.no_duplicates(),
            r@.to_set() == self.pids_in_state(state),
    {
        let mut pids: Vec<u64> = Vec::new();
        proof {
            vstd::std_specs::btree::axiom_spec_keys_iter(&self.processes);
        }
        for k in it: self.processes.keys()
            invariant
                it.seq().no_duplicates(),
                it.seq().unref().to_set() == self@.dom(),
                vstd::std_specs::btree::increasing_seq(it.seq()),
                pids@.no_duplicates(),
                increasing(pids@),
                forall|i: int|
                    0 <= i < pids@.len() ==> seen(it.seq(), it.index(), #[trigger] pids@[i]),
                forall|i: int|
                    0 <= i < pids@.len() ==> self.pids_in_state(state).contains(
                        #[trigger] pids@[i],
                    ),
                forall|p: u64|
                    #[trigger] self.pids_in_state(state).contains(p) ==> pids@.contains(p)
                        || pending(it.seq(), it.index(), p),
        {
            let ghost at = it.index();
            let ghost prev = pids@;
            proof {
                assert(it.seq().unref()[at] == *k);
                assert(it.seq().unref().to_set().contains(*k));
            }
            if self.processes.get(k).unwrap().state == state {
                proof {
                    lemma_key_order(it.seq());
                    assert forall|i: int| 0 <= i < pids@.len() implies pids@[i] < *k by {
                        assert(seen(it.seq(), at, pids@[i]));
                        let j = choose|j: int| 0 <= j < at && *it.seq()[j] == pids@[i];
                        assert(*it.seq()[j] < *it.seq()[at]);
                    }
                }
                pids.push(*k);
                assert(pids@[prev.len() as int] == *k);
            }
            proof {
                assert forall|p: u64| #[trigger]
                    self.pids_in_state(state).contains(p) implies pids@.contains(p) || pending(
                    it.seq(),
                    at + 1,
                    p,
                ) by {
                    if prev.contains(p) {
                        let i = choose|i: int| 0 <= i < prev.len() && prev[i] == p;
                        assert(pids@[i] == p);
                    } else {
                        assert(pending(it.seq(), at, p));
                        let j = choose|j: int| at <= j < it.seq().len() && *it.seq()[j] == p;
                        if j == at {
                            assert(pids@[prev.len() as int] == p);
                        }
                    }
                }
                assert forall|i: int| 0 <= i < pids@.len() implies seen(
                    it.seq(),
                    at + 1,
                    #[trigger] pids@[i],
                ) by {
                    if i < prev.len() {
                        assert(seen(it.seq(), at, prev[i]));
                        let j = choose|j: int| 0 <= j < at && *it.seq()[j] == prev[i];
                        assert(*it.seq()[j] == pids@[i]);
                    } else {
                        assert(*it.seq()[at] == pids@[i]);
                    }
                }
            }
        }
        proof {
            assert(pids@.to_set() =~= self.pids_in_state(state));
        }
        pids
    }

    /// The processes in the state `state`, in the order of their
    /// identifiers.
    pub fn processes_in_state(&self, state: ProcessState) -> (r: Vec<&Process>)
        ensures
            exists|pids: Seq<u64>|
                {
                    &&& increasing(pids)
                    &&& pids.to_set() == self.pids_in_state(state)
                    &&& #[trigger] pids.len() == r@.len()
                    &&& forall|i: int| 0 <= i < pids.len() ==> *r@[i] == self@[#[trigger] pids[i]]
                },
    {
        let pids = self.collect_pids(state);
        let mut out: Vec<&Process> = Vec::new();
        let mut i: usize = 0;
        while i < pids.len()
            invariant
                i <= pids@.len(),
                pids@.to_set() == self.pids_in_state(state),
                out@.len() == i,
                forall|j: int| 0 <= j < i ==> *out@[j] == self@[#[trigger] pids@[j]],
            decreases pids@.len() - i,
        {
            assert(pids@.to_set().contains(pids@[i as int]));
            out.push(self.processes.get(&pids[i]).unwrap());
            i += 1;
        }
        assert(pids@.len() == out@.len());
        out
    }

    /// The processes that are ready, in the order of their identifiers.
    pub fn ready_processes(&self) -> (r: Vec<&Process>)
        ensures
            exists|pids: Seq<u64>|
                {
                    &&& increasing(pids)
                    &&& pids.to_set() == self.pids_in_state(ProcessState::Ready)
                    &&& #[trigger] pids.len() == r@.len()
                    &&& forall|i: int| 0 <= i < pids.len() ==> *r@[i] == self@[#[trigger] pids[i]]
                },
    {
        self.processes_in_state(ProcessState::Ready)
    }

    /// Removes every terminated process and returns how many there were.
    pub fn cleanup_terminated(&mut self) -> (r: usize)
        ensures
            final(self).next_pid() == old(self).next_pid(),
            old(self).wf() ==> final(self).wf(),
            final(self)@ == old(self)@.remove_keys(
                old(self).pids_in_state(ProcessState::Terminated),
            ),
            r == old(self).pids_in_state(ProcessState::Terminated).len(),
    {
        let ghost before = *self;
        let pids = self.collect_pids(ProcessState::Terminated);
        proof {
            pids@.unique_seq_to_set();
        }
        let count = pids.len();
        let mut i: usize = 0;
        while i < pids.len()
            invariant
                i <= pids@.len(),
                self.next_pid() == before.next_pid(),
                self@ == before@.remove_keys(pids@.take(i as int).to_set()),
            decreases pids@.len() - i,
        {
            self.processes.remove(&pids[i]);
            proof {
                assert(pids@.take(i + 1) =~= pids@.take(i as int).push(pids@[i as int]));
                pids@.take(i as int).lemma_push_to_set_commute(pids@[i as int]);
                assert(self@ =~= before@.remove_keys(pids@.take(i + 1).to_set()));
            }
            i += 1;
        }
        proof {
            assert(pids@.take(i as int) =~= pids@);
        }
        count
    }
}

impl Default for ProcessTable {
    fn default() -> (r: Self)
        ensures
            r@ == Map::<u64, Process>::empty(),
            r.next_pid() == 1,
    {
        Self::new()
    }
}

} // verus!

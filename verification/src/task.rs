//! The task record: an id, a lifecycle status, a register snapshot and the
//! handle of an address space.
//!
//! Nothing drives a task yet. The status is meant to move
//! `Init -> Run -> Wait <-> Run -> Sleep <-> Wait/Run -> Dead`, with `Dead`
//! final, once a scheduler exists.

use vstd::prelude::*;

verus! {

/// What a task is doing right now.
#[derive(Debug, Clone, Copy, PartialEq, Eq, Structural)]
pub enum TaskStatus {
    /// Being set up.
    Init,
    /// Running.
    Run,
    /// Runnable, but not running.
    Wait,
    /// Sleeping.
    Sleep,
    /// Finished; a task never leaves this status.
    Dead,
}

/// The source of task ids. It hands out 0 first and counts up from there, so
/// that no id is given twice.
#[derive(Debug)]
pub struct TidCounter {
    next: u64,
}

impl View for TidCounter {
    type V = nat;

    /// The id that is handed out next.
    closed spec fn view(&self) -> nat {
        self.next as nat
    }
}

impl TidCounter {
    /// A counter that has not handed out any id.
    pub fn new() -> (counter: Self)
        ensures
            counter@ == 0,
    {
        TidCounter { next: 0 }
    }

    /// How many ids are left.
    pub fn remaining(&self) -> (n: u64)
        ensures
            n == u64::MAX - self@,
    {
        u64::MAX - self.next
    }
}

/// A task id.
#[derive(Debug, Clone, Copy, PartialEq, Eq, Structural)]
pub struct Tid(pub u64);

/// One construction of an id on a counter that stands at `counter`: the id,
/// and where the counter stands afterwards.
pub open spec fn issue_one(counter: nat) -> (nat, nat) {
    (counter, counter + 1)
}

/// The ids of `n` constructions in a row on a counter that stands at `start`,
/// and where the counter stands afterwards.
pub open spec fn issue(start: nat, n: nat) -> (Seq<nat>, nat)
    decreases n,
{
    if n == 0 {
        (Seq::empty(), start)
    } else {
        let (ids, counter) = issue(start, (n - 1) as nat);
        let (id, after) = issue_one(counter);
        (ids.push(id), after)
    }
}

impl Tid {
    /// Takes the next id from the counter.
    pub fn new(counter: &mut TidCounter) -> (tid: Self)
        requires
            old(counter)@ < u64::MAX,
        ensures
            (tid.0 as nat, final(counter)@) == issue_one(old(counter)@),
    {
        let tid = Tid(counter.next);
        counter.next = counter.next + 1;
        tid
    }
}

/// From a fresh counter, `n` constructions yield the ids 0, 1, ..., n - 1 in
/// this order: strictly increasing, so none of them twice.
pub proof fn lemma_sequential_ids(n: nat)
    ensures
        issue(0, n).0.len() == n,
        issue(0, n).1 == n,
        forall|k: int| 0 <= k < n ==> #[trigger] issue(0, n).0[k] == k,
        forall|i: int, j: int| 0 <= i < j < n ==> #[trigger] issue(0, n).0[i] < #[trigger] issue(0, n).0[j],
    decreases n,
{
    lemma_issue(0, n);
}

/// From any counter, the `k`-th of `n` constructions yields `start + k`.
pub proof fn lemma_issue(start: nat, n: nat)
    ensures
        issue(start, n).0.len() == n,
        issue(start, n).1 == start + n,
        forall|k: int| 0 <= k < n ==> #[trigger] issue(start, n).0[k] == start + k,
    decreases n,
{
    if n > 0 {
        lemma_issue(start, (n - 1) as nat);
    }
}

/// The registers that are saved when a task is switched out.
#[derive(Debug, Clone, Copy, PartialEq, Eq, Structural)]
pub struct Registers {
    pub rax: u64,
    pub rbx: u64,
    pub rcx: u64,
    pub rdx: u64,
    pub rdi: u64,
    pub rsi: u64,
    pub r8: u64,
    pub r9: u64,
    pub r10: u64,
    pub r11: u64,
    pub r12: u64,
    pub r13: u64,
    pub r14: u64,
    pub r15: u64,
    pub rbp: u64,
    pub rsp: u64,
    pub rip: u64,
    pub rflags: u64,
}

impl Registers {
    /// The snapshot in which every register is zero.
    pub open spec fn zeroed() -> Registers {
        Registers {
            rax: 0,
            rbx: 0,
            rcx: 0,
            rdx: 0,
            rdi: 0,
            rsi: 0,
            r8: 0,
            r9: 0,
            r10: 0,
            r11: 0,
            r12: 0,
            r13: 0,
            r14: 0,
            r15: 0,
            rbp: 0,
            rsp: 0,
            rip: 0,
            rflags: 0,
        }
    }

    /// A snapshot with every register zero.
    pub fn new() -> (regs: Self)
        ensures
            regs == Registers::zeroed(),
    {
        Registers {
            rax: 0,
            rbx: 0,
            rcx: 0,
            rdx: 0,
            rdi: 0,
            rsi: 0,
            r8: 0,
            r9: 0,
            r10: 0,
            r11: 0,
            r12: 0,
            r13: 0,
            r14: 0,
            r15: 0,
            rbp: 0,
            rsp: 0,
            rip: 0,
            rflags: 0,
        }
    }
}

/// A unit of execution.
#[derive(Debug, Clone)]
pub struct Task {
    /// The task's id; no two tasks share one.
    tid: Tid,
    /// What the task is doing.
    status: TaskStatus,
    /// Where the registers are kept while the task does not run.
    regs: Registers,
    /// Start of the physical frame that holds the task's top-level page table.
    p4_table_address: u64,
    /// Flag bits that go into the page-table base register with it.
    cr3_flags: u64,
}

/// A `Task` as mathematical values.
pub struct TaskView {
    pub tid: nat,
    pub status: TaskStatus,
    pub regs: Registers,
    pub p4_table_address: u64,
    pub cr3_flags: u64,
}

impl View for Task {
    type V = TaskView;

    closed spec fn view(&self) -> TaskView {
        TaskView {
            tid: self.tid.0 as nat,
            status: self.status,
            regs: self.regs,
            p4_table_address: self.p4_table_address,
            cr3_flags: self.cr3_flags,
        }
    }
}

impl Task {
    /// Creates a task: it gets the next id and starts in `Init`, with zeroed
    /// registers and without an address space (frame 0, no flags).
    pub fn new(counter: &mut TidCounter) -> (task: Self)
        requires
            old(counter)@ < u64::MAX,
        ensures
            (task@.tid, final(counter)@) == issue_one(old(counter)@),
            task@ == (TaskView {
                tid: old(counter)@,
                status: TaskStatus::Init,
                regs: Registers::zeroed(),
                p4_table_address: 0,
                cr3_flags: 0,
            }),
    {
        Task {
            tid: Tid::new(counter),
            status: TaskStatus::Init,
            regs: Registers::new(),
            p4_table_address: 0,
            cr3_flags: 0,
        }
    }

    /// The task's id.
    pub fn tid(&self) -> (tid: Tid)
        ensures
            tid.0 == self@.tid,
    {
        self.tid
    }

    /// The task's status.
    pub fn status(&self) -> (status: TaskStatus)
        ensures
            status == self@.status,
    {
        self.status
    }

    /// The saved registers.
    pub fn regs(&self) -> (regs: &Registers)
        ensures
            *regs == self@.regs,
    {
        &self.regs
    }

    /// Start of the frame of the task's top-level page table.
    pub fn p4_table_address(&self) -> (addr: u64)
        ensures
            addr == self@.p4_table_address,
    {
        self.p4_table_address
    }

    /// The task's flags for the page-table base register.
    pub fn cr3_flags(&self) -> (flags: u64)
        ensures
            flags == self@.cr3_flags,
    {
        self.cr3_flags
    }
}

} // verus!

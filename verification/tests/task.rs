use kani2::task::{Registers, Task, TaskStatus, Tid, TidCounter};

#[test]
fn sequential_tasks_get_ids_from_zero() {
    let mut counter = TidCounter::new();
    let mut ids = Vec::new();
    for _ in 0..100 {
        ids.push(Task::new(&mut counter).tid().0);
    }
    assert_eq!(ids, (0..100).collect::<Vec<u64>>());
}

#[test]
fn ids_are_taken_from_the_counter_one_by_one() {
    let mut counter = TidCounter::new();
    assert_eq!(counter.remaining(), u64::MAX);
    assert_eq!(Tid::new(&mut counter), Tid(0));
    assert_eq!(Tid::new(&mut counter), Tid(1));
    assert_eq!(Task::new(&mut counter).tid(), Tid(2));
    assert_eq!(Tid::new(&mut counter), Tid(3));
    assert_eq!(counter.remaining(), u64::MAX - 4);
}

#[test]
fn separate_counters_do_not_share_ids() {
    let mut a = TidCounter::new();
    let mut b = TidCounter::new();
    assert_eq!(Tid::new(&mut a), Tid(0));
    assert_eq!(Tid::new(&mut a), Tid(1));
    assert_eq!(Tid::new(&mut b), Tid(0));
}

#[test]
fn new_task_is_blank() {
    let mut counter = TidCounter::new();
    let task = Task::new(&mut counter);
    assert_eq!(task.tid(), Tid(0));
    assert_eq!(task.status(), TaskStatus::Init);
    assert_eq!(*task.regs(), Registers::new());
    assert_eq!(task.p4_table_address(), 0);
    assert_eq!(task.cr3_flags(), 0);
}

#[test]
fn new_registers_are_all_zero() {
    let r = Registers::new();
    let all = [
        r.rax, r.rbx, r.rcx, r.rdx, r.rdi, r.rsi, r.r8, r.r9, r.r10, r.r11, r.r12, r.r13, r.r14,
        r.r15, r.rbp, r.rsp, r.rip, r.rflags,
    ];
    assert_eq!(all, [0u64; 18]);
}

use kani2::allocator::HeapRange;
use kani2::kernel::{init, kernel_main, next_subsystem, KernelAction, KernelStage, Subsystem};

fn run(has_boot_info: bool, steps: usize) -> (Vec<KernelAction>, KernelStage) {
    let mut stage = KernelStage::Entered;
    let mut actions = Vec::new();
    for _ in 0..steps {
        let (next, action) = kernel_main(stage, has_boot_info);
        stage = next;
        actions.push(action);
    }
    (actions, stage)
}

#[test]
fn subsystems_come_up_in_their_fixed_order() {
    assert_eq!(
        init(),
        [
            Subsystem::Heap,
            Subsystem::DescriptorTables,
            Subsystem::InterruptTable,
            Subsystem::Serial,
            Subsystem::VirtualMemory,
        ]
    );
    let order = init();
    for pair in order.windows(2) {
        assert_eq!(next_subsystem(pair[0]), Some(pair[1]));
    }
    assert_eq!(next_subsystem(Subsystem::VirtualMemory), None);
}

#[test]
fn kernel_with_boot_info_reports_the_memory_map() {
    let (actions, stage) = run(true, 11);
    assert_eq!(
        actions,
        vec![
            KernelAction::SwitchStack,
            KernelAction::Initialize(Subsystem::Heap),
            KernelAction::Initialize(Subsystem::DescriptorTables),
            KernelAction::Initialize(Subsystem::InterruptTable),
            KernelAction::Initialize(Subsystem::Serial),
            KernelAction::Initialize(Subsystem::VirtualMemory),
            KernelAction::Greet,
            KernelAction::ReportMemoryMap,
            KernelAction::WaitForInterrupt,
            KernelAction::WaitForInterrupt,
            KernelAction::WaitForInterrupt,
        ]
    );
    assert_eq!(stage, KernelStage::Idle);
}

#[test]
fn kernel_without_boot_info_goes_idle_after_the_greeting() {
    let (actions, stage) = run(false, 9);
    assert_eq!(actions[6], KernelAction::Greet);
    assert_eq!(actions[7], KernelAction::WaitForInterrupt);
    assert_eq!(actions[8], KernelAction::WaitForInterrupt);
    assert!(!actions.contains(&KernelAction::ReportMemoryMap));
    assert_eq!(stage, KernelStage::Idle);
}

#[test]
fn stages_follow_the_actions() {
    assert_eq!(
        kernel_main(KernelStage::Entered, true),
        (KernelStage::StackSwitched, KernelAction::SwitchStack)
    );
    assert_eq!(
        kernel_main(KernelStage::Initialized(Subsystem::InterruptTable), false),
        (KernelStage::Initialized(Subsystem::Serial), KernelAction::Initialize(Subsystem::Serial))
    );
    assert_eq!(
        kernel_main(KernelStage::Initialized(Subsystem::VirtualMemory), false),
        (KernelStage::Greeted, KernelAction::Greet)
    );
    assert_eq!(
        kernel_main(KernelStage::Reported, true),
        (KernelStage::Idle, KernelAction::WaitForInterrupt)
    );
}

#[test]
fn heap_is_the_range_between_the_two_symbols() {
    assert_eq!(
        kani2::allocator::init(0x20_0000, 0x30_0000),
        Some(HeapRange { start: 0x20_0000, length: 0x10_0000 })
    );
    assert_eq!(kani2::allocator::init(0x1000, 0x1000), Some(HeapRange { start: 0x1000, length: 0 }));
    assert_eq!(kani2::allocator::init(0x2000, 0x1000), None);
}

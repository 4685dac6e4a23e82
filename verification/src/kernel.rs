//! The order in which the kernel brings itself up.

use vstd::prelude::*;

verus! {

/// The parts of the kernel that need setting up.
#[derive(Debug, Clone, Copy, PartialEq, Eq, Structural)]
pub enum Subsystem {
    /// The heap allocator.
    Heap,
    /// The global descriptor table and the segment registers.
    DescriptorTables,
    /// The interrupt vectors.
    InterruptTable,
    /// The serial console.
    Serial,
    /// The page tables and the frame map.
    VirtualMemory,
}

/// How far the kernel has come.
#[derive(Debug, Clone, Copy, PartialEq, Eq, Structural)]
pub enum KernelStage {
    /// Control has just arrived from the loader.
    Entered,
    /// The kernel runs on its own stack.
    StackSwitched,
    /// The given subsystem, and all that come before it, are set up.
    Initialized(Subsystem),
    /// The greeting is out.
    Greeted,
    /// The memory map is out.
    Reported,
    /// Nothing is left to do but to wait for interrupts.
    Idle,
}

/// What the kernel does next.
#[derive(Debug, Clone, Copy, PartialEq, Eq, Structural)]
pub enum KernelAction {
    /// Point the stack pointer at the kernel's own stack.
    SwitchStack,
    /// Set up the given subsystem.
    Initialize(Subsystem),
    /// Print the greeting.
    Greet,
    /// Print the memory map that came with the boot information.
    ReportMemoryMap,
    /// Halt until the next interrupt.
    WaitForInterrupt,
}

/// The order of set-up. The heap comes first because later parts may
/// allocate; the descriptor tables before the interrupt vectors, whose
/// entries name a code segment; the vectors before the serial port turns on
/// its interrupt; the page tables last, when nothing is under way.
pub open spec fn bring_up_order() -> Seq<Subsystem> {
    seq![
        Subsystem::Heap,
        Subsystem::DescriptorTables,
        Subsystem::InterruptTable,
        Subsystem::Serial,
        Subsystem::VirtualMemory,
    ]
}

/// The subsystem that is set up after `done`; `None` after the last one.
pub open spec fn successor(done: Subsystem) -> Option<Subsystem> {
    match done {
        Subsystem::Heap => Some(Subsystem::DescriptorTables),
        Subsystem::DescriptorTables => Some(Subsystem::InterruptTable),
        Subsystem::InterruptTable => Some(Subsystem::Serial),
        Subsystem::Serial => Some(Subsystem::VirtualMemory),
        Subsystem::VirtualMemory => None,
    }
}

/// One step of the kernel from `stage`: the stage after it, and the action
/// that leads there. The memory map is reported only if boot information
/// came along.
pub open spec fn kernel_step(stage: KernelStage, has_boot_info: bool) -> (KernelStage, KernelAction) {
    match stage {
        KernelStage::Entered => (KernelStage::StackSwitched, KernelAction::SwitchStack),
        KernelStage::StackSwitched => (
            KernelStage::Initialized(Subsystem::Heap),
            KernelAction::Initialize(Subsystem::Heap),
        ),
        KernelStage::Initialized(done) => match successor(done) {
            Some(next) => (KernelStage::Initialized(next), KernelAction::Initialize(next)),
            None => (KernelStage::Greeted, KernelAction::Greet),
        },
        KernelStage::Greeted => if has_boot_info {
            (KernelStage::Reported, KernelAction::ReportMemoryMap)
        } else {
            (KernelStage::Idle, KernelAction::WaitForInterrupt)
        },
        KernelStage::Reported => (KernelStage::Idle, KernelAction::WaitForInterrupt),
        KernelStage::Idle => (KernelStage::Idle, KernelAction::WaitForInterrupt),
    }
}

/// The actions of the first `n` steps from `stage`.
pub open spec fn kernel_actions(stage: KernelStage, has_boot_info: bool, n: nat) -> Seq<KernelAction>
    decreases n,
{
    if n == 0 {
        Seq::empty()
    } else {
        seq![kernel_step(stage, has_boot_info).1] + kernel_actions(
            kernel_step(stage, has_boot_info).0,
            has_boot_info,
            (n - 1) as nat,
        )
    }
}

/// The subsystems in the order in which they are set up.
pub fn init() -> (order: [Subsystem; 5])
    ensures
        order@ == bring_up_order(),
{
    let order = [
        Subsystem::Heap,
        Subsystem::DescriptorTables,
        Subsystem::InterruptTable,
        Subsystem::Serial,
        Subsystem::VirtualMemory,
    ];
    assert(order@ =~= bring_up_order());
    order
}

/// The subsystem to set up after `done`.
pub fn next_subsystem(done: Subsystem) -> (next: Option<Subsystem>)
    ensures
        next == successor(done),
{
    match done {
        Subsystem::Heap => Some(Subsystem::DescriptorTables),
        Subsystem::DescriptorTables => Some(Subsystem::InterruptTable),
        Subsystem::InterruptTable => Some(Subsystem::Serial),
        Subsystem::Serial => Some(Subsystem::VirtualMemory),
        Subsystem::VirtualMemory => None,
    }
}

/// The kernel's main line, step by step: switch to the kernel's stack, set up
/// the subsystems in their order, greet, report the memory map if there is
/// one, and then wait for interrupts for ever.
pub fn kernel_main(stage: KernelStage, has_boot_info: bool) -> (next: (KernelStage, KernelAction))
    ensures
        next == kernel_step(stage, has_boot_info),
{
    match stage {
        KernelStage::Entered => (KernelStage::StackSwitched, KernelAction::SwitchStack),
        KernelStage::StackSwitched => (
            KernelStage::Initialized(Subsystem::Heap),
            KernelAction::Initialize(Subsystem::Heap),
        ),
        KernelStage::Initialized(done) => match next_subsystem(done) {
            Some(next) => (KernelStage::Initialized(next), KernelAction::Initialize(next)),
            None => (KernelStage::Greeted, KernelAction::Greet),
        },
        KernelStage::Greeted => if has_boot_info {
            (KernelStage::Reported, KernelAction::ReportMemoryMap)
        } else {
            (KernelStage::Idle, KernelAction::WaitForInterrupt)
        },
        KernelStage::Reported => (KernelStage::Idle, KernelAction::WaitForInterrupt),
        KernelStage::Idle => (KernelStage::Idle, KernelAction::WaitForInterrupt),
    }
}

/// From entry, the kernel switches stacks, sets up the five subsystems in
/// `bring_up_order`, greets, reports the memory map and goes idle; from idle
/// it never does anything but wait.
pub proof fn lemma_bring_up(has_boot_info: bool)
    ensures
        kernel_actions(KernelStage::Entered, true, 9) == seq![
            KernelAction::SwitchStack,
            KernelAction::Initialize(bring_up_order()[0]),
            KernelAction::Initialize(bring_up_order()[1]),
            KernelAction::Initialize(bring_up_order()[2]),
            KernelAction::Initialize(bring_up_order()[3]),
            KernelAction::Initialize(bring_up_order()[4]),
            KernelAction::Greet,
            KernelAction::ReportMemoryMap,
            KernelAction::WaitForInterrupt,
        ],
        kernel_actions(KernelStage::Entered, false, 8) == seq![
            KernelAction::SwitchStack,
            KernelAction::Initialize(bring_up_order()[0]),
            KernelAction::Initialize(bring_up_order()[1]),
            KernelAction::Initialize(bring_up_order()[2]),
            KernelAction::Initialize(bring_up_order()[3]),
            KernelAction::Initialize(bring_up_order()[4]),
            KernelAction::Greet,
            KernelAction::WaitForInterrupt,
        ],
        kernel_step(KernelStage::Idle, has_boot_info) == (KernelStage::Idle, KernelAction::WaitForInterrupt),
{
    reveal_with_fuel(kernel_actions, 10);
    assert(kernel_actions(KernelStage::Entered, true, 9) =~= seq![
        KernelAction::SwitchStack,
        KernelAction::Initialize(Subsystem::Heap),
        KernelAction::Initialize(Subsystem::DescriptorTables),
        KernelAction::Initialize(Subsystem::InterruptTable),
        KernelAction::Initialize(Subsystem::Serial),
        KernelAction::Initialize(Subsystem::VirtualMemory),
        KernelAction::Greet,
        KernelAction::ReportMemoryMap,
        KernelAction::WaitForInterrupt,
    ]);
    assert(kernel_actions(KernelStage::Entered, false, 8) =~= seq![
        KernelAction::SwitchStack,
        KernelAction::Initialize(Subsystem::Heap),
        KernelAction::Initialize(Subsystem::DescriptorTables),
        KernelAction::Initialize(Subsystem::InterruptTable),
        KernelAction::Initialize(Subsystem::Serial),
        KernelAction::Initialize(Subsystem::VirtualMemory),
        KernelAction::Greet,
        KernelAction::WaitForInterrupt,
    ]);
}

} // verus!

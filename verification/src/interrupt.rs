//! Interrupt vectors, and the end-of-interrupt signal.

use vstd::prelude::*;
use crate::uart::IRQ_COM1;

verus! {

/// Number of interrupt vectors.
pub const VECTOR_COUNT: usize = 256;

/// Vector of the breakpoint exception.
pub const BREAKPOINT_VECTOR: usize = 3;

/// Vector of the double-fault exception.
pub const DOUBLE_FAULT_VECTOR: usize = 8;

/// First vector that external interrupt lines are redirected to.
pub const IRQ_BASE: usize = 32;

/// Vector of the serial port's receive interrupt: line 4 above `IRQ_BASE`.
pub const SERIAL_VECTOR: usize = 36;

/// Interrupt lines of the I/O interrupt controller.
pub const IRQ_LINES: u32 = 24;

/// Index of the first register of the controller's redirection table.
pub const REDIRECTION_TABLE: u32 = 0x10;

/// Index of the stack that the double-fault handler runs on.
pub const DOUBLE_FAULT_STACK: u16 = 0;

/// Address of the local interrupt controller's end-of-interrupt register.
pub const EOI_REGISTER: u64 = 0xfee0_00b0;

/// The value that signals end-of-interrupt.
pub const EOI_VALUE: u32 = 0;

/// The handlers that the kernel installs.
#[derive(Debug, Clone, Copy, PartialEq, Eq, Structural)]
pub enum Handler {
    /// Logs the interrupted frame.
    Breakpoint,
    /// Reports the fault and stops.
    DoubleFault,
    /// Takes a byte from the serial port.
    SerialReceive,
}

/// What happens once a handler has run.
#[derive(Debug, Clone, Copy, PartialEq, Eq, Structural)]
pub enum Outcome {
    /// The interrupted code goes on.
    Resume,
    /// The processor halts for good.
    Halt,
}

/// One installed vector.
#[derive(Debug, Clone, Copy, PartialEq, Eq, Structural)]
pub struct Gate {
    /// The handler to run.
    pub handler: Handler,
    /// The stack to switch to before it runs, if it has one of its own.
    pub stack_index: Option<u16>,
}

/// A 32-bit write to a memory-mapped register.
#[derive(Debug, Clone, Copy, PartialEq, Eq, Structural)]
pub struct RegisterWrite {
    pub address: u64,
    pub value: u32,
}

/// An entry of the I/O interrupt controller's redirection table, as the two
/// 32-bit registers that make it up.
#[derive(Debug, Clone, Copy, PartialEq, Eq, Structural)]
pub struct Redirection {
    /// Index of the entry's low register; the high register follows it.
    pub register: u32,
    /// The low register: the vector in bits 0 to 7, and nothing else set.
    pub low: u32,
    /// The high register: the destination processor in bits 24 to 31.
    pub high: u32,
}

/// The kernel's vectors: breakpoint, double fault on a stack of its own, and
/// serial receive. No other vector has a handler.
pub open spec fn kernel_vectors() -> Seq<Option<Gate>> {
    Seq::new(
        256,
        |v: int|
            if v == BREAKPOINT_VECTOR {
                Some(Gate { handler: Handler::Breakpoint, stack_index: None })
            } else if v == DOUBLE_FAULT_VECTOR {
                Some(Gate { handler: Handler::DoubleFault, stack_index: Some(DOUBLE_FAULT_STACK) })
            } else if v == SERIAL_VECTOR {
                Some(Gate { handler: Handler::SerialReceive, stack_index: None })
            } else {
                None
            },
    )
}

/// The table of interrupt vectors.
#[derive(Debug, Clone)]
pub struct VectorTable {
    gates: Vec<Option<Gate>>,
}

impl View for VectorTable {
    type V = Seq<Option<Gate>>;

    closed spec fn view(&self) -> Seq<Option<Gate>> {
        self.gates@
    }
}

impl VectorTable {
    /// What is installed at `vector`; `None` if it has no handler or is no vector.
    pub fn gate(&self, vector: usize) -> (gate: Option<Gate>)
        ensures
            gate == if vector < self@.len() {
                self@[vector as int]
            } else {
                None
            },
    {
        if vector < self.gates.len() {
            self.gates[vector]
        } else {
            None
        }
    }
}

/// Builds the table of the kernel's interrupt vectors, for the caller to
/// load.
pub fn init() -> (table: VectorTable)
    ensures
        table@ == kernel_vectors(),
{
    let mut gates: Vec<Option<Gate>> = Vec::new();
    let mut v: usize = 0;
    while v < VECTOR_COUNT
        invariant
            v <= VECTOR_COUNT,
            gates@.len() == v,
            forall|k: int| 0 <= k < v ==> gates@[k] == kernel_vectors()[k],
        decreases VECTOR_COUNT - v,
    {
        let gate = if v == BREAKPOINT_VECTOR {
            Some(Gate { handler: Handler::Breakpoint, stack_index: None })
        } else if v == DOUBLE_FAULT_VECTOR {
            Some(Gate { handler: Handler::DoubleFault, stack_index: Some(DOUBLE_FAULT_STACK) })
        } else if v == SERIAL_VECTOR {
            Some(Gate { handler: Handler::SerialReceive, stack_index: None })
        } else {
            None
        };
        gates.push(gate);
        v += 1;
    }
    assert(gates@ =~= kernel_vectors());
    VectorTable { gates }
}

/// The entry of the I/O interrupt controller's redirection table for the
/// line `irq`: the line is delivered to its vector, the line's number above
/// `IRQ_BASE`, on the processor `destination`, and it is not masked. `None`
/// for a line or a processor that the controller does not have.
pub fn redirection(irq: u32, destination: u32) -> (entry: Option<Redirection>)
    ensures
        irq < IRQ_LINES && destination < 256 ==> entry == Some(
            Redirection {
                register: (REDIRECTION_TABLE + 2 * irq) as u32,
                low: (IRQ_BASE + irq) as u32,
                high: (destination * 0x100_0000) as u32,
            },
        ),
        !(irq < IRQ_LINES && destination < 256) ==> entry is None,
{
    if irq < IRQ_LINES && destination < 256 {
        Some(
            Redirection {
                register: REDIRECTION_TABLE + 2 * irq,
                low: IRQ_BASE as u32 + irq,
                high: destination * 0x100_0000,
            },
        )
    } else {
        None
    }
}

/// The serial port's line is redirected to the vector that holds the serial
/// receive handler. The redirection entry and the vector table have to
/// change together, or not at all.
pub proof fn lemma_serial_line_has_its_handler()
    ensures
        IRQ_BASE + IRQ_COM1 == SERIAL_VECTOR,
        kernel_vectors()[SERIAL_VECTOR as int] == Some(
            Gate { handler: Handler::SerialReceive, stack_index: None },
        ),
{
}

/// What follows a handler: a breakpoint and a received byte let the
/// interrupted code go on; a double fault is always the end.
pub fn outcome(handler: Handler) -> (outcome: Outcome)
    ensures
        outcome == if handler == Handler::DoubleFault {
            Outcome::Halt
        } else {
            Outcome::Resume
        },
{
    match handler {
        Handler::Breakpoint => Outcome::Resume,
        Handler::DoubleFault => Outcome::Halt,
        Handler::SerialReceive => Outcome::Resume,
    }
}

/// The register write that tells the local interrupt controller that the
/// interrupt has been served. It is due once for each interrupt, before the
/// handler does anything that could wait for another one of the same line.
pub fn notify_end_of_interrupt() -> (write: RegisterWrite)
    ensures
        write == (RegisterWrite { address: EOI_REGISTER, value: EOI_VALUE }),
{
    RegisterWrite { address: EOI_REGISTER, value: EOI_VALUE }
}

} // verus!

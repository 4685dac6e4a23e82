//! The serial console: a 16550A-compatible UART behind eight I/O ports.
//!
//! The driver decides which port gets which value and when a byte may be sent
//! or taken; the caller does the port accesses, inside a section in which
//! interrupts are off, so that the receive handler cannot cut into a polling
//! read or write.

use vstd::prelude::*;

verus! {

/// Port base of the first serial port.
pub const COM1: u16 = 0x3f8;

/// Port base of the second serial port.
pub const COM2: u16 = 0x2f8;

/// Port base of the third serial port.
pub const COM3: u16 = 0x3e8;

/// Port base of the fourth serial port.
pub const COM4: u16 = 0x2e8;

/// Interrupt line of the first and third serial port.
pub const IRQ_COM1: u32 = 4;

/// Interrupt line of the second and fourth serial port.
pub const IRQ_COM2: u32 = 3;

/// Data port of the first legacy interrupt controller.
pub const PIC1_DATA: u16 = 0x21;

/// Data port of the second legacy interrupt controller.
pub const PIC2_DATA: u16 = 0xa1;

/// Line-status bit: a received byte is waiting.
pub const DATA_READY: u16 = 0x01;

/// Line-status bit: the transmit register is empty.
pub const TRANSMIT_EMPTY: u16 = 0x20;

/// What the line-status port reads as when no device is there.
pub const DISCONNECTED: u16 = 0xff;

/// The rate the console runs at, in bits per second.
pub const BAUD_RATE: u32 = 115200;

/// The rate that the UART's clock gives with divisor 1.
pub const MAX_BAUD_RATE: u32 = 115200;

/// The clock divisor for `BAUD_RATE`: `MAX_BAUD_RATE / BAUD_RATE`.
pub const BAUD_DIVISOR: u16 = 1;

/// A value to write to an I/O port.
#[derive(Debug, Clone, Copy, PartialEq, Eq, Structural)]
pub struct PortWrite {
    pub port: u16,
    pub value: u8,
}

/// The steps that set up a serial port, in the order to take them.
#[derive(Debug)]
pub struct UartSetup {
    /// The port writes that program the device.
    pub writes: Vec<PortWrite>,
    /// The port to read next: if it reads as `DISCONNECTED`, no device is
    /// there, and that is fatal.
    pub probe: u16,
    /// The ports to read after that, to drop what was pending.
    pub drain: [u16; 2],
    /// The interrupt line to enable at the interrupt controller's redirection
    /// table at the end.
    pub irq: u32,
    /// The processor that the line is routed to.
    pub destination: u32,
}

/// A serial port.
#[derive(Debug, Clone, Copy, PartialEq, Eq, Structural)]
pub struct Uart {
    com: u16,
    skip_wait: bool,
}

/// The writes that set up the UART at port base `com`, in order: both legacy
/// interrupt controllers masked; UART interrupts off; divisor latch opened,
/// divisor low and high byte, latch closed with 8 data bits, no parity, one
/// stop bit; modem control for interrupt delivery; receive interrupt on.
pub open spec fn init_sequence(com: int) -> Seq<PortWrite> {
    seq![
        PortWrite { port: PIC2_DATA, value: 0xff },
        PortWrite { port: PIC1_DATA, value: 0xff },
        PortWrite { port: (com + 1) as u16, value: 0x00 },
        PortWrite { port: (com + 3) as u16, value: 0x80 },
        PortWrite { port: com as u16, value: (BAUD_DIVISOR % 256) as u8 },
        PortWrite { port: (com + 1) as u16, value: (BAUD_DIVISOR / 256) as u8 },
        PortWrite { port: (com + 3) as u16, value: 0x03 },
        PortWrite { port: (com + 4) as u16, value: 0x0b },
        PortWrite { port: (com + 1) as u16, value: 0x01 },
    ]
}

/// The bytes that clear a terminal's screen and put the cursor at the top
/// left: `ESC [ 2 J`, then `ESC [ 1 ; 1 H`.
pub open spec fn clear_screen_bytes() -> Seq<u8> {
    seq![0x1bu8, 0x5b, 0x32, 0x4a, 0x1b, 0x5b, 0x31, 0x3b, 0x31, 0x48]
}

impl Uart {
    /// The port base.
    pub closed spec fn base(self) -> int {
        self.com as int
    }

    /// Whether the driver sends and takes bytes without looking at the line
    /// status, as it may where the port always drains at once.
    pub closed spec fn skips_wait(self) -> bool {
        self.skip_wait
    }

    #[verifier::type_invariant]
    spec fn inv(self) -> bool {
        self.com <= 0xfff8
    }

    /// A driver for the UART whose eight ports start at `com`; `None` if they
    /// would not all lie in the port space.
    pub fn new(com: u16, skip_wait: bool) -> (uart: Option<Self>)
        ensures
            match uart {
                Some(u) => com <= 0xfff8 && u.base() == com && u.skips_wait() == skip_wait,
                None => com > 0xfff8,
            },
    {
        if com <= 0xfff8 {
            Some(Uart { com, skip_wait })
        } else {
            None
        }
    }

    /// What it takes to set up the device, for the caller to carry out with
    /// interrupts off.
    pub fn init(&self) -> (setup: UartSetup)
        ensures
            setup.writes@ == init_sequence(self.base()),
            setup.probe == self.base() + 5,
            setup.drain@ == seq![(self.base() + 2) as u16, self.base() as u16],
            setup.irq == IRQ_COM1,
            setup.destination == 0,
    {
        proof {
            use_type_invariant(self);
        }
        let com = self.com;
        let mut writes: Vec<PortWrite> = Vec::new();
        writes.push(PortWrite { port: PIC2_DATA, value: 0xff });
        writes.push(PortWrite { port: PIC1_DATA, value: 0xff });
        writes.push(PortWrite { port: com + 1, value: 0x00 });
        writes.push(PortWrite { port: com + 3, value: 0x80 });
        writes.push(PortWrite { port: com, value: (BAUD_DIVISOR % 256) as u8 });
        writes.push(PortWrite { port: com + 1, value: (BAUD_DIVISOR / 256) as u8 });
        writes.push(PortWrite { port: com + 3, value: 0x03 });
        writes.push(PortWrite { port: com + 4, value: 0x0b });
        writes.push(PortWrite { port: com + 1, value: 0x01 });
        assert(writes@ =~= init_sequence(self.base()));
        let drain = [com + 2, com];
        assert(drain@ =~= seq![(self.base() + 2) as u16, self.base() as u16]);
        UartSetup { writes, probe: com + 5, drain, irq: IRQ_COM1, destination: 0 }
    }

    /// The line-status port, which tells whether a byte may be sent or taken.
    pub fn line_status_port(&self) -> (port: u16)
        ensures
            port == self.base() + 5,
    {
        proof {
            use_type_invariant(self);
        }
        self.com + 5
    }

    /// Whether a device answers, judged by the value read from the probe port
    /// after set-up.
    pub fn is_present(line_status: u16) -> (present: bool)
        ensures
            present == (line_status != DISCONNECTED),
    {
        line_status != DISCONNECTED
    }

    /// Sends byte `c` if the line status allows it: the write to make, or
    /// `None` while the transmit register is still full and the caller has to
    /// read the line status again.
    pub fn write(&self, line_status: u16, c: u8) -> (write: Option<PortWrite>)
        ensures
            self.skips_wait() || line_status & TRANSMIT_EMPTY == TRANSMIT_EMPTY ==> write == Some(
                PortWrite { port: self.base() as u16, value: c },
            ),
            !(self.skips_wait() || line_status & TRANSMIT_EMPTY == TRANSMIT_EMPTY) ==> write is None,
    {
        if self.skip_wait || line_status & TRANSMIT_EMPTY == TRANSMIT_EMPTY {
            Some(PortWrite { port: self.com, value: c })
        } else {
            None
        }
    }

    /// Takes a byte if the line status shows one: the port to read it from,
    /// or `None` while nothing has arrived and the caller has to read the
    /// line status again.
    pub fn read(&self, line_status: u16) -> (port: Option<u16>)
        ensures
            self.skips_wait() || line_status & DATA_READY == DATA_READY ==> port == Some(self.base() as u16),
            !(self.skips_wait() || line_status & DATA_READY == DATA_READY) ==> port is None,
    {
        if self.skip_wait || line_status & DATA_READY == DATA_READY {
            Some(self.com)
        } else {
            None
        }
    }

    /// The byte in a value read from the data port: its low eight bits.
    pub fn received(data: u16) -> (byte: u8)
        ensures
            byte == data % 256,
    {
        (data % 256) as u8
    }
}

/// The divisor is the one for the console's rate.
pub proof fn lemma_baud_divisor()
    ensures
        BAUD_DIVISOR == MAX_BAUD_RATE / BAUD_RATE,
        BAUD_DIVISOR * BAUD_RATE == MAX_BAUD_RATE,
{
}

/// The console's driver: the UART at `COM1`, which waits for the line status.
pub fn init() -> (uart: Uart)
    ensures
        uart.base() == COM1,
        !uart.skips_wait(),
{
    Uart { com: COM1, skip_wait: false }
}

/// The bytes to send to clear the screen.
pub fn remove_screen() -> (bytes: Vec<u8>)
    ensures
        bytes@ == clear_screen_bytes(),
{
    let mut bytes: Vec<u8> = Vec::new();
    bytes.push(0x1b);
    bytes.push(0x5b);
    bytes.push(0x32);
    bytes.push(0x4a);
    bytes.push(0x1b);
    bytes.push(0x5b);
    bytes.push(0x31);
    bytes.push(0x3b);
    bytes.push(0x31);
    bytes.push(0x48);
    assert(bytes@ =~= clear_screen_bytes());
    bytes
}

/// Where the receive handler stands.
#[derive(Debug, Clone, Copy, PartialEq, Eq, Structural)]
pub enum ReceiveState {
    /// The interrupt has just arrived.
    Entered,
    /// The byte is being read.
    Reading,
    /// The byte is there; the interrupt controller is being told.
    Acknowledging(u8),
    /// The byte is being echoed.
    Echoing,
    /// The handler has returned.
    Returned,
}

/// What the receive handler does next.
#[derive(Debug, Clone, Copy, PartialEq, Eq, Structural)]
pub enum ReceiveAction {
    /// Read one byte from the UART.
    ReadByte,
    /// Signal end-of-interrupt.
    NotifyEndOfInterrupt,
    /// Write the byte to the console.
    Echo(u8),
    /// Return from the handler.
    Return,
}

/// One step of the receive handler. `byte` is the byte that was read, which
/// counts only in `Reading`; as long as there is none, the read is repeated.
pub open spec fn receive_step(state: ReceiveState, byte: Option<u8>) -> (ReceiveState, ReceiveAction) {
    match state {
        ReceiveState::Entered => (ReceiveState::Reading, ReceiveAction::ReadByte),
        ReceiveState::Reading => match byte {
            Some(b) => (ReceiveState::Acknowledging(b), ReceiveAction::NotifyEndOfInterrupt),
            None => (ReceiveState::Reading, ReceiveAction::ReadByte),
        },
        ReceiveState::Acknowledging(b) => (ReceiveState::Echoing, ReceiveAction::Echo(b)),
        ReceiveState::Echoing => (ReceiveState::Returned, ReceiveAction::Return),
        ReceiveState::Returned => (ReceiveState::Returned, ReceiveAction::Return),
    }
}

/// The receive interrupt handler, step by step: it reads one byte, signals
/// end-of-interrupt, echoes the byte and returns. The caller runs all of it
/// with interrupts off.
pub fn uart_handler(state: ReceiveState, byte: Option<u8>) -> (next: (ReceiveState, ReceiveAction))
    ensures
        next == receive_step(state, byte),
{
    match state {
        ReceiveState::Entered => (ReceiveState::Reading, ReceiveAction::ReadByte),
        ReceiveState::Reading => match byte {
            Some(b) => (ReceiveState::Acknowledging(b), ReceiveAction::NotifyEndOfInterrupt),
            None => (ReceiveState::Reading, ReceiveAction::ReadByte),
        },
        ReceiveState::Acknowledging(b) => (ReceiveState::Echoing, ReceiveAction::Echo(b)),
        ReceiveState::Echoing => (ReceiveState::Returned, ReceiveAction::Return),
        ReceiveState::Returned => (ReceiveState::Returned, ReceiveAction::Return),
    }
}

/// For a byte `b` that is read at once, the handler reads, signals
/// end-of-interrupt once and before the echo, echoes `b` and returns; after
/// that nothing but returning is left.
pub proof fn lemma_receive_order(b: u8, byte: Option<u8>)
    ensures
        receive_step(ReceiveState::Entered, byte) == (ReceiveState::Reading, ReceiveAction::ReadByte),
        receive_step(ReceiveState::Reading, Some(b)) == (
            ReceiveState::Acknowledging(b),
            ReceiveAction::NotifyEndOfInterrupt,
        ),
        receive_step(ReceiveState::Acknowledging(b), byte) == (ReceiveState::Echoing, ReceiveAction::Echo(b)),
        receive_step(ReceiveState::Echoing, byte) == (ReceiveState::Returned, ReceiveAction::Return),
        receive_step(ReceiveState::Returned, byte) == (ReceiveState::Returned, ReceiveAction::Return),
{
}

} // verus!

//! The 16550 UART on COM1, the kernel's console.
//!
//! The UART exposes eight one-byte registers at consecutive x86 I/O ports from
//! its base port. This module decides which bytes go to which port: the
//! bring-up sequence and the transmit handshake. The `in`/`out` instructions
//! themselves belong to the caller.
//!
//! The register model below says what those writes do to a 16550, so that the
//! configuration the bring-up leaves behind can be stated and proved.
use vstd::prelude::*;
use crate::wire::wire;

verus! {

/// COM1. (The other legacy ports are 0x2F8, 0x3E8, 0x2E8.)
pub const COM1: u16 = 0x3F8;

/// Bit 5 of the line-status register: the transmit holding register is empty.
pub const LSR_THR_EMPTY: u8 = 0x20;

/// One byte written to one I/O port.
#[derive(Clone, Copy, Debug, PartialEq, Eq, Structural)]
pub struct PortWrite {
    pub port: u16,
    pub value: u8,
}

/// What the transmitter does next, given the line status it just read.
#[derive(Clone, Copy, Debug, PartialEq, Eq, Structural)]
pub enum TxStep {
    /// The holding register is still full: read the line status again.
    Wait,
    /// The holding register is empty: write the byte.
    Send(PortWrite),
}

/// A handle to one 16550 UART.
#[derive(Clone, Copy, Debug)]
pub struct Uart {
    /// Port address of register 0; the rest are `base + 1 ..= base + 7`.
    base: u16,
}

/// Whether bit 5 of a line-status value is set.
pub open spec fn thr_empty(line_status: u8) -> bool {
    (line_status / 32) % 2 == 1
}

/// The standard bring-up, as port writes relative to `base`: interrupts off,
/// divisor 3 (38400 baud), 8 data bits, no parity, 1 stop bit, FIFOs on with
/// a 14-byte trigger, DTR + RTS + OUT2.
pub open spec fn init_writes(base: u16) -> Seq<PortWrite> {
    seq![
        PortWrite { port: (base + 1) as u16, value: 0x00 },
        PortWrite { port: (base + 3) as u16, value: 0x80 },
        PortWrite { port: base, value: 0x03 },
        PortWrite { port: (base + 1) as u16, value: 0x00 },
        PortWrite { port: (base + 3) as u16, value: 0x03 },
        PortWrite { port: (base + 2) as u16, value: 0xC7 },
        PortWrite { port: (base + 4) as u16, value: 0x0B },
    ]
}

impl Uart {
    /// The UART's base port.
    pub closed spec fn base(&self) -> u16 {
        self.base
    }

    /// A handle to the UART whose registers start at `base`.
    pub fn new(base: u16) -> (uart: Uart)
        ensures
            uart.base() == base,
    {
        Uart { base }
    }

    /// Standard 16550 bring-up: 38400 baud, 8 data bits, no parity, 1 stop
    /// bit. Returns the port writes, to be made in order.
    pub fn init(&self) -> (writes: [PortWrite; 7])
        requires
            self.base() + 4 <= u16::MAX,
        ensures
            writes@ == init_writes(self.base()),
    {
        let base = self.base;
        let writes = [
            // disable UART interrupts for now
            PortWrite { port: base + 1, value: 0x00 },
            // DLAB = 1: next two writes set the divisor
            PortWrite { port: base + 3, value: 0x80 },
            // divisor low = 3 -> 115200 / 3 = 38400 baud
            PortWrite { port: base, value: 0x03 },
            // divisor high = 0
            PortWrite { port: base + 1, value: 0x00 },
            // DLAB = 0, 8 bits / no parity / 1 stop
            PortWrite { port: base + 3, value: 0x03 },
            // enable + clear FIFOs, 14-byte trigger
            PortWrite { port: base + 2, value: 0xC7 },
            // DTR + RTS + OUT2 (OUT2 gates IRQs later)
            PortWrite { port: base + 4, value: 0x0B },
        ];
        assert(writes@ =~= init_writes(self.base()));
        writes
    }

    /// The line-status register (base + 5), polled before each byte.
    pub fn line_status_port(&self) -> (port: u16)
        requires
            self.base() + 5 <= u16::MAX,
        ensures
            port == self.base() + 5,
    {
        self.base + 5
    }

    /// One step of sending `byte`: given the line status just read, either
    /// wait for the holding register to drain or write the byte to the data
    /// register.
    pub fn transmit_step(&self, byte: u8, line_status: u8) -> (step: TxStep)
        ensures
            (step is Send) == (line_status & 0x20u8 != 0u8),
            step is Send ==> step == TxStep::Send(PortWrite { port: self.base(), value: byte }),
            step == (if thr_empty(line_status) {
                TxStep::Send(PortWrite { port: self.base(), value: byte })
            } else {
                TxStep::Wait
            }),
    {
        assert((line_status & 0x20u8 != 0) == ((line_status / 32) % 2 == 1)) by (bit_vector);
        if line_status & LSR_THR_EMPTY != 0 {
            TxStep::Send(PortWrite { port: self.base, value: byte })
        } else {
            TxStep::Wait
        }
    }
}

/// Bring the COM1 port up: the port writes that configure it, in order.
pub fn init() -> (writes: [PortWrite; 7])
    ensures
        writes@ == init_writes(COM1),
{
    Uart::new(COM1).init()
}

/// The state of a 16550 that the kernel's writes can change.
pub struct UartRegs {
    /// Interrupt enable register.
    pub ier: u8,
    /// FIFO control register (write-only on the chip; the value last written).
    pub fcr: u8,
    /// Line control register.
    pub lcr: u8,
    /// Modem control register.
    pub mcr: u8,
    /// Divisor latch, low byte.
    pub dll: u8,
    /// Divisor latch, high byte.
    pub dlm: u8,
    /// Every byte handed to the transmitter so far, in order.
    pub sent: Seq<u8>,
}

/// The divisor-latch access bit (bit 7 of the line control register).
pub open spec fn dlab(lcr: u8) -> bool {
    lcr >= 0x80
}

/// What one port write does to the UART whose registers start at `base`.
/// Registers 0 and 1 are the divisor latch while DLAB is set, and the
/// transmit holding and interrupt enable registers otherwise; writes to
/// registers 5 to 7 and to other ports leave this state alone.
pub open spec fn after_write(regs: UartRegs, base: u16, w: PortWrite) -> UartRegs {
    let UartRegs { ier, fcr, lcr, mcr, dll, dlm, sent } = regs;
    let v = w.value;
    if w.port == base {
        if dlab(lcr) {
            UartRegs { ier, fcr, lcr, mcr, dll: v, dlm, sent }
        } else {
            UartRegs { ier, fcr, lcr, mcr, dll, dlm, sent: sent.push(v) }
        }
    } else if w.port == base + 1 {
        if dlab(lcr) {
            UartRegs { ier, fcr, lcr, mcr, dll, dlm: v, sent }
        } else {
            UartRegs { ier: v, fcr, lcr, mcr, dll, dlm, sent }
        }
    } else if w.port == base + 2 {
        UartRegs { ier, fcr: v, lcr, mcr, dll, dlm, sent }
    } else if w.port == base + 3 {
        UartRegs { ier, fcr, lcr: v, mcr, dll, dlm, sent }
    } else if w.port == base + 4 {
        UartRegs { ier, fcr, lcr, mcr: v, dll, dlm, sent }
    } else {
        regs
    }
}

/// What a run of port writes, made in order, does to the UART.
pub open spec fn after_writes(regs: UartRegs, base: u16, writes: Seq<PortWrite>) -> UartRegs
    decreases writes.len(),
{
    if writes.len() == 0 {
        regs
    } else {
        after_write(after_writes(regs, base, writes.drop_last()), base, writes.last())
    }
}

/// The writes that hand `bytes` to the transmitter at `base`, one per byte.
pub open spec fn data_writes(base: u16, bytes: Seq<u8>) -> Seq<PortWrite> {
    Seq::new(bytes.len(), |i: int| PortWrite { port: base, value: bytes[i] })
}

/// The UART's input clock divided by 16: the baud rate at divisor 1.
pub open spec fn base_baud() -> int {
    115200
}

/// The divisor currently latched.
pub open spec fn divisor(regs: UartRegs) -> int {
    regs.dlm * 256 + regs.dll
}

/// The line speed that the latched divisor selects.
pub open spec fn baud(regs: UartRegs) -> int {
    base_baud() / divisor(regs)
}

/// Data bits per character (LCR bits 0-1).
pub open spec fn data_bits(lcr: u8) -> int {
    5 + lcr % 4
}

/// Whether a parity bit is sent (LCR bit 3).
pub open spec fn parity_enabled(lcr: u8) -> bool {
    (lcr / 8) % 2 == 1
}

/// Stop bits per character (LCR bit 2; with 6 or more data bits, set means 2).
pub open spec fn stop_bits(lcr: u8) -> int {
    1 + (lcr / 4) % 2
}

/// Whether the FIFOs are enabled (FCR bit 0).
pub open spec fn fifos_enabled(fcr: u8) -> bool {
    fcr % 2 == 1
}

/// The receive FIFO trigger level in bytes (FCR bits 6-7).
pub open spec fn rx_trigger_level(fcr: u8) -> int {
    let sel = fcr / 64;
    if sel == 0 {
        1
    } else if sel == 1 {
        4
    } else if sel == 2 {
        8
    } else {
        14
    }
}

/// DTR, RTS and OUT2 are set, and loopback is off (MCR bits 0, 1, 3 and 4).
pub open spec fn modem_lines_up(mcr: u8) -> bool {
    &&& mcr % 2 == 1
    &&& (mcr / 2) % 2 == 1
    &&& (mcr / 8) % 2 == 1
    &&& (mcr / 16) % 2 == 0
}

/// After the bring-up, whatever state the UART was in, it runs at 38400
/// baud with 8 data bits, no parity and 1 stop bit (8N1); the divisor latch
/// is closed again, the FIFOs are on with a 14-byte trigger, DTR, RTS and OUT2
/// are up, and nothing was transmitted. Interrupts are off as well when the
/// latch was closed beforehand, as it is after a reset: with it open, the
/// first write lands in the divisor instead.
pub proof fn lemma_bring_up(regs: UartRegs, base: u16)
    requires
        base + 4 <= u16::MAX,
    ensures
        ({
            let r = after_writes(regs, base, init_writes(base));
            &&& divisor(r) == 3
            &&& baud(r) == 38400
            &&& data_bits(r.lcr) == 8
            &&& !parity_enabled(r.lcr)
            &&& stop_bits(r.lcr) == 1
            &&& !dlab(r.lcr)
            &&& fifos_enabled(r.fcr)
            &&& rx_trigger_level(r.fcr) == 14
            &&& modem_lines_up(r.mcr)
            &&& r.sent == regs.sent
            &&& (!dlab(regs.lcr) ==> r.ier == 0)
            &&& r.lcr == 0x03
            &&& r.dll == 0x03
            &&& r.dlm == 0x00
            &&& r.fcr == 0xC7
            &&& r.mcr == 0x0B
        }),
{
    let w = init_writes(base);
    reveal_with_fuel(after_writes, 8);
    assert(w.drop_last().drop_last().drop_last().drop_last().drop_last().drop_last().drop_last()
        =~= Seq::<PortWrite>::empty());
    assert(w.subrange(0, 6) =~= w.drop_last());
    assert(w.subrange(0, 5) =~= w.drop_last().drop_last());
    assert(w.subrange(0, 4) =~= w.drop_last().drop_last().drop_last());
    assert(w.subrange(0, 3) =~= w.drop_last().drop_last().drop_last().drop_last());
    assert(w.subrange(0, 2) =~= w.drop_last().drop_last().drop_last().drop_last().drop_last());
    assert(w.subrange(0, 1) =~= w.drop_last().drop_last().drop_last().drop_last().drop_last().drop_last());
}

/// Writes made one run after another act as the two runs joined.
pub proof fn lemma_after_writes_concat(regs: UartRegs, base: u16, a: Seq<PortWrite>, b: Seq<PortWrite>)
    ensures
        after_writes(regs, base, a + b) == after_writes(after_writes(regs, base, a), base, b),
    decreases b.len(),
{
    if b.len() == 0 {
        assert(a + b =~= a);
    } else {
        assert((a + b).drop_last() =~= a + b.drop_last());
        lemma_after_writes_concat(regs, base, a, b.drop_last());
    }
}

/// With the divisor latch closed, writing bytes to the data register hands
/// exactly those bytes to the transmitter, in order, and changes nothing else.
pub proof fn lemma_transmit(regs: UartRegs, base: u16, bytes: Seq<u8>)
    requires
        !dlab(regs.lcr),
    ensures
        ({
            let r = after_writes(regs, base, data_writes(base, bytes));
            &&& r.sent == regs.sent + bytes
            &&& r.ier == regs.ier && r.fcr == regs.fcr && r.lcr == regs.lcr
            &&& r.mcr == regs.mcr && r.dll == regs.dll && r.dlm == regs.dlm
        }),
    decreases bytes.len(),
{
    if bytes.len() == 0 {
        assert(data_writes(base, bytes) =~= Seq::<PortWrite>::empty());
        assert(regs.sent + bytes =~= regs.sent);
    } else {
        lemma_transmit(regs, base, bytes.drop_last());
        assert(data_writes(base, bytes).drop_last() =~= data_writes(base, bytes.drop_last()));
        assert(regs.sent + bytes =~= (regs.sent + bytes.drop_last()).push(bytes.last()));
    }
}

/// The console end to end: bring the UART up from whatever state it is in,
/// then hand it the wire bytes of `text` one data write at a time. The line
/// then runs at 38400 baud, 8N1, and the transmitter has carried exactly
/// `text` with each line feed as CR LF.
pub proof fn lemma_console_output(regs: UartRegs, base: u16, text: Seq<u8>)
    requires
        base + 4 <= u16::MAX,
    ensures
        ({
            let r = after_writes(
                regs,
                base,
                init_writes(base) + data_writes(base, wire(text)),
            );
            &&& r.sent == regs.sent + wire(text)
            &&& baud(r) == 38400
            &&& data_bits(r.lcr) == 8
            &&& !parity_enabled(r.lcr)
            &&& stop_bits(r.lcr) == 1
        }),
{
    lemma_bring_up(regs, base);
    lemma_after_writes_concat(regs, base, init_writes(base), data_writes(base, wire(text)));
    lemma_transmit(after_writes(regs, base, init_writes(base)), base, wire(text));
}

/// The transmitter's go-ahead is bit 5 of the line status and nothing else:
/// two line-status values that agree on bit 5 lead to the same decision.
pub proof fn lemma_thr_empty_is_bit_5(line_status: u8, other: u8)
    ensures
        thr_empty(line_status) == (line_status & 0x20u8 != 0u8),
        (line_status & 0x20u8) == (other & 0x20u8) ==> thr_empty(line_status) == thr_empty(other),
{
    assert(((line_status / 32) % 2 == 1) == (line_status & 0x20u8 != 0u8)) by (bit_vector);
    assert(((other / 32) % 2 == 1) == (other & 0x20u8 != 0u8)) by (bit_vector);
}

/// The bring-up is the same at every base port: seven writes whose values do
/// not depend on the base and whose ports lie at the same offsets from it,
/// all within the first five registers.
pub proof fn lemma_init_writes_relative(base: u16, other: u16)
    requires
        base + 4 <= u16::MAX,
        other + 4 <= u16::MAX,
    ensures
        init_writes(base).len() == 7,
        forall|i: int|
            0 <= i < 7 ==> {
                &&& #[trigger] init_writes(base)[i].value == init_writes(other)[i].value
                &&& init_writes(base)[i].port - base == init_writes(other)[i].port - other
                &&& 0 <= init_writes(base)[i].port - base <= 4
            },
{
}

} // verus!

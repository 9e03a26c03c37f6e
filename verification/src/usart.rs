//! The USART, and the ring buffer that holds what it receives.

use crate::bits::{bit, field, get_bit, get_field, lemma_with_bit_absorbs,
    lemma_with_field_reads_back, low_mask, set_bit, set_field, with_bit, with_field};
use crate::error::DriverError;
use crate::iocon::{select_func, with_func, Iocon};
use crate::nvic::{Interrupt, Nvic};
use crate::syscon::{Syscon, CLKDIV_OFFSET, CLKDIV_WIDTH, CLK_USART};
use vstd::prelude::*;

verus! {

/// The length of the USART RX buffer
pub const BUFFER_SIZE: usize = 1024;

/// Buffer content
#[derive(Clone, Copy, Debug, PartialEq, Eq)]
pub struct UartBuffer {
    /// Length of content, currently
    pub length: usize,
    /// Read pointer
    pub rptr: usize,
    /// Write pointer
    pub wptr: usize,
    /// Data buffer
    pub buffer: [u8; BUFFER_SIZE],
}

/// Control structure
#[derive(Clone, Copy, Debug, PartialEq, Eq)]
pub struct Pcb {
    /// Baud rate of connection
    pub baud_rate: u32,
    /// Status
    pub status: u32,
    /// Transmission data
    pub tx_data: u32,
    /// RX-buffer
    pub rxfifo: UartBuffer,
}

/// The USART block.
#[derive(Clone, Debug, PartialEq, Eq)]
pub struct Usart {
    /// Line control.
    pub lcr: u32,
    /// Divisor latch, most significant byte, in bits 7..0.
    pub dlm: u32,
    /// Divisor latch, least significant byte, in bits 7..0.
    pub dll: u32,
    /// Interrupt enable.
    pub ier: u32,
    /// Modem control.
    pub mcr: u32,
    /// Interrupt identification: the pending interrupt in bits 3..1.
    pub iir: u32,
    /// Line status.
    pub lsr: u32,
    /// FIFO control is write-only: the values written to it, oldest first.
    pub fcr: Vec<u32>,
    /// The transmit holding register is write-only: the bytes written to
    /// it, oldest first.
    pub thr: Vec<u8>,
}

// Fields of the line control register.
pub const LCR_WLS_OFFSET: u32 = 0;
pub const LCR_WLS_WIDTH: u32 = 2;
pub const LCR_SBS: u32 = 2;
pub const LCR_PE: u32 = 3;
pub const LCR_PS_OFFSET: u32 = 4;
pub const LCR_PS_WIDTH: u32 = 2;
pub const LCR_BC: u32 = 6;
pub const LCR_DLAB: u32 = 7;

/// Word length selector for 8-bit characters.
pub const WLS_8_BITS: u32 = 0x3;

// Bits of the interrupt enable register.
pub const IER_RBRINTEN: u32 = 0;
pub const IER_RLSINTEN: u32 = 2;

// Bits of the FIFO control register.
pub const FCR_FIFOEN: u32 = 0;
pub const FCR_RXFIFORES: u32 = 1;
pub const FCR_TXFIFORES: u32 = 2;

// Bits of the modem control register.
pub const MCR_RTSEN: u32 = 6;
pub const MCR_CTSEN: u32 = 7;

// Bits of the line status register.
pub const LSR_RDR: u32 = 0;
pub const LSR_OE: u32 = 1;
pub const LSR_PE: u32 = 2;
pub const LSR_FE: u32 = 3;
pub const LSR_BI: u32 = 4;
pub const LSR_THRE: u32 = 5;
pub const LSR_TEMT: u32 = 6;
pub const LSR_RXFE: u32 = 7;

// The interrupt identification field and the values the handler tells apart.
pub const IIR_INTID_OFFSET: u32 = 1;
pub const IIR_INTID_WIDTH: u32 = 3;
pub const INTID_LINE_STATUS: u32 = 0b101;
pub const INTID_DATA: u32 = 0b10;
pub const INTID_TIMEOUT: u32 = 0b110;
pub const INTID_THRE: u32 = 0b1;

/// Flag of the status word that records a character time-out.
pub const STATUS_TIMEOUT: u32 = 0x100;

/// Pin function that connects a pin to the USART.
pub const FUNC_USART: u32 = 0x1;

/// The divider of the USART clock.
pub const USART_CLOCK_DIVIDER: u32 = 0x1;

/// The clock that the baud rate divides, once divided by the USART clock
/// divider and by the 16 samples per bit.
pub const BAUD_BASE: u32 = 750;

/// The cell of the ring that lies `i` cells after `start`.
pub open spec fn ring_index(start: int, i: int) -> int {
    (start + i) % (BUFFER_SIZE as int)
}

impl UartBuffer {
    /// Both pointers are inside the buffer, the buffer holds no more than
    /// fits, and the write pointer is `length` bytes ahead of the read
    /// pointer.
    pub open spec fn wf(&self) -> bool {
        &&& self.rptr < BUFFER_SIZE
        &&& self.wptr < BUFFER_SIZE
        &&& self.length <= BUFFER_SIZE
        &&& self.wptr == (self.rptr + self.length) % (BUFFER_SIZE as int)
    }

    /// The bytes waiting to be read, oldest first.
    pub open spec fn contents(&self) -> Seq<u8> {
        Seq::new(self.length as nat, |i: int| self.buffer@[ring_index(self.rptr as int, i)])
    }
}

impl View for UartBuffer {
    type V = Seq<u8>;

    open spec fn view(&self) -> Seq<u8> {
        self.contents()
    }
}

impl Pcb {
    /// A control structure with an empty buffer.
    pub fn new(baud_rate: u32) -> (pcb: Pcb)
        ensures
            pcb.baud_rate == baud_rate,
            pcb.status == 0,
            pcb.tx_data == 0,
            pcb.rxfifo.wf(),
            pcb.rxfifo.length == 0,
            pcb.rxfifo.rptr == 0,
            pcb.rxfifo.wptr == 0,
            pcb.rxfifo.buffer@ == Seq::new(BUFFER_SIZE as nat, |i: int| 0u8),
            pcb.rxfifo@ == Seq::<u8>::empty(),
    {
        let pcb = Pcb {
            baud_rate,
            status: 0,
            tx_data: 0,
            rxfifo: UartBuffer { length: 0, rptr: 0, wptr: 0, buffer: [0; BUFFER_SIZE] },
        };
        pcb
    }
}

impl Usart {
    /// A block with every register cleared and nothing written.
    pub fn new() -> (u: Usart)
        ensures
            u.lcr == 0,
            u.dlm == 0,
            u.dll == 0,
            u.ier == 0,
            u.mcr == 0,
            u.iir == 0,
            u.lsr == 0,
            u.fcr@ == Seq::<u32>::empty(),
            u.thr@ == Seq::<u8>::empty(),
    {
        Usart {
            lcr: 0,
            dlm: 0,
            dll: 0,
            ier: 0,
            mcr: 0,
            iir: 0,
            lsr: 0,
            fcr: Vec::new(),
            thr: Vec::new(),
        }
    }
}

/// The transmitter can take a byte or is empty.
pub open spec fn transmitter_idle(lsr: u32) -> bool {
    bit(lsr, LSR_TEMT) || bit(lsr, LSR_THRE)
}

/// The line control register for 8-bit characters without parity, with one
/// stop bit, no break, and the divisor latches hidden.
pub open spec fn line_control(lcr: u32) -> u32 {
    with_bit(
        with_bit(
            with_bit(
                with_bit(
                    with_field(
                        with_field(lcr, LCR_WLS_OFFSET, LCR_WLS_WIDTH, WLS_8_BITS),
                        LCR_PS_OFFSET,
                        LCR_PS_WIDTH,
                        0,
                    ),
                    LCR_SBS,
                    false,
                ),
                LCR_PE,
                false,
            ),
            LCR_BC,
            false,
        ),
        LCR_DLAB,
        false,
    )
}

/// The pin configuration with the USART connected: receive and transmit,
/// and with flow control also clear-to-send and request-to-send.
pub open spec fn usart_pins(iocon: Iocon, flow_control: bool) -> Iocon {
    Iocon {
        pio0_18: with_func(iocon.pio0_18, FUNC_USART),
        pio0_19: with_func(iocon.pio0_19, FUNC_USART),
        pio0_7: if flow_control {
            with_func(iocon.pio0_7, FUNC_USART)
        } else {
            iocon.pio0_7
        },
        pio0_17: if flow_control {
            with_func(iocon.pio0_17, FUNC_USART)
        } else {
            iocon.pio0_17
        },
        ..iocon
    }
}

/// The three values that enable the FIFOs and reset the receive and the
/// transmit FIFO, in the order they are written.
pub open spec fn fifo_commands() -> Seq<u32> {
    seq![
        with_bit(0, FCR_FIFOEN, true),
        with_bit(0, FCR_RXFIFORES, true),
        with_bit(0, FCR_TXFIFORES, true),
    ]
}

/// Initialize the USART controller
///
/// Connects the pins, starts the USART clock, selects 8-bit characters
/// without parity and the divisor for the baud rate, enables and resets the
/// FIFOs, drops what was received before, and enables the USART interrupt
/// together with the receive and line-status interrupts. The receive buffer
/// is emptied.
///
/// The driver does not wait. A baud rate of 0 is refused, and so is a
/// transmitter that is not idle; nothing is written then.
pub fn init(
    pcb: &mut Pcb,
    nvic: &mut Nvic,
    iocon: &mut Iocon,
    syscon: &mut Syscon,
    usart: &mut Usart,
    baudrate: u32,
    flow_control: bool,
) -> (r: Result<(), DriverError>)
    ensures
        r == (if baudrate == 0 {
            Err::<(), DriverError>(DriverError::InvalidDivider)
        } else if !transmitter_idle(old(usart).lsr) {
            Err(DriverError::NotReady)
        } else {
            Ok(())
        }),
        r is Err ==> {
            &&& *final(pcb) == *old(pcb)
            &&& *final(nvic) == *old(nvic)
            &&& *final(iocon) == *old(iocon)
            &&& *final(syscon) == *old(syscon)
            &&& *final(usart) == *old(usart)
        },
        r is Ok ==> {
            &&& *final(pcb) == (Pcb {
                rxfifo: UartBuffer { length: 0, ..old(pcb).rxfifo },
                ..*old(pcb)
            })
            &&& final(nvic).enabled == with_bit(old(nvic).enabled, Interrupt::Usart.number(), true)
            &&& *final(iocon) == usart_pins(*old(iocon), flow_control)
            &&& *final(syscon) == (Syscon {
                sysahbclkctrl: with_bit(old(syscon).sysahbclkctrl, CLK_USART, true),
                uartclkdiv: with_field(
                    old(syscon).uartclkdiv,
                    CLKDIV_OFFSET,
                    CLKDIV_WIDTH,
                    USART_CLOCK_DIVIDER,
                ),
                ..*old(syscon)
            })
            &&& final(usart).lcr == line_control(old(usart).lcr)
            &&& final(usart).dlm == with_field(old(usart).dlm, 0, 8, (BAUD_BASE / baudrate) / 256)
            &&& final(usart).dll == with_field(old(usart).dll, 0, 8, (BAUD_BASE / baudrate) % 256)
            &&& final(usart).fcr@ == old(usart).fcr@ + fifo_commands()
            &&& final(usart).mcr == (if flow_control {
                with_bit(with_bit(old(usart).mcr, MCR_RTSEN, true), MCR_CTSEN, true)
            } else {
                old(usart).mcr
            })
            &&& final(usart).lsr == with_bit(old(usart).lsr, LSR_RDR, false)
            &&& final(usart).ier == with_bit(
                with_bit(old(usart).ier, IER_RBRINTEN, true),
                IER_RLSINTEN,
                true,
            )
            &&& final(usart).iir == old(usart).iir
            &&& final(usart).thr@ == old(usart).thr@
        },
{
    if baudrate == 0 {
        return Err(DriverError::InvalidDivider);
    }
    // Ensure clean start
    if !get_bit(usart.lsr, LSR_TEMT) && !get_bit(usart.lsr, LSR_THRE) {
        return Err(DriverError::NotReady);
    }
    proof {
        lemma_with_bit_absorbs(nvic.enabled, Interrupt::Usart.number(), false, true);
    }
    nvic.disable(Interrupt::Usart);
    init_buffer(pcb);

    // RXD
    iocon.pio0_18 = select_func(iocon.pio0_18, FUNC_USART);
    // TXD
    iocon.pio0_19 = select_func(iocon.pio0_19, FUNC_USART);
    // Setup flowcontrol (RTS/CTS)
    if flow_control {
        // CTS
        iocon.pio0_7 = select_func(iocon.pio0_7, FUNC_USART);
        // RTS
        iocon.pio0_17 = select_func(iocon.pio0_17, FUNC_USART);
    }
    // Start USART clock
    syscon.sysahbclkctrl = set_bit(syscon.sysahbclkctrl, CLK_USART, true);
    syscon.uartclkdiv = set_field(
        syscon.uartclkdiv,
        CLKDIV_OFFSET,
        CLKDIV_WIDTH,
        USART_CLOCK_DIVIDER,
    );

    // Setup Line Control Register
    let mut lcr: u32 = set_field(usart.lcr, LCR_WLS_OFFSET, LCR_WLS_WIDTH, WLS_8_BITS);
    lcr = set_field(lcr, LCR_PS_OFFSET, LCR_PS_WIDTH, 0);
    lcr = set_bit(lcr, LCR_SBS, false);
    lcr = set_bit(lcr, LCR_PE, false);
    lcr = set_bit(lcr, LCR_BC, false);
    proof {
        lemma_with_bit_absorbs(lcr, LCR_DLAB, true, false);
    }
    lcr = set_bit(lcr, LCR_DLAB, true);

    // Setup baud rate
    let register_value: u32 = get_field(syscon.uartclkdiv, CLKDIV_OFFSET, CLKDIV_WIDTH);
    proof {
        lemma_with_field_reads_back(
            old(syscon).uartclkdiv,
            CLKDIV_OFFSET,
            CLKDIV_WIDTH,
            USART_CLOCK_DIVIDER,
        );
        lemma_divider_reads_back();
    }
    let fdiv: u32 = ((12000u32 / register_value) / 16u32) / baudrate;
    usart.dlm = set_field(usart.dlm, 0, 8, fdiv / 256u32);
    usart.dll = set_field(usart.dll, 0, 8, fdiv % 256u32);

    // Reset divisor latch access bit
    usart.lcr = set_bit(lcr, LCR_DLAB, false);

    // Enable and clear FIFO
    usart.fcr.push(set_bit(0, FCR_FIFOEN, true));
    usart.fcr.push(set_bit(0, FCR_RXFIFORES, true));
    usart.fcr.push(set_bit(0, FCR_TXFIFORES, true));

    // Enable auto RTS/CTS
    if flow_control {
        usart.mcr = set_bit(usart.mcr, MCR_RTSEN, true);
        usart.mcr = set_bit(usart.mcr, MCR_CTSEN, true);
    }
    // Dump data
    usart.lsr = set_bit(usart.lsr, LSR_RDR, false);

    // Turn on USART once config is complete
    nvic.enable(Interrupt::Usart);
    usart.ier = set_bit(usart.ier, IER_RBRINTEN, true);
    usart.ier = set_bit(usart.ier, IER_RLSINTEN, true);
    Ok(())
}

/// The USART clock divider reads back as it was written.
proof fn lemma_divider_reads_back()
    ensures
        USART_CLOCK_DIVIDER & low_mask(CLKDIV_WIDTH) == USART_CLOCK_DIVIDER,
{
    assert(1u32 & !(0xffff_ffffu32 << 8u32) == 1u32) by (bit_vector);
}

/// Send an arbitrary region of data over USART
///
/// Writes the first `length` bytes of the buffer, in order, to the
/// transmitter. A `length` of 0 or less sends nothing.
///
/// The driver does not wait. A missing buffer is refused, and so is, when
/// there is anything to send, a transmitter that cannot take a byte; nothing
/// is written then.
pub fn send(usart: &mut Usart, buffer: Option<&[u8]>, length: isize) -> (r: Result<
    (),
    DriverError,
>)
    requires
        buffer matches Some(bytes) ==> length <= bytes@.len(),
    ensures
        r == (if buffer is None {
            Err::<(), DriverError>(DriverError::NullBuffer)
        } else if length > 0 && !bit(old(usart).lsr, LSR_THRE) {
            Err(DriverError::NotReady)
        } else {
            Ok(())
        }),
        r is Err ==> *final(usart) == *old(usart),
        r is Ok ==> {
            &&& final(usart).thr@ == old(usart).thr@ + buffer->0@.take(
                if length > 0 {
                    length as int
                } else {
                    0
                },
            )
            &&& final(usart).fcr@ == old(usart).fcr@
            &&& final(usart).lcr == old(usart).lcr
            &&& final(usart).dlm == old(usart).dlm
            &&& final(usart).dll == old(usart).dll
            &&& final(usart).ier == old(usart).ier
            &&& final(usart).mcr == old(usart).mcr
            &&& final(usart).iir == old(usart).iir
            &&& final(usart).lsr == old(usart).lsr
        },
{
    let bytes = match buffer {
        Some(bytes) => bytes,
        None => {
            return Err(DriverError::NullBuffer);
        },
    };
    if length > 0 && !get_bit(usart.lsr, LSR_THRE) {
        return Err(DriverError::NotReady);
    }
    let mut pos: isize = 0;
    while pos < length
        invariant
            0 <= pos,
            pos <= length || length < 0,
            length <= 0 ==> pos == 0,
            length <= bytes@.len(),
            usart.thr@ == old(usart).thr@ + bytes@.take(pos as int),
            usart.fcr@ == old(usart).fcr@,
            usart.lcr == old(usart).lcr,
            usart.dlm == old(usart).dlm,
            usart.dll == old(usart).dll,
            usart.ier == old(usart).ier,
            usart.mcr == old(usart).mcr,
            usart.iir == old(usart).iir,
            usart.lsr == old(usart).lsr,
        decreases length - pos,
    {
        usart.thr.push(bytes[pos as usize]);
        pos = pos + 1;
    }
    Ok(())
}

/// Send a single byte over USART
///
/// The driver does not wait: a transmitter that cannot take a byte is
/// refused, and nothing is written then.
pub fn send_byte(usart: &mut Usart, byte: u8) -> (r: Result<(), DriverError>)
    ensures
        r == (if bit(old(usart).lsr, LSR_THRE) {
            Ok::<(), DriverError>(())
        } else {
            Err(DriverError::NotReady)
        }),
        r is Err ==> *final(usart) == *old(usart),
        r is Ok ==> {
            &&& final(usart).thr@ == old(usart).thr@.push(byte)
            &&& final(usart).fcr@ == old(usart).fcr@
            &&& final(usart).lcr == old(usart).lcr
            &&& final(usart).dlm == old(usart).dlm
            &&& final(usart).dll == old(usart).dll
            &&& final(usart).ier == old(usart).ier
            &&& final(usart).mcr == old(usart).mcr
            &&& final(usart).iir == old(usart).iir
            &&& final(usart).lsr == old(usart).lsr
        },
{
    if !get_bit(usart.lsr, LSR_THRE) {
        return Err(DriverError::NotReady);
    }
    usart.thr.push(byte);
    Ok(())
}

/// The line status reports an overrun, a parity, framing or FIFO error, or a
/// break.
pub open spec fn line_error(lsr: u32) -> bool {
    bit(lsr, LSR_OE) || bit(lsr, LSR_PE) || bit(lsr, LSR_FE) || bit(lsr, LSR_RXFE) || bit(
        lsr,
        LSR_BI,
    )
}

/// Whether the line status reports an error or a break.
pub fn has_line_error(lsr: u32) -> (error: bool)
    ensures
        error == line_error(lsr),
{
    get_bit(lsr, LSR_OE) || get_bit(lsr, LSR_PE) || get_bit(lsr, LSR_FE) || get_bit(lsr, LSR_RXFE)
        || get_bit(lsr, LSR_BI)
}

/// The status word after an interrupt.
pub open spec fn status_after(status: u32, iir: u32, lsr: u32) -> u32 {
    let id = field(iir, IIR_INTID_OFFSET, IIR_INTID_WIDTH);
    if id == INTID_LINE_STATUS && line_error(lsr) {
        lsr
    } else if id == INTID_TIMEOUT {
        status | STATUS_TIMEOUT
    } else {
        status
    }
}

/// The transmission flag after an interrupt: on a transmitter interrupt, 0
/// when the transmitter can take a byte and 1 when it cannot.
pub open spec fn tx_data_after(tx_data: u32, iir: u32, lsr: u32) -> u32 {
    let id = field(iir, IIR_INTID_OFFSET, IIR_INTID_WIDTH);
    if id == INTID_THRE {
        if bit(lsr, LSR_THRE) {
            0
        } else {
            1
        }
    } else {
        tx_data
    }
}

/// Scaffold for interrupt handling
///
/// On a line-status interrupt with an error the line status becomes the
/// status word. On a character time-out the time-out flag is added to the
/// status word. On a transmitter interrupt the transmission flag is updated.
/// The receive buffer is not touched.
pub fn handle_interrupt(usart: &Usart, pcb: &mut Pcb)
    ensures
        *final(pcb) == (Pcb {
            status: status_after(old(pcb).status, usart.iir, usart.lsr),
            tx_data: tx_data_after(old(pcb).tx_data, usart.iir, usart.lsr),
            ..*old(pcb)
        }),
{
    // Check Receiver Line Status
    let id: u32 = get_field(usart.iir, IIR_INTID_OFFSET, IIR_INTID_WIDTH);
    if id == INTID_LINE_STATUS {
        // Detect errors
        let lsr: u32 = usart.lsr;
        if has_line_error(lsr) {
            pcb.status = lsr;
        }
    } else if id == INTID_TIMEOUT {
        pcb.status = pcb.status | STATUS_TIMEOUT;
    } else if id == INTID_THRE {
        if get_bit(usart.lsr, LSR_THRE) {
            pcb.tx_data = 0;
        } else {
            pcb.tx_data = 1;
        }
    }
}

/// Write some data to the protocol buffer
///
/// The byte is stored at the write pointer, the write pointer moves on and
/// wraps at the end of the buffer, and the length grows by one. On a buffer
/// that is well formed and not full, the byte becomes the newest of the bytes
/// waiting.
pub fn write_buffer(pcb: &mut Pcb, data: u8)
    requires
        old(pcb).rxfifo.wptr < BUFFER_SIZE,
        old(pcb).rxfifo.length < usize::MAX,
    ensures
        *final(pcb) == (Pcb {
            rxfifo: UartBuffer {
                length: (old(pcb).rxfifo.length + 1) as usize,
                rptr: old(pcb).rxfifo.rptr,
                wptr: ((old(pcb).rxfifo.wptr + 1) % (BUFFER_SIZE as int)) as usize,
                buffer: final(pcb).rxfifo.buffer,
            },
            ..*old(pcb)
        }),
        final(pcb).rxfifo.buffer@ == old(pcb).rxfifo.buffer@.update(
            old(pcb).rxfifo.wptr as int,
            data,
        ),
        old(pcb).rxfifo.wf() && old(pcb).rxfifo.length < BUFFER_SIZE ==> final(pcb).rxfifo.wf()
            && final(pcb).rxfifo@ == old(pcb).rxfifo@.push(data),
{
    pcb.rxfifo.buffer[pcb.rxfifo.wptr] = data;
    pcb.rxfifo.wptr = (pcb.rxfifo.wptr + 1) % BUFFER_SIZE;
    pcb.rxfifo.length += 1;
}

/// Clear the buffer by resetting the length
///
/// The pointers stay where they are.
pub fn init_buffer(pcb: &mut Pcb)
    ensures
        *final(pcb) == (Pcb { rxfifo: UartBuffer { length: 0, ..old(pcb).rxfifo }, ..*old(pcb) }),
        final(pcb).rxfifo@ == Seq::<u8>::empty(),
{
    pcb.rxfifo.length = 0;
}

/// Dump the next byte
///
/// Returns the byte at the read pointer; the read pointer moves on and wraps
/// at the end of the buffer, and the length shrinks by one. On a buffer that
/// is well formed, the byte is the oldest of the bytes waiting.
pub fn read_buffer(pcb: &mut Pcb) -> (data: u8)
    requires
        old(pcb).rxfifo.rptr < BUFFER_SIZE,
        old(pcb).rxfifo.length > 0,
    ensures
        data == old(pcb).rxfifo.buffer@[old(pcb).rxfifo.rptr as int],
        *final(pcb) == (Pcb {
            rxfifo: UartBuffer {
                length: (old(pcb).rxfifo.length - 1) as usize,
                rptr: ((old(pcb).rxfifo.rptr + 1) % (BUFFER_SIZE as int)) as usize,
                ..old(pcb).rxfifo
            },
            ..*old(pcb)
        }),
        old(pcb).rxfifo.wf() ==> final(pcb).rxfifo.wf() && data == old(pcb).rxfifo@[0] && final(pcb).rxfifo@ == old(pcb).rxfifo@.skip(1),
{
    let data = pcb.rxfifo.buffer[pcb.rxfifo.rptr];
    pcb.rxfifo.rptr = (pcb.rxfifo.rptr + 1) % BUFFER_SIZE;
    pcb.rxfifo.length -= 1;
    data
}

/// Dump the next bytes
///
/// With a `max_length` of 0, or with nothing waiting, nothing happens.
/// Otherwise every byte waiting is taken, oldest first, and each is stored
/// in the first cell of `target`, so that the cell ends up with the newest;
/// the other cells of `target` stay as they are.
///
/// The result tells whether the position in `target` has advanced. It never
/// does: the result is `false`.
pub fn read_array(pcb: &mut Pcb, target: &mut [u8], max_length: usize) -> (advanced: bool)
    requires
        old(pcb).rxfifo.rptr < BUFFER_SIZE,
        old(pcb).rxfifo.length > 0 && max_length > 0 ==> old(target)@.len() > 0,
    ensures
        !advanced,
        old(pcb).rxfifo.length == 0 || max_length == 0 ==> *final(pcb) == *old(pcb) && final(target)@ == old(target)@,
        old(pcb).rxfifo.length > 0 && max_length > 0 ==> {
            &&& *final(pcb) == (Pcb {
                rxfifo: UartBuffer {
                    length: 0,
                    rptr: ((old(pcb).rxfifo.rptr + old(pcb).rxfifo.length) % (
                    BUFFER_SIZE as int)) as usize,
                    ..old(pcb).rxfifo
                },
                ..*old(pcb)
            })
            &&& final(target)@ == old(target)@.update(
                0,
                old(pcb).rxfifo.buffer@[(old(pcb).rxfifo.rptr + old(pcb).rxfifo.length - 1) % (
                BUFFER_SIZE as int)],
            )
        },
{
    let ptr: usize = 0;
    let ghost taken: int = 0;
    while pcb.rxfifo.length > 0 && ptr < max_length
        invariant
            ptr == 0,
            0 <= taken <= old(pcb).rxfifo.length,
            old(pcb).rxfifo.rptr < BUFFER_SIZE,
            old(pcb).rxfifo.length > 0 && max_length > 0 ==> old(target)@.len() > 0,
            target@.len() == old(target)@.len(),
            *pcb == (Pcb {
                rxfifo: UartBuffer {
                    length: (old(pcb).rxfifo.length - taken) as usize,
                    rptr: ((old(pcb).rxfifo.rptr + taken) % (BUFFER_SIZE as int)) as usize,
                    ..old(pcb).rxfifo
                },
                ..*old(pcb)
            }),
            taken > 0 ==> old(pcb).rxfifo.length > 0 && max_length > 0,
            taken == 0 ==> target@ == old(target)@,
            taken > 0 ==> target@ == old(target)@.update(
                0,
                old(pcb).rxfifo.buffer@[(old(pcb).rxfifo.rptr + taken - 1) % (BUFFER_SIZE as int)],
            ),
        decreases pcb.rxfifo.length,
    {
        let byte = read_buffer(pcb);
        target[ptr] = byte;
        proof {
            taken = taken + 1;
        }
    }
    ptr > 0
}

/// Empty FIFO and reset length
pub fn clear_fifo(pcb: &mut Pcb)
    ensures
        *final(pcb) == (Pcb {
            rxfifo: UartBuffer { length: 0, rptr: 0, wptr: 0, ..old(pcb).rxfifo },
            ..*old(pcb)
        }),
        final(pcb).rxfifo.wf(),
        final(pcb).rxfifo@ == Seq::<u8>::empty(),
{
    pcb.rxfifo.rptr = 0;
    pcb.rxfifo.wptr = 0;
    pcb.rxfifo.length = 0;
}

/// Check if there is data waiting
pub fn data_pending(pcb: &Pcb) -> (pending: bool)
    ensures
        pending == (pcb.rxfifo.length > 0),
        pending == (pcb.rxfifo@.len() > 0),
{
    pcb.rxfifo.length > 0
}

} // verus!

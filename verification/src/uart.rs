//! A 16550A-style memory-mapped UART, device and driver together.
//!
//! The hardware is one bank of 8 byte-wide registers at a fixed base
//! address. A real driver reaches them through volatile loads and stores;
//! here the bank is plain data, so every register access is stated exactly:
//! which latch it lands in, what the divisor-latch mode aliases, which byte
//! leaves the transmitter, and that an index outside the bank is a fatal
//! configuration error rather than an access.
//!
//! Chip reference: the NS16550A register layout — receive/transmit holding
//! at offset 0, interrupt enable at 1, FIFO control at 2, line control at 3,
//! line status at 5; offsets 4, 6 and 7 unused by this driver.

use vstd::prelude::*;

verus! {

/// Receive holding register (for input bytes).
pub const RHR: u8 = 0;
/// Transmit holding register (for output bytes).
pub const THR: u8 = 0;
/// Interrupt enable register.
pub const IER: u8 = 1;
/// Interrupt-enable bit: receiver ready.
pub const IER_RX_ENABLE: u8 = 1 << 0;
/// Interrupt-enable bit: transmitter empty.
pub const IER_TX_ENABLE: u8 = 1 << 1;
/// FIFO control register.
pub const FCR: u8 = 2;
/// FIFO-control bit: enable the FIFOs.
pub const FCR_FIFO_ENABLE: u8 = 1 << 0;
/// FIFO-control bits: clear the content of the two FIFOs.
pub const FCR_FIFO_CLEAR: u8 = 3 << 1;
/// Interrupt status register (reads of offset 2).
pub const ISR: u8 = 2;
/// Line control register.
pub const LCR: u8 = 3;
/// Line-control word-length configuration written at initialization.
pub const LCR_WORD_LEN_5: u8 = 1 << 0 | 1 << 1;
/// Line-control word-length configuration for eight bits.
pub const LCR_EIGHT_BITS: u8 = 3 << 0;
/// Line-control bit: divisor-latch mode, to set the baud rate.
pub const LCR_BAUD_LATCH: u8 = 1 << 7;
/// Line status register.
pub const LSR: u8 = 5;
/// Line-status bit: input is waiting to be read from RHR.
pub const LSR_RX_READY: u8 = 1 << 0;
/// Line-status bit: THR can accept another character to send.
pub const LSR_TX_IDLE: u8 = 1 << 5;

/// A fatal configuration error: a register index outside the 8-slot bank.
/// The bank has 3 bits of address space; there is nothing at any other
/// index, and the only answer is to halt.
#[derive(Clone, Copy, PartialEq, Eq, Structural, Debug)]
pub struct RegIndexFault {
    /// The offending register index.
    pub index: u8,
}

/// The diagnostic a register-index fault halts with.
pub open spec fn index_fault_text() -> Seq<u8> {
    crate::text::str_bytes("index error: UART only has 3 bits of space")
}

/// Build the diagnostic for a register-index fault.
pub fn index_fault_message() -> (msg: Vec<u8>)
    ensures
        msg@ == index_fault_text(),
{
    let mut msg: Vec<u8> = Vec::new();
    crate::text::push_str(&mut msg, "index error: UART only has 3 bits of space");
    msg
}

/// One UART device and its driver state: the register bank at a fixed base
/// address, the bytes the wire has delivered but software has not read, and
/// the bytes the transmitter has accepted, in order.
#[derive(Clone, Debug)]
pub struct UartDriver {
    /// Physical base address of the register bank.
    pub base_address: usize,
    /// Interrupt enable register.
    pub ier: u8,
    /// FIFO control register.
    pub fcr: u8,
    /// Line control register; bit 7 is the divisor latch.
    pub lcr: u8,
    /// Low byte of the baud divisor, reachable only in divisor-latch mode.
    pub divisor_low: u8,
    /// High byte of the baud divisor, reachable only in divisor-latch mode.
    pub divisor_high: u8,
    /// Bytes delivered by the wire and not yet read, oldest first.
    pub rx_fifo: Vec<u8>,
    /// Whether the transmit holding register can accept a byte.
    pub tx_ready: bool,
    /// Every byte the transmitter has accepted, oldest first.
    pub tx_log: Vec<u8>,
}

impl UartDriver {
    /// Is the divisor latch open, so that offsets 0 and 1 carry divisor
    /// bytes instead of their normal meanings?
    pub open spec fn dlab(self) -> bool {
        self.lcr & LCR_BAUD_LATCH != 0
    }

    /// The value a read of the line status register returns.
    pub open spec fn spec_lsr(self) -> u8 {
        if self.rx_fifo@.len() > 0 && self.tx_ready {
            LSR_RX_READY | LSR_TX_IDLE
        } else if self.rx_fifo@.len() > 0 {
            LSR_RX_READY
        } else if self.tx_ready {
            LSR_TX_IDLE
        } else {
            0
        }
    }

    /// The value a read of register `index` returns, divisor-latch aliasing
    /// included. Offsets 4, 6 and 7 are unused by this driver and read as
    /// zero, as does an empty receive FIFO.
    pub open spec fn read_value(self, index: u8) -> u8 {
        if index == 0 {
            if self.dlab() {
                self.divisor_low
            } else if self.rx_fifo@.len() > 0 {
                self.rx_fifo@[0]
            } else {
                0
            }
        } else if index == 1 {
            if self.dlab() {
                self.divisor_high
            } else {
                self.ier
            }
        } else if index == 2 {
            self.fcr
        } else if index == 3 {
            self.lcr
        } else if index == 5 {
            self.spec_lsr()
        } else {
            0
        }
    }

    /// The base address, control latches and line state of `self` and
    /// `other` agree; only the FIFO contents may differ.
    pub open spec fn cfg_eq(self, other: Self) -> bool {
        self.base_address == other.base_address && self.ier == other.ier && self.fcr
            == other.fcr && self.lcr == other.lcr && self.divisor_low == other.divisor_low
            && self.divisor_high == other.divisor_high && self.tx_ready == other.tx_ready
    }

    /// A driver handle over the register bank at `base_address`, with the
    /// bank cleared, no input pending, nothing transmitted, and the
    /// transmitter idle.
    pub fn new(base_address: usize) -> (uart: Self)
        ensures
            uart.base_address == base_address,
            uart.ier == 0,
            uart.fcr == 0,
            uart.lcr == 0,
            uart.divisor_low == 0,
            uart.divisor_high == 0,
            uart.rx_fifo@ == Seq::<u8>::empty(),
            uart.tx_ready,
            uart.tx_log@ == Seq::<u8>::empty(),
            !uart.dlab(),
    {
        let uart = UartDriver {
            base_address,
            ier: 0,
            fcr: 0,
            lcr: 0,
            divisor_low: 0,
            divisor_high: 0,
            rx_fifo: Vec::new(),
            tx_ready: true,
            tx_log: Vec::new(),
        };
        proof {
            assert(0u8 & LCR_BAUD_LATCH == 0) by (bit_vector);
        }
        uart
    }

    /// Read register `index`, checking that the index is inside the 8-slot
    /// bank; an index outside it is the fatal configuration error. Reading
    /// the receive holding register consumes the pending byte; no other
    /// read changes the device.
    pub fn read_reg(&mut self, index: u8) -> (r: Result<u8, RegIndexFault>)
        ensures
            r is Ok <==> index <= 7,
            index > 7 ==> *final(self) == *old(self) && (r->Err_0 == RegIndexFault { index }),
            index <= 7 ==> (r->Ok_0 == old(self).read_value(index)
                && final(self).cfg_eq(*old(self))
                && final(self).tx_log@ == old(self).tx_log@
                && final(self).rx_fifo@ == (
            if index == 0 && !old(self).dlab() && old(self).rx_fifo@.len() > 0 {
                old(self).rx_fifo@.drop_first()
            } else {
                old(self).rx_fifo@
            })),
    {
        if index > 7 {
            return Err(RegIndexFault { index });
        }
        let dlab = self.lcr & LCR_BAUD_LATCH != 0;
        if index == 0 {
            if dlab {
                Ok(self.divisor_low)
            } else if self.rx_fifo.len() > 0 {
                let b = self.rx_fifo.remove(0);
                proof {
                    assert(self.rx_fifo@ =~= old(self).rx_fifo@.drop_first());
                }
                Ok(b)
            } else {
                Ok(0)
            }
        } else if index == 1 {
            if dlab {
                Ok(self.divisor_high)
            } else {
                Ok(self.ier)
            }
        } else if index == 2 {
            Ok(self.fcr)
        } else if index == 3 {
            Ok(self.lcr)
        } else if index == 5 {
            if self.rx_fifo.len() > 0 && self.tx_ready {
                Ok(LSR_RX_READY | LSR_TX_IDLE)
            } else if self.rx_fifo.len() > 0 {
                Ok(LSR_RX_READY)
            } else if self.tx_ready {
                Ok(LSR_TX_IDLE)
            } else {
                Ok(0)
            }
        } else {
            Ok(0)
        }
    }

    /// Write `value` to register `index`, checking that the index is inside
    /// the 8-slot bank; an index outside it is the fatal configuration
    /// error. With the divisor latch open, offsets 0 and 1 load the divisor
    /// bytes; otherwise offset 0 hands the byte to the transmitter, which
    /// accepts it only while idle — a byte written while it is busy is lost.
    /// The line status register is read-only, and offsets 4, 6 and 7 are
    /// not modelled; writes there change nothing.
    pub fn write_reg(&mut self, index: u8, value: u8) -> (r: Result<(), RegIndexFault>)
        ensures
            r is Ok <==> index <= 7,
            index > 7 ==> *final(self) == *old(self) && (r->Err_0 == RegIndexFault { index }),
            index <= 7 ==> (final(self).base_address == old(self).base_address
                && final(self).tx_ready == old(self).tx_ready
                && final(self).rx_fifo@ == old(self).rx_fifo@
                && final(self).tx_log@ == old(self).tx_log@ + (
            if index == 0 && !old(self).dlab() && old(self).tx_ready {
                seq![value]
            } else {
                Seq::<u8>::empty()
            }) && final(self).ier == (
            if index == 1 && !old(self).dlab() {
                value
            } else {
                old(self).ier
            }) && final(self).fcr == (
            if index == 2 {
                value
            } else {
                old(self).fcr
            }) && final(self).lcr == (
            if index == 3 {
                value
            } else {
                old(self).lcr
            }) && final(self).divisor_low == (
            if index == 0 && old(self).dlab() {
                value
            } else {
                old(self).divisor_low
            }) && final(self).divisor_high == (
            if index == 1 && old(self).dlab() {
                value
            } else {
                old(self).divisor_high
            })),
    {
        if index > 7 {
            return Err(RegIndexFault { index });
        }
        let dlab = self.lcr & LCR_BAUD_LATCH != 0;
        if index == 0 {
            if dlab {
                self.divisor_low = value;
            } else if self.tx_ready {
                self.tx_log.push(value);
            }
        } else if index == 1 {
            if dlab {
                self.divisor_high = value;
            } else {
                self.ier = value;
            }
        } else if index == 2 {
            self.fcr = value;
        } else if index == 3 {
            self.lcr = value;
        }
        proof {
            if !(index == 0 && !old(self).dlab() && old(self).tx_ready) {
                assert(self.tx_log@ =~= old(self).tx_log@ + Seq::<u8>::empty());
            }
        }
        Ok(())
    }

    /// Initialize the device, in the chip's mandated order: word length,
    /// FIFOs, interrupt sources, then the 16-bit baud divisor through the
    /// divisor latch — open the latch, low byte, high byte, close the
    /// latch. Afterwards the latch is closed whatever the line control
    /// register held before, and nothing has reached the transmitter.
    pub fn init(&mut self)
        ensures
            final(self).lcr == LCR_WORD_LEN_5,
            !final(self).dlab(),
            final(self).fcr == FCR_FIFO_ENABLE,
            final(self).ier == IER_TX_ENABLE | IER_RX_ENABLE,
            final(self).divisor_low == 0x50,
            final(self).divisor_high == 0x02,
            final(self).base_address == old(self).base_address,
            final(self).tx_ready == old(self).tx_ready,
            final(self).rx_fifo@ == old(self).rx_fifo@,
            final(self).tx_log@ == old(self).tx_log@,
    {
        // Set the word length for LCR.
        let _ = self.write_reg(LCR, LCR_WORD_LEN_5);

        // Enable the FIFO.
        let _ = self.write_reg(FCR, FCR_FIFO_ENABLE);

        // Enable receiver-ready and transmitter-empty interrupt sources.
        let _ = self.write_reg(IER, IER_TX_ENABLE | IER_RX_ENABLE);

        // The divisor takes a global clock rate of 22.729 MHz down to a
        // signaling rate of 2400 baud, per the chip's formula
        // divisor = ceil(clock_hz / (baud_sps * 16)) = ceil(22_729_000 / 38_400) = 592.
        let divisor: u16 = 592;
        let divisor_least: u8 = (divisor & 0xff) as u8;
        let divisor_most: u8 = (divisor >> 8) as u8;
        proof {
            assert((592u16 & 0xff) as u8 == 0x50u8 && (592u16 >> 8) as u8 == 0x02u8)
                by (bit_vector);
        }

        // Open the divisor latch (DLAB: divisor latch access bit).
        let lcr_now = self.read_reg(LCR).unwrap();
        let _ = self.write_reg(LCR, lcr_now | LCR_BAUD_LATCH);
        proof {
            assert((LCR_WORD_LEN_5 | LCR_BAUD_LATCH) & LCR_BAUD_LATCH != 0) by (bit_vector);
        }

        // With the latch open, offset 0 is the low and offset 1 the high
        // byte of the divisor.
        let _ = self.write_reg(THR, divisor_least);
        let _ = self.write_reg(IER, divisor_most);

        // Close the latch, restoring normal register semantics.
        let lcr_now = self.read_reg(LCR).unwrap();
        let _ = self.write_reg(LCR, lcr_now & !LCR_BAUD_LATCH);
        proof {
            assert(((LCR_WORD_LEN_5 | LCR_BAUD_LATCH) & !LCR_BAUD_LATCH) == LCR_WORD_LEN_5
                && LCR_WORD_LEN_5 & LCR_BAUD_LATCH == 0) by (bit_vector);
        }
    }

    /// If the receiver is ready (per the line status register), take the
    /// pending byte; otherwise report that no data is waiting. Never
    /// blocks.
    pub fn uart_getc(&mut self) -> (r: Option<u8>)
        requires
            !old(self).dlab(),
        ensures
            final(self).cfg_eq(*old(self)),
            final(self).tx_log@ == old(self).tx_log@,
            old(self).rx_fifo@.len() == 0 ==> r is None
                && final(self).rx_fifo@ == old(self).rx_fifo@,
            old(self).rx_fifo@.len() > 0 ==> r == Some(old(self).rx_fifo@[0])
                && final(self).rx_fifo@ == old(self).rx_fifo@.drop_first(),
    {
        proof {
            assert((LSR_RX_READY | LSR_TX_IDLE) & LSR_RX_READY != 0 && LSR_RX_READY & LSR_RX_READY
                != 0 && LSR_TX_IDLE & LSR_RX_READY == 0 && 0u8 & LSR_RX_READY == 0)
                by (bit_vector);
        }
        let lsr = self.read_reg(LSR).unwrap();
        if lsr & LSR_RX_READY == 0 {
            None
        } else {
            Some(self.read_reg(RHR).unwrap())
        }
    }

    /// If the transmitter is idle (per the line status register), hand it
    /// the byte; if not, the byte is silently dropped — no retry and no
    /// software queue. This is the accepted data-loss path under transmit
    /// pressure.
    pub fn uart_putc(&mut self, c: u8)
        requires
            !old(self).dlab(),
        ensures
            final(self).cfg_eq(*old(self)),
            final(self).rx_fifo@ == old(self).rx_fifo@,
            final(self).tx_log@ == old(self).tx_log@ + (
            if old(self).tx_ready {
                seq![c]
            } else {
                Seq::<u8>::empty()
            }),
    {
        proof {
            assert((LSR_RX_READY | LSR_TX_IDLE) & LSR_TX_IDLE != 0 && LSR_TX_IDLE & LSR_TX_IDLE
                != 0 && LSR_RX_READY & LSR_TX_IDLE == 0 && 0u8 & LSR_TX_IDLE == 0)
                by (bit_vector);
        }
        let lsr = self.read_reg(LSR).unwrap();
        if lsr & LSR_TX_IDLE == 0 {
            proof {
                assert(self.tx_log@ =~= old(self).tx_log@ + Seq::<u8>::empty());
            }
        } else {
            let _ = self.write_reg(THR, c);
        }
    }

    /// Hand a run of bytes to the transmitter, one at a time. While the
    /// transmitter is idle they all go out in order; while it is busy they
    /// are all dropped.
    pub fn put_bytes(&mut self, bytes: &[u8])
        requires
            !old(self).dlab(),
        ensures
            final(self).cfg_eq(*old(self)),
            final(self).rx_fifo@ == old(self).rx_fifo@,
            final(self).tx_log@ == old(self).tx_log@ + (
            if old(self).tx_ready {
                bytes@
            } else {
                Seq::<u8>::empty()
            }),
    {
        let n = bytes.len();
        let mut i: usize = 0;
        while i < n
            invariant
                i <= n,
                n == bytes@.len(),
                !self.dlab(),
                self.cfg_eq(*old(self)),
                self.rx_fifo@ == old(self).rx_fifo@,
                self.tx_log@ == old(self).tx_log@ + (
                if old(self).tx_ready {
                    bytes@.take(i as int)
                } else {
                    Seq::<u8>::empty()
                }),
            decreases n - i,
        {
            self.uart_putc(bytes[i]);
            i = i + 1;
            proof {
                if old(self).tx_ready {
                    assert(self.tx_log@ =~= old(self).tx_log@ + bytes@.take(i as int));
                }
            }
        }
        proof {
            assert(bytes@.take(n as int) =~= bytes@);
        }
    }
}

} // verus!

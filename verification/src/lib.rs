//! Model of the earliest bring-up layer of a bare-metal RISC-V kernel:
//! the privileged-register access layer, the machine-to-supervisor
//! privilege transition, a 16550A-style memory-mapped UART driver, the
//! interactive console byte-stream state machine, and the panic/halt path.
//!
//! The hardware a real kernel would touch through privileged instructions
//! and volatile loads and stores is held here as plain data: a [`riscv::Hart`]
//! carries the control/status registers of one hart, and a
//! [`uart::UartDriver`] carries the register bank, receive FIFO and transmit
//! history of one serial device. Every routine of the boot path is written
//! against those models and verified: what it writes into which register,
//! which bytes leave the transmitter, and when the hart halts.

use vstd::prelude::*;

pub mod boot;
pub mod console;
pub mod halt;
pub mod memlayout;
pub mod riscv;
pub mod text;
pub mod uart;
pub mod vm;

verus! {

} // verus!

//! The terminal error path: emit a diagnostic and halt the hart forever.
//!
//! Any unrecoverable condition — a contract violation, the UART bounds
//! fault — lands here. The handler formats one banner, pushes it through
//! the UART transmit path directly (never back through the console state
//! machine), and parks the hart in a permanent low-power wait. Nothing
//! above it exists to retry or recover.

use vstd::prelude::*;

use crate::riscv::Hart;
use crate::text::{append_bytes, dec_digits, push_dec, push_str, str_bytes};
use crate::uart::UartDriver;

verus! {

/// What is known about the condition being aborted on: a source location
/// and message when available, or nothing.
#[derive(Clone, Debug)]
pub enum AbortInfo {
    /// The condition's source location and message.
    Located {
        /// Source line.
        line: u64,
        /// Source file path, as bytes.
        file: Vec<u8>,
        /// The diagnostic message, as bytes.
        message: Vec<u8>,
    },
    /// No location metadata is available.
    Unknown,
}

/// The banner the abort path emits: the location and message when known,
/// and a fixed degraded line otherwise.
pub open spec fn abort_banner(info: AbortInfo) -> Seq<u8> {
    match info {
        AbortInfo::Located { line, file, message } => str_bytes("Aborting: ") + str_bytes("line ")
            + dec_digits(line as nat) + str_bytes(", file ") + file@ + str_bytes(": ") + message@
            + str_bytes("\r\n"),
        AbortInfo::Unknown => str_bytes("Aborting: ") + str_bytes(
            "no information available.\r\n",
        ),
    }
}

/// Format the abort banner.
pub fn abort_message(info: &AbortInfo) -> (msg: Vec<u8>)
    ensures
        msg@ == abort_banner(*info),
{
    let mut msg: Vec<u8> = Vec::new();
    push_str(&mut msg, "Aborting: ");
    match info {
        AbortInfo::Located { line, file, message } => {
            push_str(&mut msg, "line ");
            push_dec(&mut msg, *line);
            push_str(&mut msg, ", file ");
            append_bytes(&mut msg, file.as_slice());
            push_str(&mut msg, ": ");
            append_bytes(&mut msg, message.as_slice());
            push_str(&mut msg, "\r\n");
        },
        AbortInfo::Unknown => {
            push_str(&mut msg, "no information available.\r\n");
        },
    }
    assert(msg@ =~= abort_banner(*info));
    msg
}

/// Halt the hart permanently: a low-power wait instruction inside an
/// infinite loop. The hart executes nothing further, ever.
pub fn abort(h: &mut Hart)
    ensures
        *final(h) == (Hart { halted: true, ..*old(h) }),
{
    h.halted = true;
}

/// The panic handler: format the diagnostic, transmit it synchronously
/// through the UART driver, and halt the hart. Does not allocate beyond
/// the banner, does not re-enter the console state machine, and the hart
/// never runs again. Under transmit pressure the banner is lost with the
/// hart still halted — the accepted data-loss path.
pub fn kpanic(uart: &mut UartDriver, h: &mut Hart, info: &AbortInfo)
    requires
        !old(uart).dlab(),
    ensures
        *final(h) == (Hart { halted: true, ..*old(h) }),
        final(uart).cfg_eq(*old(uart)),
        final(uart).rx_fifo@ == old(uart).rx_fifo@,
        final(uart).tx_log@ == old(uart).tx_log@ + (
        if old(uart).tx_ready {
            abort_banner(*info)
        } else {
            Seq::<u8>::empty()
        }),
{
    let msg = abort_message(info);
    uart.put_bytes(msg.as_slice());
    abort(h);
}

} // verus!

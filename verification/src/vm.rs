//! Virtual-memory scaffolding. No paging subsystem exists yet — the boot
//! path writes zero to the address-translation register — so all that
//! lives here is the report of the physical RAM range the kernel will
//! manage once it does.

use vstd::prelude::*;

use crate::memlayout::{KERNBASE, PHYSTOP};
use crate::text::{hex_digits, push_hex, push_str, str_bytes};
use crate::uart::UartDriver;

verus! {

/// What the memory-range report says: the base and the end of kernel RAM,
/// in hexadecimal.
pub open spec fn testing_text() -> Seq<u8> {
    str_bytes("Kernel base: 0x") + hex_digits(KERNBASE as nat) + str_bytes("\r\n") + str_bytes(
        "End of vm: 0x",
    ) + hex_digits(PHYSTOP as nat) + str_bytes("\r\n")
}

/// Report the physical RAM range over the UART.
pub fn testing(uart: &mut UartDriver)
    requires
        !old(uart).dlab(),
    ensures
        final(uart).cfg_eq(*old(uart)),
        final(uart).rx_fifo@ == old(uart).rx_fifo@,
        final(uart).tx_log@ == old(uart).tx_log@ + (
        if old(uart).tx_ready {
            testing_text()
        } else {
            Seq::<u8>::empty()
        }),
{
    let mut line: Vec<u8> = Vec::new();
    push_str(&mut line, "Kernel base: 0x");
    push_hex(&mut line, KERNBASE);
    push_str(&mut line, "\r\n");
    push_str(&mut line, "End of vm: 0x");
    push_hex(&mut line, PHYSTOP);
    push_str(&mut line, "\r\n");
    proof {
        assert(line@ =~= testing_text());
    }
    uart.put_bytes(line.as_slice());
}

} // verus!

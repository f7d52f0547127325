//! The boot path: the one-shot privilege transition from machine mode to
//! supervisor mode, and the kernel initialization it lands in.
//!
//! `start` runs once, in machine mode, immediately after the assembly
//! trampoline has set up a stack: it stages supervisor mode and the kernel
//! entry in the status and exception-program-counter registers, disables
//! paging, opens physical memory to supervisor mode, caches the hart id in
//! the thread pointer, and issues the trap return. `kinit` then brings up
//! the UART and drives the interactive console session.

use vstd::prelude::*;

use crate::console::{console_run, console_session, prompt_text, ConsoleState};
use crate::riscv::{
    mret, r_mhartid, r_mstatus, r_sp, staged_mode, w_mepc, w_mstatus, w_mtvec, w_pmpaddr0,
    w_pmpcfg0, w_satp, w_tp, Hart, Mode, MSTATUS_MPP_MASK, MSTATUS_MPP_S,
};
use crate::text::{dec_digits, push_dec, push_str, str_bytes};
use crate::uart::{UartDriver, LCR_WORD_LEN_5};

verus! {

/// Stage the machine-mode trap vector. Timer interrupts themselves are
/// deliberately left unconfigured at this stage: the vector is installed,
/// no interrupt source is enabled, and operation stays purely polling.
pub fn timerinit(h: &mut Hart, trap_vector: u64)
    ensures
        *final(h) == (Hart { mtvec: trap_vector, ..*old(h) }),
{
    // Set the machine-mode trap handler.
    w_mtvec(h, trap_vector);
}

/// The privilege transition: from machine mode, stage supervisor mode and
/// the kernel entry, then issue the trap return. Every step is required
/// and the order is load-bearing. Afterwards the previous-privilege field
/// of the status register holds the supervisor encoding — never machine,
/// never user — whatever the register held before, and the hart is running
/// the staged entry in supervisor mode.
///
/// Interrupt delegation to supervisor mode and timer-interrupt enablement
/// are deliberately left unconfigured.
pub fn start(h: &mut Hart, main_entry: u64, trap_vector: u64)
    ensures
        final(h).mstatus == (old(h).mstatus & !MSTATUS_MPP_MASK) | MSTATUS_MPP_S,
        final(h).mstatus & MSTATUS_MPP_MASK == MSTATUS_MPP_S,
        final(h).mode == Mode::Supervisor,
        final(h).pc == main_entry,
        final(h).mepc == main_entry,
        final(h).satp == 0,
        final(h).pmpaddr0 == 0x3fffffffffffff,
        final(h).pmpcfg0 == 0xf,
        final(h).mtvec == trap_vector,
        final(h).tp == old(h).mhartid,
        final(h).halted == old(h).halted,
        final(h).mhartid == old(h).mhartid,
        final(h).sstatus == old(h).sstatus,
        final(h).sip == old(h).sip,
        final(h).sie == old(h).sie,
        final(h).mie == old(h).mie,
        final(h).sepc == old(h).sepc,
        final(h).medeleg == old(h).medeleg,
        final(h).mideleg == old(h).mideleg,
        final(h).stvec == old(h).stvec,
        final(h).mscratch == old(h).mscratch,
        final(h).scause == old(h).scause,
        final(h).stval == old(h).stval,
        final(h).mcounteren == old(h).mcounteren,
        final(h).time == old(h).time,
        final(h).sp == old(h).sp,
        final(h).ra == old(h).ra,
{
    // Set M Previous Privilege mode to Supervisor, for mret.
    let mut x: u64 = r_mstatus(h);
    x = x & !MSTATUS_MPP_MASK;
    x = x | MSTATUS_MPP_S;
    w_mstatus(h, x);

    // Set M Exception Program Counter to the kernel entry, for mret.
    w_mepc(h, main_entry);

    // Disable paging for now.
    w_satp(h, 0);

    // Configure Physical Memory Protection to give supervisor mode access
    // to all of physical memory.
    w_pmpaddr0(h, 0x3fffffffffffff);
    w_pmpcfg0(h, 0xf);

    // Ask for clock interrupts.
    timerinit(h, trap_vector);

    // Keep each CPU's hartid in its tp register, for cpuid().
    let id: u64 = r_mhartid(h);
    w_tp(h, id);

    proof {
        let m = old(h).mstatus;
        assert(((m & !MSTATUS_MPP_MASK) | MSTATUS_MPP_S) & MSTATUS_MPP_MASK == MSTATUS_MPP_S
            && MSTATUS_MPP_S != 2u64 << 11 && MSTATUS_MPP_S != 3u64 << 11) by (bit_vector);
        assert(staged_mode(h.mstatus) == Mode::Supervisor);
    }
    // Switch to supervisor mode and jump to the staged entry.
    mret(h);
}

/// Everything kernel initialization says before the console session:
/// the transmission test lines, the hart id, the stack pointer, and the
/// first prompt.
pub open spec fn boot_banner(hart_id: u64, sp: u64) -> Seq<u8> {
    str_bytes("Testing IO\r\n") + str_bytes("There is nothing quite like compiler hell!\r\n")
        + str_bytes("mhartid: ") + dec_digits(hart_id as nat) + str_bytes("\r\n") + str_bytes(
        "sp: ",
    ) + dec_digits(sp as nat) + str_bytes("\r\n") + prompt_text()
}

/// Kernel initialization: bring up the UART, emit the boot banner and the
/// prompt, then drive the console session over whatever input the wire has
/// delivered. Returns the session's final parse state and whether Ctrl-C
/// ended it.
pub fn kinit(hart: &Hart, uart: &mut UartDriver) -> (r: (ConsoleState, bool))
    ensures
        ({
            let run = console_run(ConsoleState::Normal, old(uart).rx_fifo@);
            final(uart).lcr == LCR_WORD_LEN_5 && !final(uart).dlab() && final(uart).base_address
                == old(uart).base_address && final(uart).tx_ready == old(uart).tx_ready
                && final(uart).rx_fifo@ == run.remaining
                && final(uart).tx_log@ == old(uart).tx_log@ + (
            if old(uart).tx_ready {
                boot_banner(hart.mhartid, hart.sp) + run.output
            } else {
                Seq::<u8>::empty()
            }) && r.0 == run.state && r.1 == run.exited
        }),
{
    uart.init();

    let mut line: Vec<u8> = Vec::new();
    push_str(&mut line, "Testing IO\r\n");
    push_str(&mut line, "There is nothing quite like compiler hell!\r\n");
    push_str(&mut line, "mhartid: ");
    push_dec(&mut line, r_mhartid(hart));
    push_str(&mut line, "\r\n");
    push_str(&mut line, "sp: ");
    push_dec(&mut line, r_sp(hart));
    push_str(&mut line, "\r\n");
    // Test: transmission.
    push_str(&mut line, "~ ");
    proof {
        assert(line@ =~= boot_banner(hart.mhartid, hart.sp));
    }
    uart.put_bytes(line.as_slice());

    let r = console_session(uart);
    proof {
        let run = console_run(ConsoleState::Normal, old(uart).rx_fifo@);
        if old(uart).tx_ready {
            assert(uart.tx_log@ =~= old(uart).tx_log@ + (boot_banner(hart.mhartid, hart.sp)
                + run.output));
        } else {
            assert(uart.tx_log@ =~= old(uart).tx_log@ + Seq::<u8>::empty());
        }
    }
    r
}

} // verus!

use minux::boot::{kinit, start, timerinit};
use minux::console::ConsoleState;
use minux::memlayout::UART0;
use minux::riscv::{
    intr_get, intr_off, intr_on, mret, r_mstatus, w_mstatus, Hart, Mode, MSTATUS_MPP_MASK,
    MSTATUS_MPP_M, MSTATUS_MPP_S,
};
use minux::uart::UartDriver;

#[test]
fn start_stages_supervisor_from_machine_previous_privilege() {
    let mut hart = Hart::new(0);
    w_mstatus(&mut hart, MSTATUS_MPP_M);
    start(&mut hart, 0x8000_0000, 0x8000_4000);
    assert_eq!(r_mstatus(&hart) & MSTATUS_MPP_MASK, MSTATUS_MPP_S);
}

#[test]
fn start_stages_supervisor_from_any_status_value() {
    let mut hart = Hart::new(0);
    w_mstatus(&mut hart, 0xFFFF_FFFF_FFFF_FFFF);
    start(&mut hart, 0x8000_0000, 0x8000_4000);
    assert_eq!(r_mstatus(&hart) & MSTATUS_MPP_MASK, MSTATUS_MPP_S);

    let mut hart = Hart::new(0);
    w_mstatus(&mut hart, 0);
    start(&mut hart, 0x8000_0000, 0x8000_4000);
    assert_eq!(r_mstatus(&hart) & MSTATUS_MPP_MASK, MSTATUS_MPP_S);
}

#[test]
fn start_runs_the_whole_protocol_and_lands_in_supervisor_mode() {
    let mut hart = Hart::new(3);
    hart.sstatus = 77;
    start(&mut hart, 0x8000_0000, 0x8000_4000);
    // The trap return applied the staged privilege and program counter.
    assert_eq!(hart.mode, Mode::Supervisor);
    assert_eq!(hart.pc, 0x8000_0000);
    assert_eq!(hart.mepc, 0x8000_0000);
    // Paging off, all of physical memory open to supervisor mode.
    assert_eq!(hart.satp, 0);
    assert_eq!(hart.pmpaddr0, 0x3fffffffffffff);
    assert_eq!(hart.pmpcfg0, 0xf);
    // Trap vector staged, hart id cached in the thread pointer.
    assert_eq!(hart.mtvec, 0x8000_4000);
    assert_eq!(hart.tp, 3);
    // Untouched registers stay.
    assert_eq!(hart.sstatus, 77);
    assert!(!hart.halted);
}

#[test]
fn mret_applies_staged_privilege_and_counter() {
    let mut hart = Hart::new(0);
    hart.mstatus = MSTATUS_MPP_M;
    hart.mepc = 42;
    mret(&mut hart);
    assert_eq!(hart.mode, Mode::Machine);
    assert_eq!(hart.pc, 42);

    let mut hart = Hart::new(0);
    hart.mstatus = MSTATUS_MPP_S;
    hart.mepc = 7;
    mret(&mut hart);
    assert_eq!(hart.mode, Mode::Supervisor);

    let mut hart = Hart::new(0);
    hart.mstatus = 0;
    mret(&mut hart);
    assert_eq!(hart.mode, Mode::User);
}

#[test]
fn timerinit_stages_only_the_trap_vector() {
    let mut hart = Hart::new(1);
    timerinit(&mut hart, 0x1234);
    assert_eq!(hart.mtvec, 0x1234);
    assert_eq!(hart.mie, 0);
    assert_eq!(hart.mstatus, 0);
}

#[test]
fn interrupt_toggle_round_trip() {
    let mut hart = Hart::new(0);
    assert!(!intr_get(&hart));
    intr_on(&mut hart);
    assert!(intr_get(&hart));
    intr_on(&mut hart);
    assert!(intr_get(&hart));
    intr_off(&mut hart);
    assert!(!intr_get(&hart));
}

#[test]
fn kinit_banner_prompt_and_session() {
    let hart = Hart::new(0);
    let mut uart = UartDriver::new(UART0 as usize);
    uart.rx_fifo = vec![0x03];
    let (state, exited) = kinit(&hart, &mut uart);
    let expected: Vec<u8> = b"Testing IO\r\n\
There is nothing quite like compiler hell!\r\n\
mhartid: 0\r\n\
sp: 0\r\n\
~ \r\n^C: minux exiting\r\n"
        .to_vec();
    assert_eq!(uart.tx_log, expected);
    assert_eq!(state, ConsoleState::Normal);
    assert!(exited);
}

#[test]
fn kinit_reports_hart_id_and_stack_pointer() {
    let mut hart = Hart::new(3);
    hart.sp = 123456789;
    let mut uart = UartDriver::new(UART0 as usize);
    let (_, exited) = kinit(&hart, &mut uart);
    let expected: Vec<u8> = b"Testing IO\r\n\
There is nothing quite like compiler hell!\r\n\
mhartid: 3\r\n\
sp: 123456789\r\n\
~ "
        .to_vec();
    assert_eq!(uart.tx_log, expected);
    assert!(!exited);
    // Initialization left the divisor latch closed.
    assert_eq!(uart.lcr & 0x80, 0);
}

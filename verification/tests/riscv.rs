use minux::memlayout::{KERNBASE, PHYSTOP, UART0};
use minux::riscv::{
    make_satp, pa2pte, pgrounddown, pgroundup, pte2pa, pte_flags, px, r_satp, r_sepc, r_stvec,
    sfence_vma, w_satp, w_sepc, w_stvec, Hart, SATP_SV39,
};
use minux::text::{push_dec, push_hex};
use minux::uart::UartDriver;
use minux::vm::testing;

#[test]
fn csr_write_then_read_round_trip() {
    let mut hart = Hart::new(0);
    w_satp(&mut hart, 0xABCD);
    assert_eq!(r_satp(&hart), 0xABCD);
    w_sepc(&mut hart, 0x8000_1000);
    assert_eq!(r_sepc(&hart), 0x8000_1000);
    w_stvec(&mut hart, 0x8000_2000);
    assert_eq!(r_stvec(&hart), 0x8000_2000);
    // Each write replaced only its own register.
    assert_eq!(r_satp(&hart), 0xABCD);
}

#[test]
fn tlb_flush_touches_no_register() {
    let mut hart = Hart::new(5);
    w_satp(&mut hart, 42);
    let before = hart;
    sfence_vma(&mut hart);
    assert_eq!(hart, before);
}

#[test]
fn satp_composition_selects_sv39_over_frame_number() {
    assert_eq!(make_satp(0), SATP_SV39);
    assert_eq!(make_satp(0x8020_0000), SATP_SV39 | 0x8_0200);
    assert_eq!(SATP_SV39, 8u64 << 60);
}

#[test]
fn page_rounding() {
    assert_eq!(pgroundup(0), 0);
    assert_eq!(pgroundup(1), 4096);
    assert_eq!(pgroundup(4096), 4096);
    assert_eq!(pgroundup(4097), 8192);
    assert_eq!(pgrounddown(0), 0);
    assert_eq!(pgrounddown(4095), 0);
    assert_eq!(pgrounddown(4096), 4096);
    assert_eq!(pgrounddown(8191), 4096);
}

#[test]
fn page_table_entry_round_trip() {
    let pa: u64 = 0x8020_3000;
    let pte = pa2pte(pa) | 0xF;
    assert_eq!(pte2pa(pte), pa);
    assert_eq!(pte_flags(pte), 0xF);
    assert_eq!(pa2pte(0x8000_0000), (0x8000_0000u64 >> 12) << 10);
}

#[test]
fn virtual_address_indices() {
    // Sv39 splits bits 12.., 9 at a time.
    let va: u64 = (1 << 30) | (2 << 21) | (3 << 12) | 0x123;
    assert_eq!(px(2, va), 1);
    assert_eq!(px(1, va), 2);
    assert_eq!(px(0, va), 3);
}

#[test]
fn decimal_and_hex_rendering() {
    let mut out: Vec<u8> = Vec::new();
    push_dec(&mut out, 0);
    assert_eq!(out, b"0".to_vec());
    out.clear();
    push_dec(&mut out, 1234567890);
    assert_eq!(out, b"1234567890".to_vec());
    out.clear();
    push_hex(&mut out, 0);
    assert_eq!(out, b"0".to_vec());
    out.clear();
    push_hex(&mut out, 0xDEADBEEF);
    assert_eq!(out, b"deadbeef".to_vec());
}

#[test]
fn rendering_extremes() {
    let mut out: Vec<u8> = Vec::new();
    push_dec(&mut out, u64::MAX);
    assert_eq!(out, b"18446744073709551615".to_vec());
    out.clear();
    push_hex(&mut out, u64::MAX);
    assert_eq!(out, b"ffffffffffffffff".to_vec());
}

#[test]
fn page_rounding_near_the_top_of_memory() {
    let aligned = u64::MAX - 4095;
    assert_eq!(pgroundup(aligned), aligned);
    assert_eq!(pgrounddown(u64::MAX), aligned);
}

#[test]
fn memory_range_report() {
    let mut uart = UartDriver::new(UART0 as usize);
    testing(&mut uart);
    assert_eq!(
        uart.tx_log,
        b"Kernel base: 0x80000000\r\nEnd of vm: 0x88000000\r\n".to_vec()
    );
    assert_eq!(KERNBASE, 0x8000_0000);
    assert_eq!(PHYSTOP, 0x8800_0000);
}

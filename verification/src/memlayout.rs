//! The physical memory layout of the target virtual machine.
//!
//! The machine is laid out like QEMU's RISC-V `virt` board:
//! boot ROM at 0x1000, core-local interruptor at 0x2000000, platform-level
//! interrupt controller at 0xC000000, UART at 0x10000000, virtio disk at
//! 0x10001000, and RAM from 0x80000000, where the boot ROM jumps in machine
//! mode and the kernel is loaded.

use vstd::prelude::*;

verus! {

/// The UART register bank.
pub const UART0: u64 = 0x10000000;

/// Interrupt request line of the UART.
pub const UART0_IRQ: usize = 10;

/// The virtio memory-mapped interface.
pub const VIRTIO0: u64 = 0x10001000;

/// Interrupt request line of the virtio disk.
pub const VIRTIO0_IRQ: usize = 1;

/// The core-local interruptor (CLINT), which contains the timer.
pub const CLINT: u64 = 0x2000000;

/// Cycles since boot, kept by the CLINT.
pub const CLINT_MTIME: u64 = CLINT + 0xBFF8;

/// The platform-level interrupt controller (PLIC).
pub const PLIC: u64 = 0xc000000;

/// PLIC priority registers.
pub const PLIC_PRIORITY: u64 = PLIC + 0x0;

/// PLIC pending registers.
pub const PLIC_PENDING: u64 = PLIC + 0x1000;

/// Where RAM begins: kernel text and data are loaded here.
pub const KERNBASE: u64 = 0x80000000;

/// Where the RAM the kernel may use ends.
pub const PHYSTOP: u64 = KERNBASE + 128 * 1024 * 1024;

} // verus!

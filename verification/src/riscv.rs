//! The control/status-register access layer, modelled on one hart.
//!
//! A real kernel reaches these registers through dedicated `csrr`/`csrw`
//! instructions; here the whole register file of a single hart is a plain
//! struct, and every accessor performs exactly one read or one write of the
//! full register width, as the hardware instruction would. A write replaces
//! the entire register and leaves every other register as it was; composing
//! a new value is the caller's read-modify-write.

use vstd::prelude::*;

verus! {

/// RISC-V privilege modes, most trusted last.
#[derive(Clone, Copy, PartialEq, Eq, Structural, Debug)]
pub enum Mode {
    User,
    Supervisor,
    Machine,
}

/// One hardware execution context: its privilege mode, staged program
/// counter, halt flag, and every privileged or general register the boot
/// path touches.
#[derive(Clone, Copy, PartialEq, Eq, Structural, Debug)]
pub struct Hart {
    /// Current privilege mode of the hart.
    pub mode: Mode,
    /// The address the hart is executing at; `mret` retargets it.
    pub pc: u64,
    /// Set once the hart has entered the terminal wait-for-interrupt loop.
    pub halted: bool,
    /// Hardware thread id, fixed at power-on.
    pub mhartid: u64,
    /// Machine status register.
    pub mstatus: u64,
    /// Machine exception program counter: where a trap return jumps.
    pub mepc: u64,
    /// Supervisor status register.
    pub sstatus: u64,
    /// Supervisor interrupt-pending register.
    pub sip: u64,
    /// Supervisor interrupt-enable register.
    pub sie: u64,
    /// Machine interrupt-enable register.
    pub mie: u64,
    /// Supervisor exception program counter.
    pub sepc: u64,
    /// Machine exception-delegation register.
    pub medeleg: u64,
    /// Machine interrupt-delegation register.
    pub mideleg: u64,
    /// Supervisor trap-vector base address.
    pub stvec: u64,
    /// Machine trap-vector base address.
    pub mtvec: u64,
    /// Physical-memory-protection configuration, region 0.
    pub pmpcfg0: u64,
    /// Physical-memory-protection address, region 0.
    pub pmpaddr0: u64,
    /// Supervisor address-translation and protection register.
    pub satp: u64,
    /// Machine scratch register.
    pub mscratch: u64,
    /// Supervisor trap cause.
    pub scause: u64,
    /// Supervisor trap value.
    pub stval: u64,
    /// Machine counter-enable register.
    pub mcounteren: u64,
    /// Cycles since boot.
    pub time: u64,
    /// Stack pointer.
    pub sp: u64,
    /// Thread pointer; the boot path caches the hart id here.
    pub tp: u64,
    /// Return address register.
    pub ra: u64,
}

impl Hart {
    /// A hart as the boot firmware hands it over: machine mode, not halted,
    /// its id readable, every other register cleared.
    pub fn new(hart_id: u64) -> (h: Hart)
        ensures
            h == (Hart {
                mode: Mode::Machine,
                pc: 0,
                halted: false,
                mhartid: hart_id,
                mstatus: 0,
                mepc: 0,
                sstatus: 0,
                sip: 0,
                sie: 0,
                mie: 0,
                sepc: 0,
                medeleg: 0,
                mideleg: 0,
                stvec: 0,
                mtvec: 0,
                pmpcfg0: 0,
                pmpaddr0: 0,
                satp: 0,
                mscratch: 0,
                scause: 0,
                stval: 0,
                mcounteren: 0,
                time: 0,
                sp: 0,
                tp: 0,
                ra: 0,
            }),
    {
        Hart {
            mode: Mode::Machine,
            pc: 0,
            halted: false,
            mhartid: hart_id,
            mstatus: 0,
            mepc: 0,
            sstatus: 0,
            sip: 0,
            sie: 0,
            mie: 0,
            sepc: 0,
            medeleg: 0,
            mideleg: 0,
            stvec: 0,
            mtvec: 0,
            pmpcfg0: 0,
            pmpaddr0: 0,
            satp: 0,
            mscratch: 0,
            scause: 0,
            stval: 0,
            mcounteren: 0,
            time: 0,
            sp: 0,
            tp: 0,
            ra: 0,
        }
    }
}

/// Which hart (core) is this?
pub fn r_mhartid(h: &Hart) -> (x: u64)
    ensures
        x == h.mhartid,
{
    h.mhartid
}

/// Machine status register, mstatus: mask of the previous-privilege field.
pub const MSTATUS_MPP_MASK: u64 = 3 << 11;
/// Previous-privilege encoding for machine mode.
pub const MSTATUS_MPP_M: u64 = 3 << 11;
/// Previous-privilege encoding for supervisor mode.
pub const MSTATUS_MPP_S: u64 = 1 << 11;
/// Previous-privilege encoding for user mode.
pub const MSTATUS_MPP_U: u64 = 0 << 11;
/// Machine-mode interrupt enable.
pub const MSTATUS_MIE: u64 = 1 << 3;

/// Read the machine status register.
pub fn r_mstatus(h: &Hart) -> (x: u64)
    ensures
        x == h.mstatus,
{
    h.mstatus
}

/// Write the machine status register.
pub fn w_mstatus(h: &mut Hart, x: u64)
    ensures
        *final(h) == (Hart { mstatus: x, ..*old(h) }),
{
    h.mstatus = x;
}

/// Write the machine exception program counter, the address to which a
/// return from exception will go.
pub fn w_mepc(h: &mut Hart, x: u64)
    ensures
        *final(h) == (Hart { mepc: x, ..*old(h) }),
{
    h.mepc = x;
}

/// Supervisor status register, sstatus: previous mode, 1=Supervisor 0=User.
pub const SSTATUS_SPP: u64 = 1 << 8;
/// Supervisor previous interrupt enable.
pub const SSTATUS_SPIE: u64 = 1 << 5;
/// User previous interrupt enable.
pub const SSTATUS_UPIE: u64 = 1 << 4;
/// Supervisor interrupt enable.
pub const SSTATUS_SIE: u64 = 1 << 1;
/// User interrupt enable.
pub const SSTATUS_UIE: u64 = 1 << 0;

/// Read the supervisor status register.
pub fn r_sstatus(h: &Hart) -> (x: u64)
    ensures
        x == h.sstatus,
{
    h.sstatus
}

/// Write the supervisor status register.
pub fn w_sstatus(h: &mut Hart, x: u64)
    ensures
        *final(h) == (Hart { sstatus: x, ..*old(h) }),
{
    h.sstatus = x;
}

/// Enable device interrupts.
pub fn intr_on(h: &mut Hart)
    ensures
        *final(h) == (Hart { sstatus: old(h).sstatus | SSTATUS_SIE, ..*old(h) }),
{
    let s = r_sstatus(h);
    w_sstatus(h, s | SSTATUS_SIE);
}

/// Disable device interrupts.
pub fn intr_off(h: &mut Hart)
    ensures
        *final(h) == (Hart { sstatus: old(h).sstatus & !SSTATUS_SIE, ..*old(h) }),
{
    let s = r_sstatus(h);
    w_sstatus(h, s & !SSTATUS_SIE);
}

/// Are device interrupts enabled?
pub fn intr_get(h: &Hart) -> (on: bool)
    ensures
        on == (h.sstatus & SSTATUS_SIE != 0),
{
    let x: u64 = r_sstatus(h);
    (x & SSTATUS_SIE) != 0
}

/// Read the supervisor interrupt-pending register.
pub fn r_sip(h: &Hart) -> (x: u64)
    ensures
        x == h.sip,
{
    h.sip
}

/// Write the supervisor interrupt-pending register.
pub fn w_sip(h: &mut Hart, x: u64)
    ensures
        *final(h) == (Hart { sip: x, ..*old(h) }),
{
    h.sip = x;
}

/// Supervisor interrupt enable: external.
pub const SIE_SEIE: u64 = 1 << 9;
/// Supervisor interrupt enable: timer.
pub const SIE_STIE: u64 = 1 << 5;
/// Supervisor interrupt enable: software.
pub const SIE_SSIE: u64 = 1 << 1;

/// Read the supervisor interrupt-enable register.
pub fn r_sie(h: &Hart) -> (x: u64)
    ensures
        x == h.sie,
{
    h.sie
}

/// Write the supervisor interrupt-enable register.
pub fn w_sie(h: &mut Hart, x: u64)
    ensures
        *final(h) == (Hart { sie: x, ..*old(h) }),
{
    h.sie = x;
}

/// Machine-mode interrupt enable: external.
pub const MIE_MEIE: u64 = 1 << 11;
/// Machine-mode interrupt enable: timer.
pub const MIE_MTIE: u64 = 1 << 7;
/// Machine-mode interrupt enable: software.
pub const MIE_MSIE: u64 = 1 << 3;

/// Read the machine interrupt-enable register.
pub fn r_mie(h: &Hart) -> (x: u64)
    ensures
        x == h.mie,
{
    h.mie
}

/// Write the machine interrupt-enable register.
pub fn w_mie(h: &mut Hart, x: u64)
    ensures
        *final(h) == (Hart { mie: x, ..*old(h) }),
{
    h.mie = x;
}

/// Read the supervisor exception program counter.
pub fn r_sepc(h: &Hart) -> (x: u64)
    ensures
        x == h.sepc,
{
    h.sepc
}

/// Write the supervisor exception program counter.
pub fn w_sepc(h: &mut Hart, x: u64)
    ensures
        *final(h) == (Hart { sepc: x, ..*old(h) }),
{
    h.sepc = x;
}

/// Read the machine exception-delegation register.
pub fn r_medeleg(h: &Hart) -> (x: u64)
    ensures
        x == h.medeleg,
{
    h.medeleg
}

/// Write the machine exception-delegation register.
pub fn w_medeleg(h: &mut Hart, x: u64)
    ensures
        *final(h) == (Hart { medeleg: x, ..*old(h) }),
{
    h.medeleg = x;
}

/// Read the machine interrupt-delegation register.
pub fn r_mideleg(h: &Hart) -> (x: u64)
    ensures
        x == h.mideleg,
{
    h.mideleg
}

/// Write the machine interrupt-delegation register.
pub fn w_mideleg(h: &mut Hart, x: u64)
    ensures
        *final(h) == (Hart { mideleg: x, ..*old(h) }),
{
    h.mideleg = x;
}

/// Write the supervisor trap-vector base address; the low two bits are the mode.
pub fn w_stvec(h: &mut Hart, x: u64)
    ensures
        *final(h) == (Hart { stvec: x, ..*old(h) }),
{
    h.stvec = x;
}

/// Read the supervisor trap-vector base address.
pub fn r_stvec(h: &Hart) -> (x: u64)
    ensures
        x == h.stvec,
{
    h.stvec
}

/// Write the machine trap-vector base address.
pub fn w_mtvec(h: &mut Hart, x: u64)
    ensures
        *final(h) == (Hart { mtvec: x, ..*old(h) }),
{
    h.mtvec = x;
}

/// Write the physical-memory-protection configuration for region 0.
pub fn w_pmpcfg0(h: &mut Hart, x: u64)
    ensures
        *final(h) == (Hart { pmpcfg0: x, ..*old(h) }),
{
    h.pmpcfg0 = x;
}

/// Write the physical-memory-protection address for region 0.
pub fn w_pmpaddr0(h: &mut Hart, x: u64)
    ensures
        *final(h) == (Hart { pmpaddr0: x, ..*old(h) }),
{
    h.pmpaddr0 = x;
}

/// Address-translation mode field selecting the Sv39 page-table scheme.
pub const SATP_SV39: u64 = 8 << 60;

/// Compose a satp value: the Sv39 mode field over a page-table base address.
pub fn make_satp(pagetable: u64) -> (x: u64)
    ensures
        x == SATP_SV39 | (pagetable >> 12),
{
    SATP_SV39 | (pagetable >> 12)
}

/// Write the supervisor address-translation and protection register, which
/// holds the address of the page table.
pub fn w_satp(h: &mut Hart, x: u64)
    ensures
        *final(h) == (Hart { satp: x, ..*old(h) }),
{
    h.satp = x;
}

/// Read the supervisor address-translation and protection register.
pub fn r_satp(h: &Hart) -> (x: u64)
    ensures
        x == h.satp,
{
    h.satp
}

/// Write the machine scratch register.
pub fn w_mscratch(h: &mut Hart, x: u64)
    ensures
        *final(h) == (Hart { mscratch: x, ..*old(h) }),
{
    h.mscratch = x;
}

/// Read the supervisor trap cause.
pub fn r_scause(h: &Hart) -> (x: u64)
    ensures
        x == h.scause,
{
    h.scause
}

/// Read the supervisor trap value.
pub fn r_stval(h: &Hart) -> (x: u64)
    ensures
        x == h.stval,
{
    h.stval
}

/// Write the machine counter-enable register.
pub fn w_mcounteren(h: &mut Hart, x: u64)
    ensures
        *final(h) == (Hart { mcounteren: x, ..*old(h) }),
{
    h.mcounteren = x;
}

/// Read the machine counter-enable register.
pub fn r_mcounteren(h: &Hart) -> (x: u64)
    ensures
        x == h.mcounteren,
{
    h.mcounteren
}

/// Read the cycle counter.
pub fn r_time(h: &Hart) -> (x: u64)
    ensures
        x == h.time,
{
    h.time
}

/// Read the stack pointer.
pub fn r_sp(h: &Hart) -> (x: u64)
    ensures
        x == h.sp,
{
    h.sp
}

/// Read the thread pointer, which holds this core's hart id after boot.
pub fn r_tp(h: &Hart) -> (x: u64)
    ensures
        x == h.tp,
{
    h.tp
}

/// Write the thread pointer.
pub fn w_tp(h: &mut Hart, x: u64)
    ensures
        *final(h) == (Hart { tp: x, ..*old(h) }),
{
    h.tp = x;
}

/// Read the return-address register.
pub fn r_ra(h: &Hart) -> (x: u64)
    ensures
        x == h.ra,
{
    h.ra
}

/// Flush the TLB. The model carries no address-translation cache, so the
/// hart's registers are untouched; the operation exists so callers of the
/// access layer are complete.
pub fn sfence_vma(h: &mut Hart)
    ensures
        *final(h) == *old(h),
{
    let _ = h;
}

/// The privilege mode a trap return will switch into: the decoded
/// previous-privilege field of a machine status value.
pub open spec fn staged_mode(mstatus: u64) -> Mode {
    if mstatus & MSTATUS_MPP_MASK == MSTATUS_MPP_M {
        Mode::Machine
    } else if mstatus & MSTATUS_MPP_MASK == MSTATUS_MPP_S {
        Mode::Supervisor
    } else {
        Mode::User
    }
}

/// The trap-return instruction: atomically apply the privilege level staged
/// in the status register's previous-privilege field and jump to the staged
/// exception program counter.
///
/// The encoding `2` in the previous-privilege field is reserved by the
/// hardware and its effect undefined, so it is excluded here.
pub fn mret(h: &mut Hart)
    requires
        old(h).mstatus & MSTATUS_MPP_MASK != 2u64 << 11,
    ensures
        *final(h) == (Hart {
            mode: staged_mode(old(h).mstatus),
            pc: old(h).mepc,
            ..*old(h)
        }),
{
    let mpp = h.mstatus & MSTATUS_MPP_MASK;
    let mode = if mpp == MSTATUS_MPP_M {
        Mode::Machine
    } else if mpp == MSTATUS_MPP_S {
        Mode::Supervisor
    } else {
        Mode::User
    };
    h.mode = mode;
    h.pc = h.mepc;
}

/// Bytes per page.
pub const PGSIZE: u64 = 4096;
/// Bits of offset within a page.
pub const PGSHIFT: u64 = 12;

/// Round an address up to the next page boundary.
pub fn pgroundup(a: u64) -> (r: u64)
    requires
        a + PGSIZE - 1 <= u64::MAX,
    ensures
        r % PGSIZE == 0,
        a <= r < a + PGSIZE,
{
    let r = (a + (PGSIZE - 1)) & !(PGSIZE - 1);
    assert((((a + 4095) as u64) & !4095u64) % 4096 == 0 && a <= (((a + 4095) as u64)
        & !4095u64) && (((a + 4095) as u64) & !4095u64) < a + 4096) by (bit_vector)
        requires
            a <= u64::MAX - 4095,
    ;
    r
}

/// Round an address down to its page boundary.
pub fn pgrounddown(a: u64) -> (r: u64)
    ensures
        r % PGSIZE == 0,
        r <= a < r + PGSIZE,
{
    let r = a & !(PGSIZE - 1);
    assert((a & !4095u64) % 4096 == 0 && (a & !4095u64) <= a && a < (a & !4095u64) + 4096)
        by (bit_vector);
    r
}

/// Page-table entry flag: valid.
pub const PTE_V: u64 = 1 << 0;
/// Page-table entry flag: readable.
pub const PTE_R: u64 = 1 << 1;
/// Page-table entry flag: writable.
pub const PTE_W: u64 = 1 << 2;
/// Page-table entry flag: executable.
pub const PTE_X: u64 = 1 << 3;
/// Page-table entry flag: user-accessible.
pub const PTE_U: u64 = 1 << 4;

/// Shift a physical address to the right place for a page-table entry.
pub fn pa2pte(pa: u64) -> (r: u64)
    ensures
        r == (pa >> PGSHIFT) << 10,
{
    (pa >> PGSHIFT) << 10
}

/// Recover the physical address held in a page-table entry.
pub fn pte2pa(pte: u64) -> (r: u64)
    ensures
        r == (pte >> 10) << PGSHIFT,
{
    (pte >> 10) << PGSHIFT
}

/// The flag bits of a page-table entry.
pub fn pte_flags(pte: u64) -> (r: u64)
    ensures
        r == pte & 0x3FF,
{
    pte & 0x3FF
}

/// Mask of one 9-bit page-table index.
pub const PXMASK: u64 = 0x1FF;

/// How far the page-table index of the given level sits inside a virtual
/// address.
pub fn pxshift(level: u64) -> (r: u64)
    requires
        level <= 2,
    ensures
        r == PGSHIFT + 9 * level,
{
    PGSHIFT + 9 * level
}

/// Extract one of the three 9-bit page-table indices from a virtual address.
pub fn px(level: u64, va: u64) -> (r: u64)
    requires
        level <= 2,
    ensures
        r == (va >> (PGSHIFT + 9 * level)) & PXMASK,
        r <= PXMASK,
{
    let sh = pxshift(level);
    let r = (va >> sh) & PXMASK;
    assert((va >> sh) & PXMASK <= PXMASK) by (bit_vector);
    r
}

/// One beyond the highest virtual address Sv39 uses: one bit less than the
/// scheme allows, to avoid sign-extending addresses with the high bit set.
pub const MAXVA: u64 = 1 << (9 + 9 + 9 + 12 - 1);

} // verus!

//! Register bank and mode switching, exception entry, and the
//! cycle-accurate bus timing model.
//!
//! The register file has 45 slots: slots 0-15 are the live general
//! registers (15 is the program counter), 16 the CPSR, 17 the SPSR of the
//! live mode, and 18-44 the shadow copies of r13/r14/SPSR for the
//! privileged modes (r8-r14/SPSR for FIQ). A mode switch banks the current
//! mode's live registers into its shadow slots and loads the target
//! mode's. The condition flags, instruction width and irq-enable bit are a
//! cache of CPSR bits, re-synchronized around every direct CPSR mutation.

use vstd::prelude::*;
use vstd::arithmetic::power2::{pow2, lemma2_to64};
use crate::mem_map::{MemMap, read8_spec, read16_spec, read32_spec, write8_spec, write16_spec,
    write32_spec, region_of, MEMORY_SIZE};

verus! {

pub const R13_IRQ: usize = 18;

pub const R14_IRQ: usize = 19;

pub const SPSR_IRQ: usize = 20;

pub const R13_USR: usize = 26;

pub const R14_USR: usize = 27;

pub const R13_SVC: usize = 28;

pub const R14_SVC: usize = 29;

pub const SPSR_SVC: usize = 30;

pub const R13_ABT: usize = 31;

pub const R14_ABT: usize = 32;

pub const SPSR_ABT: usize = 33;

pub const R13_UND: usize = 34;

pub const R14_UND: usize = 35;

pub const SPSR_UND: usize = 36;

pub const R8_FIQ: usize = 37;

pub const R9_FIQ: usize = 38;

pub const R10_FIQ: usize = 39;

pub const R11_FIQ: usize = 40;

pub const R12_FIQ: usize = 41;

pub const R13_FIQ: usize = 42;

pub const R14_FIQ: usize = 43;

pub const SPSR_FIQ: usize = 44;

/// One register slot; the variant records the width the value was stored
/// with.
#[derive(Clone, Copy, Debug)]
pub enum Reg {
    B((u8, u8, u8, u8)),
    W((u16, u16)),
    I(u32),
}

/// The 32-bit value of a slot. The register-file invariant keeps every
/// slot at the 32-bit representation, where this is the stored value.
pub open spec fn reg_val(r: Reg) -> u32 {
    match r {
        Reg::B(_) => 0,
        Reg::W(_) => 0,
        Reg::I(v) => v,
    }
}

/// Abstract state of the core: the register file as a sequence of 32-bit
/// values, the flag cache, prefetch and interrupt bookkeeping, and the
/// backing buffer of the address space.
#[verifier::ext_equal]
pub ghost struct CpuState {
    pub regs: Seq<u32>,
    pub prefetch: Seq<u32>,
    pub n: bool,
    pub z: bool,
    pub c: bool,
    pub v: bool,
    pub arm_state: bool,
    pub irq_enable: bool,
    pub next_pc: u32,
    pub mode: i32,
    pub bus_prefetch: bool,
    pub bus_prefetch_enable: bool,
    pub count: u32,
    pub g_ie: u16,
    pub g_if: u16,
    pub g_ime: u16,
    pub next_event: i32,
    pub total_ticks: i32,
    pub mem: Seq<u8>,
}

/// USR and SYS share one register bank and have no SPSR of their own.
pub open spec fn usr_sys(m: i32) -> bool {
    m == 0x10 || m == 0x1F
}

/// The six supported processor modes.
pub open spec fn is_banked_mode(m: i32) -> bool {
    usr_sys(m) || m == 0x11 || m == 0x12 || m == 0x13 || m == 0x17 || m == 0x1B
}

/// Shadow slot holding mode `m`'s banked r13.
pub open spec fn r13_slot(m: i32) -> int {
    if usr_sys(m) {
        R13_USR as int
    } else if m == 0x11 {
        R13_FIQ as int
    } else if m == 0x12 {
        R13_IRQ as int
    } else if m == 0x13 {
        R13_SVC as int
    } else if m == 0x17 {
        R13_ABT as int
    } else {
        R13_UND as int
    }
}

/// Shadow slot holding mode `m`'s banked r14.
pub open spec fn r14_slot(m: i32) -> int {
    r13_slot(m) + 1
}

/// Whether mode `m` has an SPSR of its own; USR and SYS only mirror the
/// CPSR into the live SPSR slot.
pub open spec fn has_spsr(m: i32) -> bool {
    !usr_sys(m)
}

/// Shadow slot holding mode `m`'s banked SPSR.
pub open spec fn spsr_slot(m: i32) -> int
    recommends
        has_spsr(m),
{
    if m == 0x11 {
        SPSR_FIQ as int
    } else {
        r13_slot(m) + 2
    }
}

/// CPSR value packed from the flag cache: bit 6 of the stored CPSR is
/// kept; N/Z/C/V go to bits 31-28, the instruction-width bit to bit 5,
/// the inverted irq-enable bit to bit 7, and the current mode to the low
/// five bits.
pub open spec fn cpsr_of(s: CpuState) -> u32 {
    let c0 = s.regs[16] & 0x40;
    let c1 = if s.n {
        c0 | 0x80000000
    } else {
        c0
    };
    let c2 = if s.z {
        c1 | 0x40000000
    } else {
        c1
    };
    let c3 = if s.c {
        c2 | 0x20000000
    } else {
        c2
    };
    let c4 = if s.v {
        c3 | 0x10000000
    } else {
        c3
    };
    let c5 = if !s.arm_state {
        c4 | 0x20
    } else {
        c4
    };
    let c6 = if !s.irq_enable {
        c5 | 0x80
    } else {
        c5
    };
    c6 | ((s.mode & 0x1F) as u32)
}

/// The low five mode bits of a packed CPSR are a value in 0..=0x1F.
proof fn lemma_mode_bits_range(m: i32)
    by (bit_vector)
    ensures
        0 <= m & 0x1F <= 0x1F,
{
}

/// State after syncing the flag cache into the stored CPSR.
pub open spec fn update_cpsr_st(s: CpuState) -> CpuState {
    CpuState { regs: s.regs.update(16, cpsr_of(s)), ..s }
}

/// State after re-deriving the flag cache from the stored CPSR; with
/// `break_loop` set, a deliverable interrupt (irq enabled, a pending line
/// enabled, master enable on) schedules the next event at the current
/// cycle to signal the outer execution loop.
pub open spec fn update_flags_st(s: CpuState, break_loop: bool) -> CpuState {
    let c = s.regs[16];
    let irq = c & 0x80 == 0;
    let s2 = CpuState {
        n: c & 0x80000000 != 0,
        z: c & 0x40000000 != 0,
        c: c & 0x20000000 != 0,
        v: c & 0x10000000 != 0,
        arm_state: c & 0x20 == 0,
        irq_enable: irq,
        ..s
    };
    if break_loop && irq && (s.g_if & s.g_ie) != 0 && (s.g_ime & 1) != 0 {
        CpuState { next_event: s.total_ticks, ..s2 }
    } else {
        s2
    }
}

/// The register file after banking the live r13/r14 (and SPSR, FIQ also
/// r8-r12) of mode `m` into `m`'s shadow slots; USR and SYS mirror the
/// CPSR into the live SPSR slot instead of saving an SPSR of their own.
pub open spec fn bank_out(r: Seq<u32>, m: i32) -> Seq<u32>
    recommends
        r.len() == 45,
        is_banked_mode(m),
{
    if usr_sys(m) {
        r.update(R13_USR as int, r[13]).update(R14_USR as int, r[14]).update(17, r[16])
    } else if m == 0x11 {
        r.update(8, r[R8_FIQ as int]).update(R8_FIQ as int, r[8]).update(9, r[R9_FIQ as int])
            .update(R9_FIQ as int, r[9]).update(10, r[R10_FIQ as int]).update(
            R10_FIQ as int,
            r[10],
        ).update(11, r[R11_FIQ as int]).update(R11_FIQ as int, r[11]).update(
            12,
            r[R12_FIQ as int],
        ).update(R12_FIQ as int, r[12]).update(R13_FIQ as int, r[13]).update(
            R14_FIQ as int,
            r[14],
        ).update(SPSR_FIQ as int, r[17])
    } else {
        r.update(r13_slot(m), r[13]).update(r14_slot(m), r[14]).update(spsr_slot(m), r[17])
    }
}

/// The register file after loading mode `m`'s banked r13/r14 (FIQ also
/// r8-r12) from its shadow slots. The CPSR takes the live SPSR that was
/// current before the switch; the loaded SPSR is the just-saved CPSR when
/// `save` is set (exception entry), else `m`'s stored shadow SPSR.
pub open spec fn bank_in(r: Seq<u32>, m: i32, save: bool) -> Seq<u32>
    recommends
        r.len() == 45,
        is_banked_mode(m),
{
    let cpsr = r[16];
    let spsr = r[17];
    if usr_sys(m) {
        r.update(13, r[R13_USR as int]).update(14, r[R14_USR as int]).update(16, spsr)
    } else if m == 0x11 {
        r.update(R8_FIQ as int, r[8]).update(8, r[R8_FIQ as int]).update(R9_FIQ as int, r[9])
            .update(9, r[R9_FIQ as int]).update(R10_FIQ as int, r[10]).update(
            10,
            r[R10_FIQ as int],
        ).update(R11_FIQ as int, r[11]).update(11, r[R11_FIQ as int]).update(
            R12_FIQ as int,
            r[12],
        ).update(12, r[R12_FIQ as int]).update(13, r[R13_FIQ as int]).update(
            14,
            r[R14_FIQ as int],
        ).update(
            17,
            if save {
                cpsr
            } else {
                r[SPSR_FIQ as int]
            },
        )
    } else {
        r.update(13, r[r13_slot(m)]).update(14, r[r14_slot(m)]).update(16, spsr).update(
            17,
            if save {
                cpsr
            } else {
                r[spsr_slot(m)]
            },
        )
    }
}

/// Full effect of a supported mode switch: sync the CPSR from the flag
/// cache, bank the current mode out, load the target mode in, then
/// re-derive the flag cache and re-sync the CPSR.
pub open spec fn switch_mode_st(s: CpuState, m: i32, save: bool, brk: bool) -> CpuState {
    let s0 = update_cpsr_st(s);
    let s1 = CpuState { regs: bank_out(s0.regs, s0.mode), ..s0 };
    let s2 = CpuState { regs: bank_in(s1.regs, m, save), mode: m, ..s1 };
    update_cpsr_st(update_flags_st(s2, brk))
}

/// State after refilling the two-word prefetch buffer at the next fetch
/// address, through the bus read path.
pub open spec fn prefetch_st(s: CpuState) -> CpuState {
    CpuState {
        prefetch: s.prefetch.update(
            0,
            read32_spec(s.mem, decoy_pattern(), s.regs[15], s.next_pc),
        ).update(1, read32_spec(s.mem, decoy_pattern(), s.regs[15], (s.next_pc + 4) as u32)),
        ..s
    }
}

/// State after a power-on reset: registers zeroed, SVC mode, irq
/// disabled, 32-bit width, flags clear, CPSR forced to bit 6 and
/// re-synced, the prefetch buffer primed at address 0, and the program
/// counter advanced by 8 to model the two-stage pipeline lookahead.
pub open spec fn reset_st(s: CpuState) -> CpuState {
    let s1 = CpuState {
        regs: Seq::new(45, |i: int| 0u32).update(16, 0x40u32),
        n: false,
        z: false,
        c: false,
        v: false,
        arm_state: true,
        irq_enable: false,
        mode: 0x13,
        next_pc: 0,
        ..s
    };
    let s2 = update_cpsr_st(s1);
    let s3 = prefetch_st(s2);
    CpuState { regs: s3.regs.update(15, 8u32), ..s3 }
}

/// State after undefined-instruction entry: UND mode is entered capturing
/// the pre-exception CPSR, the link register takes the faulting address
/// minus one instruction, execution restarts at the exception vector with
/// 32-bit width and irq disabled, and the prefetch buffer is refilled.
pub open spec fn undef_exception_st(s: CpuState) -> CpuState {
    let pc = s.regs[15];
    let lr = if s.arm_state {
        (pc - 4) as u32
    } else {
        (pc - 2) as u32
    };
    let s1 = switch_mode_st(s, 0x1B, true, false);
    let s2 = CpuState {
        regs: s1.regs.update(14, lr).update(15, 4u32),
        arm_state: true,
        irq_enable: false,
        next_pc: 4,
        ..s1
    };
    let s3 = prefetch_st(s2);
    update_cpsr_st(CpuState { regs: s3.regs.update(15, 12u32), ..s3 })
}

/// The power-on state of the core.
pub open spec fn initial_cpu_st() -> CpuState {
    CpuState {
        regs: Seq::new(45, |i: int| 0u32),
        prefetch: seq![0u32, 0u32],
        n: false,
        z: false,
        c: false,
        v: false,
        arm_state: true,
        irq_enable: true,
        next_pc: 0,
        mode: 0x1F,
        bus_prefetch: false,
        bus_prefetch_enable: false,
        count: 0,
        g_ie: 0,
        g_if: 0,
        g_ime: 0,
        next_event: 0,
        total_ticks: 0,
        mem: Seq::new(MEMORY_SIZE as nat, |i: int| 0u8),
    }
}

/// The processor core: register file, flag cache, prefetch and interrupt
/// bookkeeping, the fixed wait-state tables and the address map.
pub struct Cpu {
    pub regs: Vec<Reg>,
    pub cpu_bits_set: Vec<u8>,
    pub cpu_prefetch: Vec<u32>,
    pub n_flag: bool,
    pub c_flag: bool,
    pub z_flag: bool,
    pub v_flag: bool,
    pub arm_state: bool,
    pub arm_irq_enable: bool,
    pub arm_next_pc: u32,
    pub arm_mode: i32,
    pub bus_prefetch: bool,
    pub bus_prefetch_enable: bool,
    pub bus_prefetch_count: u32,
    pub memory_wait: Vec<u8>,
    pub memory_wait_32: Vec<u8>,
    pub memory_wait_seq: Vec<u8>,
    pub memory_wait_seq_32: Vec<u8>,
    pub g_ie: u16,
    pub g_if: u16,
    pub g_ime: u16,
    pub cpu_next_event: i32,
    pub cpu_total_ticks: i32,
    pub mem_map: MemMap,
    pub bios_protected: Vec<u8>,
}

/// Number of set bits in `n`.
pub open spec fn count_ones(n: nat) -> nat
    decreases n,
{
    if n == 0 {
        0
    } else {
        count_ones(n / 2) + n % 2
    }
}

/// A number bounds its own population count.
pub proof fn lemma_count_ones_le_self(n: nat)
    ensures
        count_ones(n) <= n,
    decreases n,
{
    if n > 0 {
        lemma_count_ones_le_self(n / 2);
    }
}

/// Wait states of a first (non-sequential) 8- or 16-bit access, by region.
pub open spec fn wait_n16_at(r: int) -> u8 {
    if r == 2 {
        2
    } else if 8 <= r <= 14 {
        4
    } else {
        0
    }
}

/// Wait states of a first (non-sequential) 32-bit access, by region.
pub open spec fn wait_n32_at(r: int) -> u8 {
    if r == 2 {
        5
    } else if r == 5 || r == 6 {
        1
    } else if r == 8 || r == 9 {
        7
    } else if r == 10 || r == 11 {
        9
    } else if r == 12 || r == 13 {
        13
    } else if r == 14 {
        4
    } else {
        0
    }
}

/// Wait states of a sequential 8- or 16-bit access, by region.
pub open spec fn wait_s16_at(r: int) -> u8 {
    if r == 2 {
        2
    } else if r == 8 || r == 9 {
        2
    } else if r == 10 || r == 11 {
        4
    } else if r == 12 || r == 13 {
        8
    } else if r == 14 {
        4
    } else {
        0
    }
}

/// Wait states of a sequential 32-bit access, by region.
pub open spec fn wait_s32_at(r: int) -> u8 {
    if r == 2 {
        5
    } else if r == 5 || r == 6 {
        1
    } else if r == 8 || r == 9 {
        5
    } else if r == 10 || r == 11 {
        9
    } else if r == 12 || r == 13 {
        17
    } else if r == 14 {
        4
    } else {
        0
    }
}

/// The fixed decoy byte pattern returned for protected BIOS reads.
pub open spec fn decoy_pattern() -> Seq<u8> {
    seq![0x00u8, 0xF0u8, 0x29u8, 0xE1u8]
}

/// A wait-state value clamped to at least one bus cycle.
pub open spec fn max1(v: u8) -> u8 {
    if v == 0 {
        1
    } else {
        v
    }
}

/// The prefetch counter after racing ahead during a burst: extra bus
/// cycles are consumed at the region's wait-state rate, modulo the
/// counter's 32-bit storage.
pub open spec fn burst_advance(count: u32, w: u8) -> u32 {
    ((((count + 1) * pow2(w as nat)) - 1) % 0x100000000) as u32
}

/// Relates the executable shift to `burst_advance`.
proof fn lemma_burst_advance_exec(count: u32, w: u8, big: u64)
    requires
        1 <= w <= 7,
        big == (((count as u64) + 1) as u64) << (w as u64),
    ensures
        1 <= big,
        ((big - 1) as u64) as u32 == burst_advance(count, w),
{
    lemma2_to64();
    assert(pow2(w as nat) <= 128) by {
        assert(w == 1 || w == 2 || w == 3 || w == 4 || w == 5 || w == 6 || w == 7);
    }
    assert(((count as u64) + 1) * pow2(w as nat) <= 0x80_0000_0000) by (nonlinear_arith)
        requires
            (count as u64) + 1 <= 0x1_0000_0000,
            pow2(w as nat) <= 128,
    ;
    vstd::bits::lemma_u64_shl_is_mul((count as u64 + 1) as u64, w as u64);
    assert(1 <= big) by (nonlinear_arith)
        requires
            big == ((count as u64) + 1) * pow2(w as nat),
            1 <= (count as u64) + 1,
            1 <= pow2(w as nat),
    ;
    let b1 = (big - 1) as u64;
    assert(b1 as u32 == b1 % 0x1_0000_0000) by (bit_vector);
}

/// State after a non-sequential 8- or 16-bit data access: outside the
/// cartridge window the prefetch bookkeeping is reset and disabled, inside
/// it an active bus-prefetch unit races ahead at the region's wait rate.
pub open spec fn data_ticks_16_st(s: CpuState, address: usize) -> CpuState {
    let r = region_of(address as int);
    if r >= 8 || r < 2 {
        CpuState { count: 0, bus_prefetch_enable: false, ..s }
    } else if s.bus_prefetch {
        CpuState { count: burst_advance(s.count, max1(wait_n16_at(r))), ..s }
    } else {
        s
    }
}

/// State after a non-sequential 32-bit data access; the cartridge-window
/// boundary is strictly above region 8 for 32-bit accesses, and leaving it
/// deactivates the bus-prefetch unit itself.
pub open spec fn data_ticks_32_st(s: CpuState, address: usize) -> CpuState {
    let r = region_of(address as int);
    if r > 8 || r < 2 {
        CpuState { count: 0, bus_prefetch: false, ..s }
    } else if s.bus_prefetch {
        CpuState { count: burst_advance(s.count, max1(wait_n32_at(r))), ..s }
    } else {
        s
    }
}

/// State after a sequential 8- or 16-bit data access.
pub open spec fn data_ticks_seq_16_st(s: CpuState, address: usize) -> CpuState {
    let r = region_of(address as int);
    if r >= 8 || r < 2 {
        CpuState { count: 0, bus_prefetch_enable: false, ..s }
    } else if s.bus_prefetch {
        CpuState { count: burst_advance(s.count, max1(wait_s16_at(r))), ..s }
    } else {
        s
    }
}

/// State after a sequential 32-bit data access; as for the non-sequential
/// case the 32-bit boundary is strictly above region 8.
pub open spec fn data_ticks_seq_32_st(s: CpuState, address: usize) -> CpuState {
    let r = region_of(address as int);
    if r > 8 || r < 2 {
        CpuState { count: 0, bus_prefetch_enable: false, ..s }
    } else if s.bus_prefetch {
        CpuState { count: burst_advance(s.count, max1(wait_s32_at(r))), ..s }
    } else {
        s
    }
}

/// State and charge of a non-sequential 16-bit code fetch. In the
/// cartridge regions a counter with bit 0 set marks a fetch the prefetch
/// unit has already raced ahead of: bit 1 set as well means fully
/// prefetched (free), else the discounted sequential cost applies; the
/// counter's low byte is shifted down accordingly, keeping the high
/// bookkeeping bits. Otherwise the full non-sequential cost is charged.
pub open spec fn code_ticks_16_st(s: CpuState, address: usize) -> (CpuState, u8) {
    let r = region_of(address as int);
    if 8 <= r <= 13 {
        if s.count & 0x1 != 0 {
            if s.count & 0x2 != 0 {
                (CpuState { count: ((s.count & 0xFF) >> 2) | (s.count & 0xFFFFFF00), ..s }, 0)
            } else {
                (
                    CpuState { count: ((s.count & 0xFF) >> 1) | (s.count & 0xFFFFFF00), ..s },
                    (wait_s16_at(r) - 1) as u8,
                )
            }
        } else {
            (CpuState { count: 0, ..s }, wait_n16_at(r))
        }
    } else {
        (CpuState { count: 0, ..s }, wait_n16_at(r))
    }
}

/// State and charge of a non-sequential 32-bit code fetch.
pub open spec fn code_ticks_32_st(s: CpuState, address: usize) -> (CpuState, u8) {
    let r = region_of(address as int);
    if 8 <= r <= 13 {
        if s.count & 0x1 != 0 {
            if s.count & 0x2 != 0 {
                (CpuState { count: ((s.count & 0xFF) >> 2) | (s.count & 0xFFFFFF00), ..s }, 0)
            } else {
                (
                    CpuState { count: ((s.count & 0xFF) >> 1) | (s.count & 0xFFFFFF00), ..s },
                    (wait_s16_at(r) - 1) as u8,
                )
            }
        } else {
            (CpuState { count: 0, ..s }, wait_n32_at(r))
        }
    } else {
        (CpuState { count: 0, ..s }, wait_n32_at(r))
    }
}

/// State and charge of a sequential 16-bit code fetch: a prefetched word
/// is free, a counter past 0xFF means the burst is exhausted and the full
/// non-sequential cost recurs, else the plain sequential cost applies.
pub open spec fn code_ticks_seq_16_st(s: CpuState, address: usize) -> (CpuState, u8) {
    let r = region_of(address as int);
    if 8 <= r <= 13 {
        if s.count & 0x1 != 0 {
            (CpuState { count: ((s.count & 0xFF) >> 1) | (s.count & 0xFFFFFF00), ..s }, 0)
        } else if s.count > 0xFF {
            (CpuState { count: 0, ..s }, wait_n16_at(r))
        } else {
            (s, wait_s16_at(r))
        }
    } else {
        (CpuState { count: 0, ..s }, wait_s16_at(r))
    }
}

/// State and charge of a sequential 32-bit code fetch; bit 1 of the
/// counter is consulted as in the non-sequential case.
pub open spec fn code_ticks_seq_32_st(s: CpuState, address: usize) -> (CpuState, u8) {
    let r = region_of(address as int);
    if 8 <= r <= 13 {
        if s.count & 0x1 != 0 {
            if s.count & 0x2 != 0 {
                (CpuState { count: ((s.count & 0xFF) >> 2) | (s.count & 0xFFFFFF00), ..s }, 0)
            } else {
                (
                    CpuState { count: ((s.count & 0xFF) >> 1) | (s.count & 0xFFFFFF00), ..s },
                    (wait_s16_at(r) - 1) as u8,
                )
            }
        } else if s.count > 0xFF {
            (CpuState { count: 0, ..s }, wait_n32_at(r))
        } else {
            (s, wait_s32_at(r))
        }
    } else {
        (s, wait_s32_at(r))
    }
}

impl View for Cpu {
    type V = CpuState;

    open spec fn view(&self) -> CpuState {
        CpuState {
            regs: self.regs@.map_values(|r: Reg| reg_val(r)),
            prefetch: self.cpu_prefetch@,
            n: self.n_flag,
            z: self.z_flag,
            c: self.c_flag,
            v: self.v_flag,
            arm_state: self.arm_state,
            irq_enable: self.arm_irq_enable,
            next_pc: self.arm_next_pc,
            mode: self.arm_mode,
            bus_prefetch: self.bus_prefetch,
            bus_prefetch_enable: self.bus_prefetch_enable,
            count: self.bus_prefetch_count,
            g_ie: self.g_ie,
            g_if: self.g_if,
            g_ime: self.g_ime,
            next_event: self.cpu_next_event,
            total_ticks: self.cpu_total_ticks,
            mem: self.mem_map.memory@,
        }
    }
}

impl Cpu {
    /// Well-formedness: 45 register slots all at the 32-bit
    /// representation, a supported current mode, the fixed wait-state
    /// tables, population-count table and decoy pattern in place, and a
    /// well-formed address map.
    pub open spec fn wf(self) -> bool {
        &&& self.regs.len() == 45
        &&& forall|i: int| 0 <= i < 45 ==> (#[trigger] self.regs@[i]) is I
        &&& self.cpu_prefetch.len() == 2
        &&& self.cpu_bits_set.len() == 256
        &&& forall|i: int|
            0 <= i < 256 ==> #[trigger] self.cpu_bits_set@[i] == count_ones(i as nat)
        &&& self.memory_wait.len() == 16
        &&& forall|i: int| 0 <= i < 16 ==> #[trigger] self.memory_wait@[i] == wait_n16_at(i)
        &&& self.memory_wait_32.len() == 16
        &&& forall|i: int| 0 <= i < 16 ==> #[trigger] self.memory_wait_32@[i] == wait_n32_at(i)
        &&& self.memory_wait_seq.len() == 16
        &&& forall|i: int| 0 <= i < 16 ==> #[trigger] self.memory_wait_seq@[i] == wait_s16_at(i)
        &&& self.memory_wait_seq_32.len() == 16
        &&& forall|i: int|
            0 <= i < 16 ==> #[trigger] self.memory_wait_seq_32@[i] == wait_s32_at(i)
        &&& self.bios_protected@ == decoy_pattern()
        &&& is_banked_mode(self.arm_mode)
        &&& self.mem_map.wf()
    }

    /// Reads a slot stored with 8-bit width. A read at a slot whose stored
    /// representation mismatches the requested width is an invariant
    /// violation and is excluded up front.
    pub fn get_reg_b(&self, reg: usize) -> (r: (u8, u8, u8, u8))
        requires
            reg < self.regs.len(),
            self.regs@[reg as int] is B,
        ensures
            self.regs@[reg as int] == Reg::B(r),
    {
        match self.regs[reg] {
            Reg::B(val) => val,
            _ => unreached(),
        }
    }

    /// Reads a slot stored with 16-bit width.
    pub fn get_reg_w(&self, reg: usize) -> (r: (u16, u16))
        requires
            reg < self.regs.len(),
            self.regs@[reg as int] is W,
        ensures
            self.regs@[reg as int] == Reg::W(r),
    {
        match self.regs[reg] {
            Reg::W(val) => val,
            _ => unreached(),
        }
    }

    /// Reads a slot stored with 32-bit width.
    pub fn get_reg_i(&self, reg: usize) -> (r: u32)
        requires
            reg < self.regs.len(),
            self.regs@[reg as int] is I,
        ensures
            r == self@.regs[reg as int],
    {
        match self.regs[reg] {
            Reg::I(val) => val,
            _ => unreached(),
        }
    }

    /// Writes a 32-bit value to a register slot.
    pub fn set_reg_i(&mut self, reg: usize, value: u32)
        requires
            old(self).wf(),
            reg < 45,
        ensures
            final(self).wf(),
            final(self)@ == (CpuState {
                regs: old(self)@.regs.update(reg as int, value),
                ..old(self)@
            }),
    {
        self.regs.set(reg, Reg::I(value));
        proof {
            assert(self@.regs =~= old(self)@.regs.update(reg as int, value));
        }
    }

    /// Exchanges the values of two register slots.
    pub fn cpu_swap(&mut self, a: usize, b: usize)
        requires
            old(self).wf(),
            a < 45,
            b < 45,
        ensures
            final(self).wf(),
            final(self)@ == (CpuState {
                regs: old(self)@.regs.update(b as int, old(self)@.regs[a as int]).update(
                    a as int,
                    old(self)@.regs[b as int],
                ),
                ..old(self)@
            }),
    {
        let temp = self.get_reg_i(b);
        let av = self.get_reg_i(a);
        self.set_reg_i(b, av);
        self.set_reg_i(a, temp);
    }

    /// Packs the flag cache and the current mode into the stored CPSR.
    pub fn cpu_update_cpsr(&mut self)
        requires
            old(self).wf(),
        ensures
            final(self).wf(),
            final(self)@ == update_cpsr_st(old(self)@),
    {
        let mut cpsr = self.get_reg_i(16) & 0x40;
        if self.n_flag {
            cpsr = cpsr | 0x80000000;
        }
        if self.z_flag {
            cpsr = cpsr | 0x40000000;
        }
        if self.c_flag {
            cpsr = cpsr | 0x20000000;
        }
        if self.v_flag {
            cpsr = cpsr | 0x10000000;
        }
        if !self.arm_state {
            cpsr = cpsr | 0x00000020;
        }
        if !self.arm_irq_enable {
            cpsr = cpsr | 0x80;
        }
        proof {
            lemma_mode_bits_range(self.arm_mode);
        }
        cpsr = cpsr | ((self.arm_mode & 0x1F) as u32);
        self.set_reg_i(16, cpsr);
    }

    /// Re-derives the flag cache from the stored CPSR; with `break_loop`
    /// set, signals the outer execution loop if an interrupt has become
    /// deliverable.
    pub fn cpu_update_flags(&mut self, break_loop: bool)
        requires
            old(self).wf(),
        ensures
            final(self).wf(),
            final(self)@ == update_flags_st(old(self)@, break_loop),
    {
        let cpsr = self.get_reg_i(16);
        self.n_flag = cpsr & 0x80000000 != 0;
        self.z_flag = cpsr & 0x40000000 != 0;
        self.c_flag = cpsr & 0x20000000 != 0;
        self.v_flag = cpsr & 0x10000000 != 0;
        self.arm_state = cpsr & 0x20 == 0;
        self.arm_irq_enable = cpsr & 0x80 == 0;
        if break_loop {
            if self.arm_irq_enable && (self.g_if & self.g_ie) != 0 && (self.g_ime & 1) != 0 {
                self.cpu_next_event = self.cpu_total_ticks;
            }
        }
    }

    /// `cpu_update_flags` with the interrupt signal enabled.
    pub fn cpu_update_flags_s(&mut self)
        requires
            old(self).wf(),
        ensures
            final(self).wf(),
            final(self)@ == update_flags_st(old(self)@, true),
    {
        self.cpu_update_flags(true);
    }

    /// Banks the current mode's live registers into its shadow slots.
    fn bank_current_mode(&mut self)
        requires
            old(self).wf(),
        ensures
            final(self).wf(),
            final(self)@ == (CpuState {
                regs: bank_out(old(self)@.regs, old(self)@.mode),
                ..old(self)@
            }),
    {
        match self.arm_mode {
            0x10 | 0x1F => {
                let v13 = self.get_reg_i(13);
                self.set_reg_i(R13_USR, v13);
                let v14 = self.get_reg_i(14);
                self.set_reg_i(R14_USR, v14);
                let v16 = self.get_reg_i(16);
                self.set_reg_i(17, v16);
            },
            0x11 => {
                self.cpu_swap(R8_FIQ, 8);
                self.cpu_swap(R9_FIQ, 9);
                self.cpu_swap(R10_FIQ, 10);
                self.cpu_swap(R11_FIQ, 11);
                self.cpu_swap(R12_FIQ, 12);
                let v13 = self.get_reg_i(13);
                self.set_reg_i(R13_FIQ, v13);
                let v14 = self.get_reg_i(14);
                self.set_reg_i(R14_FIQ, v14);
                let v17 = self.get_reg_i(17);
                self.set_reg_i(SPSR_FIQ, v17);
            },
            0x12 => {
                let v13 = self.get_reg_i(13);
                self.set_reg_i(R13_IRQ, v13);
                let v14 = self.get_reg_i(14);
                self.set_reg_i(R14_IRQ, v14);
                let v17 = self.get_reg_i(17);
                self.set_reg_i(SPSR_IRQ, v17);
            },
            0x13 => {
                let v13 = self.get_reg_i(13);
                self.set_reg_i(R13_SVC, v13);
                let v14 = self.get_reg_i(14);
                self.set_reg_i(R14_SVC, v14);
                let v17 = self.get_reg_i(17);
                self.set_reg_i(SPSR_SVC, v17);
            },
            0x17 => {
                let v13 = self.get_reg_i(13);
                self.set_reg_i(R13_ABT, v13);
                let v14 = self.get_reg_i(14);
                self.set_reg_i(R14_ABT, v14);
                let v17 = self.get_reg_i(17);
                self.set_reg_i(SPSR_ABT, v17);
            },
            0x1B => {
                let v13 = self.get_reg_i(13);
                self.set_reg_i(R13_UND, v13);
                let v14 = self.get_reg_i(14);
                self.set_reg_i(R14_UND, v14);
                let v17 = self.get_reg_i(17);
                self.set_reg_i(SPSR_UND, v17);
            },
            _ => {
                proof {
                    assert(false);
                }
            },
        }
    }

    /// Loads the target mode's banked registers from its shadow slots.
    #[verifier::rlimit(100)]
    #[verifier::spinoff_prover]
    fn bank_load_target(&mut self, mode: i32, save_state: bool)
        requires
            old(self).wf(),
            is_banked_mode(mode),
        ensures
            final(self).wf(),
            final(self)@ == (CpuState {
                regs: bank_in(old(self)@.regs, mode, save_state),
                ..old(self)@
            }),
    {
        let cpsr = self.get_reg_i(16);
        let spsr = self.get_reg_i(17);
        match mode {
            0x10 | 0x1F => {
                let v13 = self.get_reg_i(R13_USR);
                self.set_reg_i(13, v13);
                let v14 = self.get_reg_i(R14_USR);
                self.set_reg_i(14, v14);
                self.set_reg_i(16, spsr);
            },
            0x11 => {
                self.cpu_swap(8, R8_FIQ);
                self.cpu_swap(9, R9_FIQ);
                self.cpu_swap(10, R10_FIQ);
                self.cpu_swap(11, R11_FIQ);
                self.cpu_swap(12, R12_FIQ);
                let v13 = self.get_reg_i(R13_FIQ);
                self.set_reg_i(13, v13);
                let v14 = self.get_reg_i(R14_FIQ);
                self.set_reg_i(14, v14);
                if save_state {
                    self.set_reg_i(17, cpsr);
                } else {
                    let v = self.get_reg_i(SPSR_FIQ);
                    self.set_reg_i(17, v);
                }
            },
            0x12 => {
                let v13 = self.get_reg_i(R13_IRQ);
                self.set_reg_i(13, v13);
                let v14 = self.get_reg_i(R14_IRQ);
                self.set_reg_i(14, v14);
                self.set_reg_i(16, spsr);
                if save_state {
                    self.set_reg_i(17, cpsr);
                } else {
                    let v = self.get_reg_i(SPSR_IRQ);
                    self.set_reg_i(17, v);
                }
            },
            0x13 => {
                let v13 = self.get_reg_i(R13_SVC);
                self.set_reg_i(13, v13);
                let v14 = self.get_reg_i(R14_SVC);
                self.set_reg_i(14, v14);
                self.set_reg_i(16, spsr);
                if save_state {
                    self.set_reg_i(17, cpsr);
                } else {
                    let v = self.get_reg_i(SPSR_SVC);
                    self.set_reg_i(17, v);
                }
            },
            0x17 => {
                let v13 = self.get_reg_i(R13_ABT);
                self.set_reg_i(13, v13);
                let v14 = self.get_reg_i(R14_ABT);
                self.set_reg_i(14, v14);
                self.set_reg_i(16, spsr);
                if save_state {
                    self.set_reg_i(17, cpsr);
                } else {
                    let v = self.get_reg_i(SPSR_ABT);
                    self.set_reg_i(17, v);
                }
            },
            0x1B => {
                let v13 = self.get_reg_i(R13_UND);
                self.set_reg_i(13, v13);
                let v14 = self.get_reg_i(R14_UND);
                self.set_reg_i(14, v14);
                self.set_reg_i(16, spsr);
                if save_state {
                    self.set_reg_i(17, cpsr);
                } else {
                    let v = self.get_reg_i(SPSR_UND);
                    self.set_reg_i(17, v);
                }
            },
            _ => {
                proof {
                    assert(false);
                }
            },
        }
    }

    /// Switches to `mode`, banking the current mode's registers out and
    /// the target mode's in. `save_state` captures the pre-switch CPSR as
    /// the target's SPSR (exception entry); `break_loop` lets a newly
    /// deliverable interrupt signal the outer execution loop. An
    /// unsupported target mode performs nothing and reports `false` so the
    /// caller can log the diagnostic; state is left unmodified.
    pub fn cpu_switch_mode(&mut self, mode: i32, save_state: bool, break_loop: bool) -> (performed:
        bool)
        requires
            old(self).wf(),
        ensures
            final(self).wf(),
            performed == is_banked_mode(mode),
            performed ==> final(self)@ == switch_mode_st(
                old(self)@,
                mode,
                save_state,
                break_loop,
            ),
            !performed ==> *final(self) == *old(self),
    {
        if !(mode == 0x10 || mode == 0x1F || mode == 0x11 || mode == 0x12 || mode == 0x13 || mode
            == 0x17 || mode == 0x1B) {
            return false;
        }
        self.cpu_update_cpsr();
        self.bank_current_mode();
        self.bank_load_target(mode, save_state);
        self.arm_mode = mode;
        self.cpu_update_flags(break_loop);
        self.cpu_update_cpsr();
        true
    }

    /// Advances the prefetch counter for an active burst at rate `w`.
    fn advance_burst(&mut self, w: u8)
        requires
            old(self).wf(),
            1 <= w <= 7,
        ensures
            final(self).wf(),
            final(self)@ == (CpuState {
                count: burst_advance(old(self)@.count, w),
                ..old(self)@
            }),
    {
        let big: u64 = ((self.bus_prefetch_count as u64) + 1) << (w as u64);
        proof {
            lemma_burst_advance_exec(self.bus_prefetch_count, w, big);
        }
        self.bus_prefetch_count = #[verifier::truncate] ((big - 1) as u32);
    }

    /// Charges a non-sequential 8- or 16-bit data access and updates the
    /// prefetch bookkeeping; reports the region's wait states.
    pub fn data_ticks_access_16(&mut self, address: usize) -> (r: u8)
        requires
            old(self).wf(),
        ensures
            final(self).wf(),
            final(self)@ == data_ticks_16_st(old(self)@, address),
            r == wait_n16_at(region_of(address as int)),
    {
        let region: usize = (address / 0x1000000) % 16;
        let value = self.memory_wait[region];
        if region >= 0x08 || region < 0x02 {
            self.bus_prefetch_count = 0;
            self.bus_prefetch_enable = false;
        } else if self.bus_prefetch {
            let w: u8 = if value == 0 {
                1
            } else {
                value
            };
            self.advance_burst(w);
        }
        value
    }

    /// Charges a non-sequential 32-bit data access; the cartridge-window
    /// boundary is strictly above region 8 for 32-bit accesses.
    pub fn data_ticks_access_32(&mut self, address: usize) -> (r: u8)
        requires
            old(self).wf(),
        ensures
            final(self).wf(),
            final(self)@ == data_ticks_32_st(old(self)@, address),
            r == wait_n32_at(region_of(address as int)),
    {
        let region: usize = (address / 0x1000000) % 16;
        let value = self.memory_wait_32[region];
        if region > 0x08 || region < 0x02 {
            self.bus_prefetch_count = 0;
            self.bus_prefetch = false;
        } else if self.bus_prefetch {
            let w: u8 = if value == 0 {
                1
            } else {
                value
            };
            self.advance_burst(w);
        }
        value
    }

    /// Charges a sequential 8- or 16-bit data access.
    pub fn data_ticks_access_seq_16(&mut self, address: usize) -> (r: u8)
        requires
            old(self).wf(),
        ensures
            final(self).wf(),
            final(self)@ == data_ticks_seq_16_st(old(self)@, address),
            r == wait_s16_at(region_of(address as int)),
    {
        let region: usize = (address / 0x1000000) % 16;
        let value = self.memory_wait_seq[region];
        if region >= 0x08 || region < 0x02 {
            self.bus_prefetch_count = 0;
            self.bus_prefetch_enable = false;
        } else if self.bus_prefetch {
            let w: u8 = if value == 0 {
                1
            } else {
                value
            };
            self.advance_burst(w);
        }
        value
    }

    /// Charges a sequential 32-bit data access.
    pub fn data_ticks_access_seq_32(&mut self, address: usize) -> (r: u8)
        requires
            old(self).wf(),
        ensures
            final(self).wf(),
            final(self)@ == data_ticks_seq_32_st(old(self)@, address),
            r == wait_s32_at(region_of(address as int)),
    {
        let region: usize = (address / 0x1000000) % 16;
        let value = self.memory_wait_seq_32[region];
        if region > 0x08 || region < 0x02 {
            self.bus_prefetch_count = 0;
            self.bus_prefetch_enable = false;
        } else if self.bus_prefetch {
            let w: u8 = if value == 0 {
                1
            } else {
                value
            };
            self.advance_burst(w);
        }
        value
    }

    /// Charges a non-sequential 16-bit code fetch from the prefetch
    /// bookkeeping.
    pub fn code_ticks_access_16(&mut self, address: usize) -> (r: u8)
        requires
            old(self).wf(),
        ensures
            final(self).wf(),
            final(self)@ == code_ticks_16_st(old(self)@, address).0,
            r == code_ticks_16_st(old(self)@, address).1,
    {
        let region: usize = (address / 0x1000000) % 16;
        if region >= 0x08 && region <= 0x0D {
            if self.bus_prefetch_count & 0x1 != 0 {
                if self.bus_prefetch_count & 0x2 != 0 {
                    self.bus_prefetch_count = ((self.bus_prefetch_count & 0xFF) >> 2) | (
                    self.bus_prefetch_count & 0xFFFFFF00);
                    return 0;
                }
                self.bus_prefetch_count = ((self.bus_prefetch_count & 0xFF) >> 1) | (
                self.bus_prefetch_count & 0xFFFFFF00);
                self.memory_wait_seq[region] - 1
            } else {
                self.bus_prefetch_count = 0;
                self.memory_wait[region]
            }
        } else {
            self.bus_prefetch_count = 0;
            self.memory_wait[region]
        }
    }

    /// Charges a non-sequential 32-bit code fetch.
    pub fn code_ticks_access_32(&mut self, address: usize) -> (r: u8)
        requires
            old(self).wf(),
        ensures
            final(self).wf(),
            final(self)@ == code_ticks_32_st(old(self)@, address).0,
            r == code_ticks_32_st(old(self)@, address).1,
    {
        let region: usize = (address / 0x1000000) % 16;
        if region >= 0x08 && region <= 0x0D {
            if self.bus_prefetch_count & 0x1 != 0 {
                if self.bus_prefetch_count & 0x2 != 0 {
                    self.bus_prefetch_count = ((self.bus_prefetch_count & 0xFF) >> 2) | (
                    self.bus_prefetch_count & 0xFFFFFF00);
                    return 0;
                }
                self.bus_prefetch_count = ((self.bus_prefetch_count & 0xFF) >> 1) | (
                self.bus_prefetch_count & 0xFFFFFF00);
                self.memory_wait_seq[region] - 1
            } else {
                self.bus_prefetch_count = 0;
                self.memory_wait_32[region]
            }
        } else {
            self.bus_prefetch_count = 0;
            self.memory_wait_32[region]
        }
    }

    /// Charges a sequential 16-bit code fetch.
    pub fn code_ticks_access_seq_16(&mut self, address: usize) -> (r: u8)
        requires
            old(self).wf(),
        ensures
            final(self).wf(),
            final(self)@ == code_ticks_seq_16_st(old(self)@, address).0,
            r == code_ticks_seq_16_st(old(self)@, address).1,
    {
        let region: usize = (address / 0x1000000) % 16;
        if region >= 0x08 && region <= 0x0D {
            if self.bus_prefetch_count & 0x1 != 0 {
                self.bus_prefetch_count = ((self.bus_prefetch_count & 0xFF) >> 1) | (
                self.bus_prefetch_count & 0xFFFFFF00);
                0
            } else if self.bus_prefetch_count > 0xFF {
                self.bus_prefetch_count = 0;
                self.memory_wait[region]
            } else {
                self.memory_wait_seq[region]
            }
        } else {
            self.bus_prefetch_count = 0;
            self.memory_wait_seq[region]
        }
    }

    /// Charges a sequential 32-bit code fetch.
    pub fn code_ticks_access_seq_32(&mut self, address: usize) -> (r: u8)
        requires
            old(self).wf(),
        ensures
            final(self).wf(),
            final(self)@ == code_ticks_seq_32_st(old(self)@, address).0,
            r == code_ticks_seq_32_st(old(self)@, address).1,
    {
        let region: usize = (address / 0x1000000) % 16;
        if region >= 0x08 && region <= 0x0D {
            if self.bus_prefetch_count & 0x1 != 0 {
                if self.bus_prefetch_count & 0x2 != 0 {
                    self.bus_prefetch_count = ((self.bus_prefetch_count & 0xFF) >> 2) | (
                    self.bus_prefetch_count & 0xFFFFFF00);
                    return 0;
                }
                self.bus_prefetch_count = ((self.bus_prefetch_count & 0xFF) >> 1) | (
                self.bus_prefetch_count & 0xFFFFFF00);
                self.memory_wait_seq[region] - 1
            } else if self.bus_prefetch_count > 0xFF {
                self.bus_prefetch_count = 0;
                self.memory_wait_32[region]
            } else {
                self.memory_wait_seq_32[region]
            }
        } else {
            self.memory_wait_seq_32[region]
        }
    }

    /// Charges one bus access, dispatched on width, sequentiality and
    /// code-versus-data; reports the wait states and updates the prefetch
    /// bookkeeping as the matching access function does.
    pub fn fetch_cycles(&mut self, address: usize, width32: bool, sequential: bool, is_code: bool)
        -> (r: u8)
        requires
            old(self).wf(),
        ensures
            final(self).wf(),
            !is_code && !width32 && !sequential ==> final(self)@ == data_ticks_16_st(
                old(self)@,
                address,
            ) && r == wait_n16_at(region_of(address as int)),
            !is_code && width32 && !sequential ==> final(self)@ == data_ticks_32_st(
                old(self)@,
                address,
            ) && r == wait_n32_at(region_of(address as int)),
            !is_code && !width32 && sequential ==> final(self)@ == data_ticks_seq_16_st(
                old(self)@,
                address,
            ) && r == wait_s16_at(region_of(address as int)),
            !is_code && width32 && sequential ==> final(self)@ == data_ticks_seq_32_st(
                old(self)@,
                address,
            ) && r == wait_s32_at(region_of(address as int)),
            is_code && !width32 && !sequential ==> final(self)@ == code_ticks_16_st(
                old(self)@,
                address,
            ).0 && r == code_ticks_16_st(old(self)@, address).1,
            is_code && width32 && !sequential ==> final(self)@ == code_ticks_32_st(
                old(self)@,
                address,
            ).0 && r == code_ticks_32_st(old(self)@, address).1,
            is_code && !width32 && sequential ==> final(self)@ == code_ticks_seq_16_st(
                old(self)@,
                address,
            ).0 && r == code_ticks_seq_16_st(old(self)@, address).1,
            is_code && width32 && sequential ==> final(self)@ == code_ticks_seq_32_st(
                old(self)@,
                address,
            ).0 && r == code_ticks_seq_32_st(old(self)@, address).1,
    {
        if is_code {
            if width32 {
                if sequential {
                    self.code_ticks_access_seq_32(address)
                } else {
                    self.code_ticks_access_32(address)
                }
            } else {
                if sequential {
                    self.code_ticks_access_seq_16(address)
                } else {
                    self.code_ticks_access_16(address)
                }
            }
        } else {
            if width32 {
                if sequential {
                    self.data_ticks_access_seq_32(address)
                } else {
                    self.data_ticks_access_32(address)
                }
            } else {
                if sequential {
                    self.data_ticks_access_seq_16(address)
                } else {
                    self.data_ticks_access_16(address)
                }
            }
        }
    }

    /// `cpu_switch_mode` with the interrupt signal enabled.
    pub fn cpu_switch_mode_s(&mut self, mode: i32, save_state: bool) -> (performed: bool)
        requires
            old(self).wf(),
        ensures
            final(self).wf(),
            performed == is_banked_mode(mode),
            performed ==> final(self)@ == switch_mode_st(old(self)@, mode, save_state, true),
            !performed ==> *final(self) == *old(self),
    {
        self.cpu_switch_mode(mode, save_state, true)
    }

    /// Refills the two-word prefetch buffer at the next fetch address.
    pub fn arm_prefetch(&mut self)
        requires
            old(self).wf(),
            old(self).arm_next_pc + 4 <= 0xFFFFFFFF,
        ensures
            final(self).wf(),
            final(self)@ == prefetch_st(old(self)@),
    {
        let pc15 = self.get_reg_i(15);
        let v0 = self.mem_map.read_32(self.arm_next_pc, &self.bios_protected, pc15);
        self.cpu_prefetch.set(0, v0);
        let v1 = self.mem_map.read_32(self.arm_next_pc + 4, &self.bios_protected, pc15);
        self.cpu_prefetch.set(1, v1);
        proof {
            assert(self@ =~= prefetch_st(old(self)@));
        }
    }

    /// Resets the core to power-on state: all register slots zeroed, SVC
    /// mode, irq disabled, 32-bit width, flags clear, CPSR bit 6 forced
    /// and re-synced; the prefetch buffer is primed at address 0 and the
    /// program counter advanced by 8 to restore the pipeline lookahead.
    pub fn reset(&mut self)
        requires
            old(self).wf(),
        ensures
            final(self).wf(),
            final(self)@ == reset_st(old(self)@),
            final(self)@.mode == 0x13,
            !final(self)@.irq_enable,
            final(self)@.arm_state,
            !final(self)@.n && !final(self)@.z && !final(self)@.c && !final(self)@.v,
            final(self)@.regs[16] == 0xD3,
            final(self)@.regs[15] == 8,
            final(self)@.prefetch[0] == read32_spec(old(self)@.mem, decoy_pattern(), 0, 0),
            final(self)@.prefetch[1] == read32_spec(old(self)@.mem, decoy_pattern(), 0, 4),
    {
        let mut i: usize = 0;
        while i < 45
            invariant
                i <= 45,
                self.regs.len() == 45,
                forall|j: int| 0 <= j < 45 ==> (#[trigger] self.regs@[j]) is I,
                forall|j: int| 0 <= j < i ==> reg_val(#[trigger] self.regs@[j]) == 0,
                *self == (Cpu { regs: self.regs, ..*old(self) }),
            decreases 45 - i,
        {
            self.regs.set(i, Reg::I(0));
            i = i + 1;
        }
        proof {
            assert(self@.regs =~= Seq::new(45, |k: int| 0u32));
        }
        self.arm_mode = 0x1F;
        self.set_reg_i(15, 0);
        self.arm_mode = 0x13;
        self.arm_irq_enable = false;
        self.arm_state = true;
        self.c_flag = false;
        self.v_flag = false;
        self.n_flag = false;
        self.z_flag = false;
        let v16 = self.get_reg_i(16);
        proof {
            assert(v16 == 0);
            assert(0u32 | 0x40u32 == 0x40u32) by (bit_vector);
        }
        self.set_reg_i(16, v16 | 0x40);
        proof {
            assert(self@.regs =~= Seq::new(45, |k: int| 0u32).update(16, 0x40u32));
        }
        self.cpu_update_cpsr();
        let pc = self.get_reg_i(15);
        self.arm_next_pc = pc;
        self.arm_prefetch();
        let pc2 = self.get_reg_i(15);
        self.set_reg_i(15, pc2 + 8);
        proof {
            assert(0x40u32 & 0x40u32 == 0x40u32) by (bit_vector);
            assert(0x40u32 | 0x80u32 == 0xC0u32) by (bit_vector);
            assert(0x13i32 & 0x1F == 0x13i32) by (bit_vector);
            assert(0xC0u32 | 0x13u32 == 0xD3u32) by (bit_vector);
            assert(self@ =~= reset_st(old(self)@));
        }
    }

    /// Enters the undefined-instruction exception: switches to UND mode
    /// capturing the pre-exception CPSR, sets the link register to the
    /// faulting address minus one instruction width, restarts execution at
    /// the exception vector with 32-bit width and irq disabled, and
    /// refills the prefetch buffer there.
    pub fn cpu_undefined_exception(&mut self)
        requires
            old(self).wf(),
            old(self)@.arm_state ==> old(self)@.regs[15] >= 4,
            !old(self)@.arm_state ==> old(self)@.regs[15] >= 2,
        ensures
            final(self).wf(),
            final(self)@ == undef_exception_st(old(self)@),
            final(self)@.regs[15] == 12,
            final(self)@.mode == 0x1B,
            final(self)@.arm_state,
            !final(self)@.irq_enable,
            final(self)@.regs[14] == (if old(self)@.arm_state {
                (old(self)@.regs[15] - 4) as u32
            } else {
                (old(self)@.regs[15] - 2) as u32
            }),
    {
        let pc = self.get_reg_i(15);
        let saved_arm_state = self.arm_state;
        self.cpu_switch_mode(0x1B, true, false);
        if saved_arm_state {
            self.set_reg_i(14, pc - 4);
        } else {
            self.set_reg_i(14, pc - 2);
        }
        self.set_reg_i(15, 0x04);
        self.arm_state = true;
        self.arm_irq_enable = false;
        self.arm_next_pc = 0x04;
        self.arm_prefetch();
        let pc2 = self.get_reg_i(15);
        self.set_reg_i(15, pc2 + 8);
        self.cpu_update_cpsr();
        proof {
            assert(self@ =~= undef_exception_st(old(self)@));
        }
    }

    /// Reads an 8-bit value from the guest address space, under the BIOS
    /// protection policy at the current program counter.
    pub fn read_8(&self, address: u32) -> (r: u8)
        requires
            self.wf(),
        ensures
            r == read8_spec(self@.mem, decoy_pattern(), self@.regs[15], address),
    {
        let pc = self.get_reg_i(15);
        self.mem_map.read_8(address, &self.bios_protected, pc)
    }

    /// Reads a 16-bit value from the guest address space.
    pub fn read_16(&self, address: u32) -> (r: u16)
        requires
            self.wf(),
        ensures
            r == read16_spec(self@.mem, decoy_pattern(), self@.regs[15], address),
    {
        let pc = self.get_reg_i(15);
        self.mem_map.read_16(address, &self.bios_protected, pc)
    }

    /// Reads a 32-bit value from the guest address space.
    pub fn read_32(&self, address: u32) -> (r: u32)
        requires
            self.wf(),
        ensures
            r == read32_spec(self@.mem, decoy_pattern(), self@.regs[15], address),
    {
        let pc = self.get_reg_i(15);
        self.mem_map.read_32(address, &self.bios_protected, pc)
    }

    /// Writes an 8-bit value to the guest address space; read-only and
    /// unassigned regions discard the write.
    pub fn write_8(&mut self, address: u32, value: u8)
        requires
            old(self).wf(),
        ensures
            final(self).wf(),
            final(self)@ == (CpuState {
                mem: write8_spec(old(self)@.mem, address, value),
                ..old(self)@
            }),
    {
        self.mem_map.write_8(address, value);
    }

    /// Writes a 16-bit value to the guest address space.
    pub fn write_16(&mut self, address: u32, value: u16)
        requires
            old(self).wf(),
        ensures
            final(self).wf(),
            final(self)@ == (CpuState {
                mem: write16_spec(old(self)@.mem, address, value),
                ..old(self)@
            }),
    {
        self.mem_map.write_16(address, value);
    }

    /// Writes a 32-bit value to the guest address space.
    pub fn write_32(&mut self, address: u32, value: u32)
        requires
            old(self).wf(),
        ensures
            final(self).wf(),
            final(self)@ == (CpuState {
                mem: write32_spec(old(self)@.mem, address, value),
                ..old(self)@
            }),
    {
        self.mem_map.write_32(address, value);
    }

    /// Copies `data` into the backing buffer at `offset`; the external
    /// loader populates the BIOS and cartridge regions through this at
    /// construction.
    pub fn load(&mut self, offset: u32, data: &Vec<u8>)
        requires
            old(self).wf(),
            offset + data@.len() <= old(self)@.mem.len(),
        ensures
            final(self).wf(),
            final(self)@.mem.len() == old(self)@.mem.len(),
            forall|i: int| 0 <= i < data@.len() ==> final(self)@.mem[offset + i] == data@[i],
            forall|i: int|
                0 <= i < old(self)@.mem.len() && !(offset <= i < offset + data@.len())
                    ==> final(self)@.mem[i] == old(self)@.mem[i],
            final(self)@ == (CpuState { mem: final(self)@.mem, ..old(self)@ }),
    {
        self.mem_map.load(offset, data);
    }

    /// Builds a core with the fixed wait-state tables, the
    /// population-count table, a zeroed register file and a fresh address
    /// map.
    pub fn new() -> (r: Cpu)
        ensures
            r.wf(),
            r@ == initial_cpu_st(),
    {
        let mut bits: Vec<u8> = Vec::new();
        let mut i: usize = 0;
        while i < 256
            invariant
                i <= 256,
                bits.len() == i,
                forall|j: int| 0 <= j < i ==> #[trigger] bits@[j] == count_ones(j as nat),
            decreases 256 - i,
        {
            let mut x: usize = i;
            let mut cnt: u8 = 0;
            proof {
                lemma_count_ones_le_self(i as nat);
            }
            while x > 0
                invariant
                    i < 256,
                    cnt + count_ones(x as nat) == count_ones(i as nat),
                    count_ones(i as nat) <= 255,
                decreases x,
            {
                cnt = cnt + (x % 2) as u8;
                x = x / 2;
            }
            bits.push(cnt);
            i = i + 1;
        }
        let mut regs: Vec<Reg> = Vec::new();
        let mut k: usize = 0;
        while k < 45
            invariant
                k <= 45,
                regs.len() == k,
                forall|j: int| 0 <= j < k ==> (#[trigger] regs@[j]) is I,
                forall|j: int| 0 <= j < k ==> reg_val(#[trigger] regs@[j]) == 0,
            decreases 45 - k,
        {
            regs.push(Reg::I(0));
            k = k + 1;
        }
        let mut cpu_prefetch: Vec<u32> = Vec::new();
        cpu_prefetch.push(0);
        cpu_prefetch.push(0);
        let mut memory_wait: Vec<u8> = Vec::new();
        memory_wait.push(0);
        memory_wait.push(0);
        memory_wait.push(2);
        memory_wait.push(0);
        memory_wait.push(0);
        memory_wait.push(0);
        memory_wait.push(0);
        memory_wait.push(0);
        memory_wait.push(4);
        memory_wait.push(4);
        memory_wait.push(4);
        memory_wait.push(4);
        memory_wait.push(4);
        memory_wait.push(4);
        memory_wait.push(4);
        memory_wait.push(0);
        let mut memory_wait_32: Vec<u8> = Vec::new();
        memory_wait_32.push(0);
        memory_wait_32.push(0);
        memory_wait_32.push(5);
        memory_wait_32.push(0);
        memory_wait_32.push(0);
        memory_wait_32.push(1);
        memory_wait_32.push(1);
        memory_wait_32.push(0);
        memory_wait_32.push(7);
        memory_wait_32.push(7);
        memory_wait_32.push(9);
        memory_wait_32.push(9);
        memory_wait_32.push(13);
        memory_wait_32.push(13);
        memory_wait_32.push(4);
        memory_wait_32.push(0);
        let mut memory_wait_seq: Vec<u8> = Vec::new();
        memory_wait_seq.push(0);
        memory_wait_seq.push(0);
        memory_wait_seq.push(2);
        memory_wait_seq.push(0);
        memory_wait_seq.push(0);
        memory_wait_seq.push(0);
        memory_wait_seq.push(0);
        memory_wait_seq.push(0);
        memory_wait_seq.push(2);
        memory_wait_seq.push(2);
        memory_wait_seq.push(4);
        memory_wait_seq.push(4);
        memory_wait_seq.push(8);
        memory_wait_seq.push(8);
        memory_wait_seq.push(4);
        memory_wait_seq.push(0);
        let mut memory_wait_seq_32: Vec<u8> = Vec::new();
        memory_wait_seq_32.push(0);
        memory_wait_seq_32.push(0);
        memory_wait_seq_32.push(5);
        memory_wait_seq_32.push(0);
        memory_wait_seq_32.push(0);
        memory_wait_seq_32.push(1);
        memory_wait_seq_32.push(1);
        memory_wait_seq_32.push(0);
        memory_wait_seq_32.push(5);
        memory_wait_seq_32.push(5);
        memory_wait_seq_32.push(9);
        memory_wait_seq_32.push(9);
        memory_wait_seq_32.push(17);
        memory_wait_seq_32.push(17);
        memory_wait_seq_32.push(4);
        memory_wait_seq_32.push(0);
        let mut bios_protected: Vec<u8> = Vec::new();
        bios_protected.push(0x00);
        bios_protected.push(0xF0);
        bios_protected.push(0x29);
        bios_protected.push(0xE1);
        let cpu = Cpu {
            regs,
            cpu_bits_set: bits,
            cpu_prefetch,
            n_flag: false,
            c_flag: false,
            z_flag: false,
            v_flag: false,
            arm_state: true,
            arm_irq_enable: true,
            arm_next_pc: 0,
            arm_mode: 0x1F,
            bus_prefetch: false,
            bus_prefetch_enable: false,
            bus_prefetch_count: 0,
            memory_wait,
            memory_wait_32,
            memory_wait_seq,
            memory_wait_seq_32,
            g_ie: 0x0000,
            g_if: 0x0000,
            g_ime: 0x0000,
            cpu_next_event: 0,
            cpu_total_ticks: 0,
            mem_map: MemMap::new(),
            bios_protected,
        };
        proof {
            assert(cpu.bios_protected@ =~= decoy_pattern());
            assert(cpu@.regs =~= Seq::new(45, |i: int| 0u32));
            assert(cpu@.prefetch =~= seq![0u32, 0u32]);
            assert(cpu@ =~= initial_cpu_st());
        }
        cpu
    }
}

/// Law: on a first access with no prior prefetch bookkeeping, every code
/// fetch charges exactly its wait-state table's fixed constant for the
/// address's region. (The data access functions charge their table's
/// constant on every access, stated directly in their contracts.)
pub proof fn lemma_first_access_cost(s: CpuState, address: usize)
    requires
        s.count == 0,
        !s.bus_prefetch,
    ensures
        code_ticks_16_st(s, address).1 == wait_n16_at(region_of(address as int)),
        code_ticks_32_st(s, address).1 == wait_n32_at(region_of(address as int)),
        code_ticks_seq_16_st(s, address).1 == wait_s16_at(region_of(address as int)),
        code_ticks_seq_32_st(s, address).1 == wait_s32_at(region_of(address as int)),
{
    assert(0u32 & 0x1 == 0) by (bit_vector);
}

/// Law: switching between USR and SYS preserves the live r13/r14: the two
/// modes alias one banked r13/r14 pair (and mirror the CPSR rather than
/// keeping an SPSR of their own), so a value written in one is visible in
/// the other.
pub proof fn lemma_usr_sys_alias(s: CpuState, t: i32, save: bool, brk: bool)
    requires
        s.regs.len() == 45,
        usr_sys(s.mode),
        usr_sys(t),
    ensures
        switch_mode_st(s, t, save, brk).regs[13] == s.regs[13],
        switch_mode_st(s, t, save, brk).regs[14] == s.regs[14],
{
}

/// Law: switching away from a mode and later back restores its banked
/// r13/r14 exactly, and its SPSR where the mode has one, for any
/// intervening evolution that leaves that mode's banked slots untouched.
/// `mid` is the state just before the switch back: still in the target
/// mode, agreeing with the post-switch state on the original mode's
/// banked slots.
#[verifier::rlimit(100)]
#[verifier::spinoff_prover]
pub proof fn lemma_bank_round_trip(
    s: CpuState,
    t: i32,
    save1: bool,
    brk1: bool,
    mid: CpuState,
    brk2: bool,
)
    requires
        s.regs.len() == 45,
        is_banked_mode(s.mode),
        is_banked_mode(t),
        s.mode != t,
        !(usr_sys(s.mode) && usr_sys(t)),
        mid.regs.len() == 45,
        mid.mode == t,
        mid.regs[r13_slot(s.mode)] == switch_mode_st(s, t, save1, brk1).regs[r13_slot(s.mode)],
        mid.regs[r14_slot(s.mode)] == switch_mode_st(s, t, save1, brk1).regs[r14_slot(s.mode)],
        has_spsr(s.mode) ==> mid.regs[spsr_slot(s.mode)] == switch_mode_st(
            s,
            t,
            save1,
            brk1,
        ).regs[spsr_slot(s.mode)],
    ensures
        switch_mode_st(mid, s.mode, false, brk2).regs[13] == s.regs[13],
        switch_mode_st(mid, s.mode, false, brk2).regs[14] == s.regs[14],
        has_spsr(s.mode) ==> switch_mode_st(mid, s.mode, false, brk2).regs[17] == s.regs[17],
{
}

} // verus!

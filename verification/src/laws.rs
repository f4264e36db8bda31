//! Laws that hold across the emulator's components, stated over the same
//! spec functions the components' own contracts use.

use vstd::prelude::*;

use crate::cpu::{
    Cpu, Reg8, Reg16, Registers, regs_wf, spec_add_a, spec_flags, spec_r8, spec_r16, spec_sub_a,
    spec_with_r8, spec_with_r16, spec_zf,
};
use crate::memory::{Memory, spec_mem_read, spec_mem_read16, spec_write16_post, spec_write_post};
use crate::ppu::{
    Ppu, spec_bit, spec_ppu_read, spec_ppu_write, spec_set_ly, spec_stat_with_coincidence,
};

verus! {

/// The low nibble of F is zero in every reachable register file: it starts
/// zero, and every write path through the register file preserves it.  The
/// flag byte itself is always a multiple of sixteen.
pub proof fn lemma_f_low_nibble_zero(r: Registers, reg8: Reg8, v8: u8, reg16: Reg16, v16: u16, z:
    bool, n: bool, h: bool, c: bool)
    requires
        regs_wf(r),
    ensures
        regs_wf(spec_with_r8(r, reg8, v8)),
        regs_wf(spec_with_r16(r, reg16, v16)),
        spec_flags(z, n, h, c) % 16 == 0,
        spec_r8(r, Reg8::F) % 16 == 0,
{
    crate::cpu::lemma_with_r8_wf(r, reg8, v8);
    crate::cpu::lemma_with_r16_wf(r, reg16, v16);
    assert(spec_r8(r, Reg8::F) % 16 == 0) by (nonlinear_arith)
        requires
            r.af % 16 == 0,
            spec_r8(r, Reg8::F) == (r.af % 256) as u8,
    ;
}

/// One scanline's mode budgets sum to 456 T-cycles, and the 154 scanlines
/// of a frame sum to 70224.
pub proof fn lemma_frame_budget()
    ensures
        80 + 172 + 204 == 456,
        154 * 456 == 70224,
        crate::emulator::frame_cycles() == 154 * 456,
{
}

/// Any LY update leaves STAT bit 2 equal to (LY == LYC), whatever STAT
/// held before.
pub proof fn lemma_ly_coincidence(p: Ppu, v: u8)
    ensures
        spec_set_ly(p, v).ly == v,
        spec_bit(spec_set_ly(p, v).stat, 2) == if v == p.lyc {
            1int
        } else {
            0int
        },
{
    let eq = v == p.lyc;
    let s = spec_stat_with_coincidence(p.stat, eq);
    assert(spec_bit(s, 2) == if eq {
        1int
    } else {
        0int
    }) by (nonlinear_arith)
        requires
            s == p.stat - ((p.stat / 4) % 2) * 4 + if eq {
                4int
            } else {
                0int
            },
    ;
}

/// Writing a plainly stored PPU register and reading it back returns the
/// written value; STAT returns it masked to its writable upper five bits,
/// ORed with the preserved low three.
pub proof fn lemma_ppu_write_then_read(p: Ppu, address: u16, value: u8)
    requires
        address == 0xFF42 || address == 0xFF43 || address == 0xFF45 || address == 0xFF47 || address
            == 0xFF48 || address == 0xFF49 || address == 0xFF4A || address == 0xFF4B || address
            == 0xFF41,
    ensures
        address != 0xFF41 ==> spec_ppu_read(spec_ppu_write(p, address, value), address) == value,
        address == 0xFF41 ==> spec_ppu_read(spec_ppu_write(p, address, value), address) == (value
            / 8) * 8 + p.stat % 8,
{
}

/// PUSH rr then POP rr restores the pair (AF keeps its low nibble masked
/// to zero) and restores SP, for a stack kept in working or echo RAM.
#[verifier::rlimit(100)]
#[verifier::spinoff_prover]
pub proof fn lemma_push_pop_round_trip(
    c0: Cpu,
    m0: Memory,
    c1: Cpu,
    m1: Memory,
    c2: Cpu,
    reg: Reg16,
)
    requires
        crate::memory::mem_wf(m0),
        0xC002 <= c0.registers.sp <= 0xFE00,
        c1 == (Cpu {
            registers: spec_with_r16(
                c0.registers,
                Reg16::SP,
                ((c0.registers.sp + 0x10000 - 2) % 0x10000) as u16,
            ),
            ..c0
        }),
        spec_write16_post(
            m0,
            m1,
            ((c0.registers.sp + 0x10000 - 2) % 0x10000) as u16,
            spec_r16(c0.registers, reg),
        ),
        c2 == (Cpu {
            registers: ({
                let r1 = spec_with_r16(
                    c1.registers,
                    reg,
                    spec_mem_read16(m1, c1.registers.sp),
                );
                spec_with_r16(r1, Reg16::SP, ((spec_r16(r1, Reg16::SP) + 2) % 0x10000) as u16)
            }),
            ..c1
        }),
        !(reg is SP) && !(reg is PC),
    ensures
        reg is AF ==> spec_r16(c2.registers, reg) == spec_r16(c0.registers, reg) - spec_r16(
            c0.registers,
            reg,
        ) % 16,
        !(reg is AF) ==> spec_r16(c2.registers, reg) == spec_r16(c0.registers, reg),
        c2.registers.sp == c0.registers.sp,
{
    reveal(crate::memory::spec_mem_read);
    reveal(crate::memory::spec_mem_read16);
    reveal(crate::memory::spec_write_post);
    reveal(crate::memory::spec_write16_post);
    let sp = c0.registers.sp as int;
    let addr = ((sp + 0x10000 - 2) % 0x10000) as u16;
    assert(addr == sp - 2);
    let v = spec_r16(c0.registers, reg);
    let lo = (v % 256) as u8;
    let hi = (v / 256) as u8;
    let mid = choose|mid: Memory|
        #[trigger] spec_write_post(m0, mid, addr, lo) && spec_write_post(
            mid,
            m1,
            ((addr + 1) % 0x10000) as u16,
            hi,
        );
    assert(((addr + 1) % 0x10000) as u16 == sp - 1);
    assert(mid.main_memory@ == m0.main_memory@.update(sp - 2, lo));
    assert(m0.main_memory@.len() == 0x10000);
    assert(mid.main_memory@.len() == 0x10000);
    assert(m1.main_memory@.len() == 0x10000);
    assert(m1.main_memory@ == mid.main_memory@.update(sp - 1, hi));
    assert(spec_mem_read(m1, addr) == lo);
    assert(spec_mem_read(m1, ((sp - 1) % 0x10000) as u16) == hi);
    assert(spec_mem_read16(m1, addr) == hi * 256 + lo);
    assert(hi * 256 + lo == v) by (nonlinear_arith)
        requires
            lo == v % 256,
            hi == v / 256,
    ;
}

/// ADD A, n then SUB A, n restores A, and the zero flag afterwards holds
/// exactly when A is zero (so a zero A leaves Z set).
pub proof fn lemma_add_sub_round_trip(r: Registers, n: u8)
    ensures
        spec_r8(spec_sub_a(spec_add_a(r, n, 0), n, 0), Reg8::A) == spec_r8(r, Reg8::A),
        spec_zf(spec_r8(spec_sub_a(spec_add_a(r, n, 0), n, 0), Reg8::F)) == (spec_r8(r, Reg8::A)
            == 0),
{
    let a = spec_r8(r, Reg8::A);
    let a1 = ((a + n) % 256) as u8;
    let r1 = spec_add_a(r, n, 0);
    assert(spec_r8(r1, Reg8::A) == a1) by (nonlinear_arith)
        requires
            r1.af == ((a1 * 256 + (r.af % 256)) / 256) * 256 + (spec_flags(
                a1 == 0,
                false,
                a % 16 + n % 16 > 15,
                a + n > 255,
            ) / 16) * 16,
            spec_r8(r1, Reg8::A) == (r1.af / 256) as u8,
    ;
    let a2 = ((a1 + 256 - n) % 256) as u8;
    assert(a2 == a) by (nonlinear_arith)
        requires
            a1 == (a + n) % 256,
            a2 == (a1 + 256 - n) % 256,
            a < 256,
            n < 256,
    ;
    let r2 = spec_sub_a(r1, n, 0);
    assert(spec_r8(r2, Reg8::F) == spec_flags(a2 == 0, true, (spec_r8(r1, Reg8::A) % 16) < (n
        % 16), (spec_r8(r1, Reg8::A) as int) < n as int)) by (nonlinear_arith)
        requires
            r2.af == ((spec_flags(
                a2 == 0,
                true,
                (spec_r8(r1, Reg8::A) % 16) < (n % 16) + 0,
                (spec_r8(r1, Reg8::A) as int) < n + 0,
            ) / 16) * 16 + ((a2 * 256 + (r1.af % 256)) / 256) * 256) as u16,
    ;
    assert(spec_zf(spec_flags(a2 == 0, true, (spec_r8(r1, Reg8::A) % 16) < (n % 16), (spec_r8(
        r1,
        Reg8::A,
    ) as int) < n as int)) == (a2 == 0)) by (nonlinear_arith);
}

} // verus!

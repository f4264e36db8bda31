//! The Sharp LR35902-class CPU: six 16-bit register pairs, the
//! fetch/decode/execute loop over 256 primary and 256 CB-prefixed opcodes,
//! flag semantics, the one-instruction EI delay, the HALT bug, and
//! interrupt dispatch.  The low nibble of F is zero in every reachable
//! state.

use vstd::prelude::*;

use crate::memory::{
    Memory, mem_wf, spec_mem_read, spec_mem_read16, spec_write16_post, spec_write_post,
};

verus! {

#[derive(Debug, Clone, Copy, PartialEq, Eq)]
pub enum Reg8 {
    A,
    B,
    C,
    D,
    E,
    H,
    L,
    F,
}

#[derive(Debug, Clone, Copy, PartialEq, Eq)]
pub enum Reg16 {
    AF,
    BC,
    DE,
    HL,
    SP,
    PC,
}

/// An 8-bit operand: a register, or the byte addressed by HL, BC or DE.
#[derive(Debug, Clone, Copy, PartialEq, Eq)]
pub enum Operand {
    Reg8(Reg8),
    Reg16(Reg16),
    MemHL,
    MemBC,
    MemDE,
}

/// Whether an operand is one of the five 8-bit forms (the `Reg16` variant
/// exists only to mirror the decoder's operand space).
pub open spec fn operand_is_8bit(op: Operand) -> bool {
    !(op is Reg16)
}

impl Operand {
    /// The operand encoded by the three low bits of an opcode:
    /// B, C, D, E, H, L, (HL), A in that order.
    pub fn from_index(idx: u8) -> (op: Operand)
        requires
            idx < 8,
        ensures
            op == spec_operand_from_index(idx),
            operand_is_8bit(op),
    {
        if idx == 0 {
            Operand::Reg8(Reg8::B)
        } else if idx == 1 {
            Operand::Reg8(Reg8::C)
        } else if idx == 2 {
            Operand::Reg8(Reg8::D)
        } else if idx == 3 {
            Operand::Reg8(Reg8::E)
        } else if idx == 4 {
            Operand::Reg8(Reg8::H)
        } else if idx == 5 {
            Operand::Reg8(Reg8::L)
        } else if idx == 6 {
            Operand::MemHL
        } else {
            Operand::Reg8(Reg8::A)
        }
    }
}

/// The operand the three low bits of an opcode select.
pub open spec fn spec_operand_from_index(idx: u8) -> Operand {
    if idx == 0 {
        Operand::Reg8(Reg8::B)
    } else if idx == 1 {
        Operand::Reg8(Reg8::C)
    } else if idx == 2 {
        Operand::Reg8(Reg8::D)
    } else if idx == 3 {
        Operand::Reg8(Reg8::E)
    } else if idx == 4 {
        Operand::Reg8(Reg8::H)
    } else if idx == 5 {
        Operand::Reg8(Reg8::L)
    } else if idx == 6 {
        Operand::MemHL
    } else {
        Operand::Reg8(Reg8::A)
    }
}

pub struct Registers {
    pub af: u16,
    pub bc: u16,
    pub de: u16,
    pub hl: u16,
    pub sp: u16,
    pub pc: u16,
    /// The interrupt master enable, 0 or 1.
    pub ime: u8,
}

pub struct Cpu {
    pub registers: Registers,
    /// Cumulative T-cycles consumed.
    pub cycles: u64,
    /// Set by EI: IME turns on only after the next instruction.
    pub ei_pending: bool,
    /// Halted until an interrupt is pending.
    pub halted: bool,
    /// One-shot latch of the HALT bug: the next instruction executes but PC
    /// does not advance.
    pub halt_bug: bool,
}

/// The register-file invariant: the low nibble of F is always zero.
pub open spec fn regs_wf(r: Registers) -> bool {
    r.af % 16 == 0
}

/// The CPU invariant.
pub open spec fn cpu_wf(c: Cpu) -> bool {
    regs_wf(c.registers)
}

/// The value of an 8-bit register inside its pair.
pub open spec fn spec_r8(r: Registers, reg: Reg8) -> u8 {
    match reg {
        Reg8::A => (r.af / 256) as u8,
        Reg8::B => (r.bc / 256) as u8,
        Reg8::C => (r.bc % 256) as u8,
        Reg8::D => (r.de / 256) as u8,
        Reg8::E => (r.de % 256) as u8,
        Reg8::H => (r.hl / 256) as u8,
        Reg8::L => (r.hl % 256) as u8,
        Reg8::F => (r.af % 256) as u8,
    }
}

/// The value of a 16-bit register pair.
pub open spec fn spec_r16(r: Registers, reg: Reg16) -> u16 {
    match reg {
        Reg16::AF => r.af,
        Reg16::BC => r.bc,
        Reg16::DE => r.de,
        Reg16::HL => r.hl,
        Reg16::SP => r.sp,
        Reg16::PC => r.pc,
    }
}

/// The register file after writing an 8-bit register; writes to F mask its
/// low nibble away.
pub open spec fn spec_with_r8(r: Registers, reg: Reg8, v: u8) -> Registers {
    match reg {
        Reg8::A => Registers { af: (v * 256 + r.af % 256) as u16, ..r },
        Reg8::B => Registers { bc: (v * 256 + r.bc % 256) as u16, ..r },
        Reg8::C => Registers { bc: ((r.bc / 256) * 256 + v) as u16, ..r },
        Reg8::D => Registers { de: (v * 256 + r.de % 256) as u16, ..r },
        Reg8::E => Registers { de: ((r.de / 256) * 256 + v) as u16, ..r },
        Reg8::H => Registers { hl: (v * 256 + r.hl % 256) as u16, ..r },
        Reg8::L => Registers { hl: ((r.hl / 256) * 256 + v) as u16, ..r },
        Reg8::F => Registers { af: ((r.af / 256) * 256 + (v / 16) * 16) as u16, ..r },
    }
}

/// The register file after writing a 16-bit pair; writes to AF mask F's low
/// nibble away.
pub open spec fn spec_with_r16(r: Registers, reg: Reg16, v: u16) -> Registers {
    match reg {
        Reg16::AF => Registers { af: (v - v % 16) as u16, ..r },
        Reg16::BC => Registers { bc: v, ..r },
        Reg16::DE => Registers { de: v, ..r },
        Reg16::HL => Registers { hl: v, ..r },
        Reg16::SP => Registers { sp: v, ..r },
        Reg16::PC => Registers { pc: v, ..r },
    }
}

/// The flag byte built from the four flags: Z bit 7, N bit 6, H bit 5,
/// C bit 4; the low nibble is zero.
pub open spec fn spec_flags(z: bool, n: bool, h: bool, c: bool) -> u8 {
    ((if z {
        128int
    } else {
        0int
    }) + (if n {
        64int
    } else {
        0int
    }) + (if h {
        32int
    } else {
        0int
    }) + (if c {
        16int
    } else {
        0int
    })) as u8
}

/// The zero flag of a flag byte.
pub open spec fn spec_zf(f: u8) -> bool {
    (f / 128) % 2 == 1
}

/// The subtract flag of a flag byte.
pub open spec fn spec_nf(f: u8) -> bool {
    (f / 64) % 2 == 1
}

/// The half-carry flag of a flag byte.
pub open spec fn spec_hf(f: u8) -> bool {
    (f / 32) % 2 == 1
}

/// The carry flag of a flag byte.
pub open spec fn spec_cf(f: u8) -> bool {
    (f / 16) % 2 == 1
}

/// The register file with all four flags replaced.
pub open spec fn spec_with_flags(r: Registers, z: bool, n: bool, h: bool, c: bool) -> Registers {
    spec_with_r8(r, Reg8::F, spec_flags(z, n, h, c))
}

/// The carry flag of the register file, as 0 or 1.
pub open spec fn spec_carry_in(r: Registers) -> u8 {
    if spec_cf(spec_r8(r, Reg8::F)) {
        1
    } else {
        0
    }
}

/// Multiplying by 256 then adding a byte keeps residues modulo 16, since
/// 256 is a multiple of 16; with both pieces nibble-free the sum is too.
proof fn lemma_mod16(hi: int, lo: int)
    by (nonlinear_arith)
    requires
        0 <= lo,
    ensures
        (hi * 256 + lo) % 16 == lo % 16,
        ((lo / 16) * 16) % 16 == 0,
        (lo - lo % 16) % 16 == 0,
{
}

/// Every register-file update preserves the F-low-nibble invariant.
pub proof fn lemma_with_r8_wf(r: Registers, reg: Reg8, v: u8)
    requires
        regs_wf(r),
    ensures
        regs_wf(spec_with_r8(r, reg, v)),
{
    match reg {
        Reg8::A => {
            lemma_mod16(r.af as int / 256, r.af as int % 256);
            lemma_mod16(v as int, r.af as int % 256);
            assert(r.af % 256 % 16 == 0) by (nonlinear_arith)
                requires
                    r.af % 16 == 0,
            ;
        },
        Reg8::F => {
            lemma_mod16(r.af as int / 256, ((v as int) / 16) * 16);
        },
        _ => {},
    }
}

pub proof fn lemma_with_r16_wf(r: Registers, reg: Reg16, v: u16)
    requires
        regs_wf(r),
    ensures
        regs_wf(spec_with_r16(r, reg, v)),
{
    if reg is AF {
        lemma_mod16(0, v as int);
    }
}

impl Registers {
    /// Read an 8-bit register out of its pair.
    pub fn read_r8(&self, register: Reg8) -> (v: u8)
        ensures
            v == spec_r8(*self, register),
    {
        match register {
            Reg8::A => (self.af / 256) as u8,
            Reg8::B => (self.bc / 256) as u8,
            Reg8::C => (self.bc % 256) as u8,
            Reg8::D => (self.de / 256) as u8,
            Reg8::E => (self.de % 256) as u8,
            Reg8::H => (self.hl / 256) as u8,
            Reg8::L => (self.hl % 256) as u8,
            Reg8::F => (self.af % 256) as u8,
        }
    }

    /// Read a 16-bit register pair.
    pub fn read_r16(&self, register: Reg16) -> (v: u16)
        ensures
            v == spec_r16(*self, register),
    {
        match register {
            Reg16::AF => self.af,
            Reg16::BC => self.bc,
            Reg16::DE => self.de,
            Reg16::HL => self.hl,
            Reg16::SP => self.sp,
            Reg16::PC => self.pc,
        }
    }

    /// Write an 8-bit register into its pair; a write to F drops its low
    /// nibble.
    pub fn write_r8(&mut self, register: Reg8, value: u8)
        requires
            regs_wf(*old(self)),
        ensures
            *final(self) == spec_with_r8(*old(self), register, value),
            regs_wf(*final(self)),
    {
        proof {
            lemma_with_r8_wf(*old(self), register, value);
        }
        match register {
            Reg8::A => self.af = (value as u16) * 256 + self.af % 256,
            Reg8::B => self.bc = (value as u16) * 256 + self.bc % 256,
            Reg8::C => self.bc = (self.bc / 256) * 256 + value as u16,
            Reg8::D => self.de = (value as u16) * 256 + self.de % 256,
            Reg8::E => self.de = (self.de / 256) * 256 + value as u16,
            Reg8::H => self.hl = (value as u16) * 256 + self.hl % 256,
            Reg8::L => self.hl = (self.hl / 256) * 256 + value as u16,
            Reg8::F => self.af = (self.af / 256) * 256 + ((value as u16) / 16) * 16,
        }
    }

    /// Write a 16-bit register pair; a write to AF drops F's low nibble.
    pub fn write_r16(&mut self, register: Reg16, value: u16)
        requires
            regs_wf(*old(self)),
        ensures
            *final(self) == spec_with_r16(*old(self), register, value),
            regs_wf(*final(self)),
    {
        proof {
            lemma_with_r16_wf(*old(self), register, value);
        }
        match register {
            Reg16::AF => self.af = value - value % 16,
            Reg16::BC => self.bc = value,
            Reg16::DE => self.de = value,
            Reg16::HL => self.hl = value,
            Reg16::SP => self.sp = value,
            Reg16::PC => self.pc = value,
        }
    }

    /// The interrupt master enable.
    pub fn read_ime(&self) -> (v: u8)
        ensures
            v == self.ime,
    {
        self.ime
    }

    /// Set the interrupt master enable.
    pub fn write_ime(&mut self, value: u8)
        ensures
            *final(self) == (Registers { ime: value, ..*old(self) }),
    {
        self.ime = value;
    }
}

/// The flag byte as an executable value.
fn make_flags(z: bool, n: bool, h: bool, c: bool) -> (f: u8)
    ensures
        f == spec_flags(z, n, h, c),
{
    (if z {
        128
    } else {
        0
    }) + (if n {
        64
    } else {
        0
    }) + (if h {
        32
    } else {
        0
    }) + (if c {
        16
    } else {
        0
    })
}

/// The byte one 8-bit operand denotes, given a CPU and bus state.
pub open spec fn spec_operand(c: Cpu, m: Memory, op: Operand) -> u8 {
    match op {
        Operand::Reg8(reg) => spec_r8(c.registers, reg),
        Operand::MemHL => spec_mem_read(m, c.registers.hl),
        Operand::MemBC => spec_mem_read(m, c.registers.bc),
        Operand::MemDE => spec_mem_read(m, c.registers.de),
        Operand::Reg16(_) => 0,
    }
}

/// How writing one 8-bit operand relates the old CPU and bus states to the
/// new: a register write lands in the register file, a memory operand goes
/// through the bus.
pub open spec fn operand_write_post(c0: Cpu, m0: Memory, c1: Cpu, m1: Memory, op: Operand, v: u8)
    -> bool {
    match op {
        Operand::Reg8(reg) => c1 == (Cpu { registers: spec_with_r8(c0.registers, reg, v), ..c0 })
            && m1 == m0,
        Operand::MemHL => c1 == c0 && spec_write_post(m0, m1, c0.registers.hl, v),
        Operand::MemBC => c1 == c0 && spec_write_post(m0, m1, c0.registers.bc, v),
        Operand::MemDE => c1 == c0 && spec_write_post(m0, m1, c0.registers.de, v),
        Operand::Reg16(_) => c1 == c0 && m1 == m0,
    }
}

/// The byte following the current opcode (the 8-bit immediate), read at
/// PC+1 with wraparound.
pub open spec fn spec_imm8(c: Cpu, m: Memory) -> u8 {
    spec_mem_read(m, ((c.registers.pc + 1) % 0x10000) as u16)
}

/// The 16-bit little-endian immediate at PC+1, with wraparound.
pub open spec fn spec_imm16(c: Cpu, m: Memory) -> u16 {
    spec_mem_read16(m, ((c.registers.pc + 1) % 0x10000) as u16)
}

/// An 8-bit immediate reinterpreted as a signed offset and sign-extended
/// to 16 bits, for relative jumps and SP adjustments.
pub open spec fn spec_sign_extend(v: u8) -> u16 {
    if v < 128 {
        v as u16
    } else {
        (v + 0xFF00) as u16
    }
}

impl Cpu {
    pub fn new() -> (c: Cpu)
        ensures
            c == (Cpu {
                registers: Registers { af: 0, bc: 0, de: 0, hl: 0, sp: 0, pc: 0, ime: 0 },
                cycles: 0,
                ei_pending: false,
                halted: false,
                halt_bug: false,
            }),
            cpu_wf(c),
    {
        Cpu {
            registers: Registers { af: 0, bc: 0, de: 0, hl: 0, sp: 0, pc: 0, ime: 0 },
            cycles: 0,
            ei_pending: false,
            halted: false,
            halt_bug: false,
        }
    }

    /// Read one 8-bit operand.
    fn read_operand(&self, mem: &Memory, op: Operand) -> (v: u8)
        requires
            operand_is_8bit(op),
            mem_wf(*mem),
        ensures
            v == spec_operand(*self, *mem, op),
    {
        match op {
            Operand::Reg8(reg) => self.registers.read_r8(reg),
            Operand::MemHL => mem.read_8(self.registers.read_r16(Reg16::HL)),
            Operand::MemBC => mem.read_8(self.registers.read_r16(Reg16::BC)),
            Operand::MemDE => mem.read_8(self.registers.read_r16(Reg16::DE)),
            Operand::Reg16(_) => 0,
        }
    }

    /// Write one 8-bit operand.
    fn write_operand(&mut self, mem: &mut Memory, op: Operand, value: u8)
        requires
            operand_is_8bit(op),
            cpu_wf(*old(self)),
            mem_wf(*old(mem)),
        ensures
            cpu_wf(*final(self)),
            mem_wf(*final(mem)),
            operand_write_post(*old(self), *old(mem), *final(self), *final(mem), op, value),
    {
        match op {
            Operand::Reg8(reg) => self.registers.write_r8(reg, value),
            Operand::MemHL => {
                let a = self.registers.read_r16(Reg16::HL);
                mem.write_8(a, value);
            },
            Operand::MemBC => {
                let a = self.registers.read_r16(Reg16::BC);
                mem.write_8(a, value);
            },
            Operand::MemDE => {
                let a = self.registers.read_r16(Reg16::DE);
                mem.write_8(a, value);
            },
            Operand::Reg16(_) => {},
        }
    }
}

/// A register file after an 8-bit addition into A (with optional carry-in):
/// Z from the result, N clear, H from the nibble sum, C from the byte sum.
pub open spec fn spec_add_a(r: Registers, v: u8, carry: u8) -> Registers {
    let a = spec_r8(r, Reg8::A);
    let result = ((a + v + carry) % 256) as u8;
    spec_with_flags(
        spec_with_r8(r, Reg8::A, result),
        result == 0,
        false,
        a % 16 + v % 16 + carry > 15,
        a + v + carry > 255,
    )
}

/// A register file after an 8-bit subtraction from A (with optional
/// borrow-in): Z from the result, N set, H from the nibble borrow, C from
/// the byte borrow.
pub open spec fn spec_sub_a(r: Registers, v: u8, carry: u8) -> Registers {
    let a = spec_r8(r, Reg8::A);
    let result = ((a + 256 - v - carry) % 256) as u8;
    spec_with_flags(
        spec_with_r8(r, Reg8::A, result),
        result == 0,
        true,
        (a % 16) < (v % 16) + carry,
        (a as int) < v + carry,
    )
}

/// A register file after CP: SUB's flags without writing A.
pub open spec fn spec_cp_a(r: Registers, v: u8) -> Registers {
    let a = spec_r8(r, Reg8::A);
    spec_with_flags(r, a == v, true, (a % 16) < (v % 16), a < v)
}

/// The rotated/shifted byte each CB operation produces.
pub open spec fn spec_rlc8(v: u8) -> u8 {
    ((v % 128) * 2 + v / 128) as u8
}

pub open spec fn spec_rrc8(v: u8) -> u8 {
    (v / 2 + (v % 2) * 128) as u8
}

pub open spec fn spec_rl8(v: u8, carry: u8) -> u8 {
    ((v % 128) * 2 + carry) as u8
}

pub open spec fn spec_rr8(v: u8, carry: u8) -> u8 {
    (v / 2 + carry * 128) as u8
}

pub open spec fn spec_swap8(v: u8) -> u8 {
    ((v % 16) * 16 + v / 16) as u8
}

impl Cpu {
    /// LD rr, nn: load the 16-bit immediate into a register pair.
    fn ld_r16_nn(&mut self, mem: &mut Memory, reg: Reg16)
        requires
            cpu_wf(*old(self)),
            mem_wf(*old(mem)),
        ensures
            cpu_wf(*final(self)),
            *final(mem) == *old(mem),
            *final(self) == (Cpu {
                registers: spec_with_r16(
                    old(self).registers,
                    reg,
                    spec_imm16(*old(self), *old(mem)),
                ),
                ..*old(self)
            }),
    {
        let value = mem.read_16(self.registers.read_r16(Reg16::PC).wrapping_add(1));
        self.registers.write_r16(reg, value);
    }

    /// LD r, n: load the 8-bit immediate into a register.
    fn ld_r8_n(&mut self, mem: &mut Memory, reg: Reg8)
        requires
            cpu_wf(*old(self)),
            mem_wf(*old(mem)),
        ensures
            cpu_wf(*final(self)),
            *final(mem) == *old(mem),
            *final(self) == (Cpu {
                registers: spec_with_r8(
                    old(self).registers,
                    reg,
                    spec_imm8(*old(self), *old(mem)),
                ),
                ..*old(self)
            }),
    {
        let value = mem.read_8(self.registers.read_r16(Reg16::PC).wrapping_add(1));
        self.registers.write_r8(reg, value);
    }

    /// LD dest, source over the 8-bit operand space.
    #[verifier::rlimit(100)]
    fn ld_operand(&mut self, mem: &mut Memory, dest: Operand, source: Operand)
        requires
            cpu_wf(*old(self)),
            mem_wf(*old(mem)),
            operand_is_8bit(dest),
            operand_is_8bit(source),
        ensures
            cpu_wf(*final(self)),
            mem_wf(*final(mem)),
            operand_write_post(
                *old(self),
                *old(mem),
                *final(self),
                *final(mem),
                dest,
                spec_operand(*old(self), *old(mem), source),
            ),
    {
        let value = self.read_operand(mem, source);
        self.write_operand(mem, dest, value);
    }

    /// LD (nn), A: store A at the 16-bit immediate address.
    #[verifier::rlimit(100)]
    fn ld_nn_a(&mut self, mem: &mut Memory)
        requires
            cpu_wf(*old(self)),
            mem_wf(*old(mem)),
        ensures
            cpu_wf(*final(self)),
            mem_wf(*final(mem)),
            *final(self) == *old(self),
            spec_write_post(
                *old(mem),
                *final(mem),
                spec_imm16(*old(self), *old(mem)),
                spec_r8(old(self).registers, Reg8::A),
            ),
    {
        let value = self.registers.read_r8(Reg8::A);
        let addr = mem.read_16(self.registers.read_r16(Reg16::PC).wrapping_add(1));
        mem.write_8(addr, value);
    }

    /// LD (HL), n: store the 8-bit immediate at the address in HL.
    #[verifier::rlimit(100)]
    fn ld_m_n(&mut self, mem: &mut Memory)
        requires
            cpu_wf(*old(self)),
            mem_wf(*old(mem)),
        ensures
            cpu_wf(*final(self)),
            mem_wf(*final(mem)),
            *final(self) == *old(self),
            spec_write_post(
                *old(mem),
                *final(mem),
                old(self).registers.hl,
                spec_imm8(*old(self), *old(mem)),
            ),
    {
        let value = mem.read_8(self.registers.read_r16(Reg16::PC).wrapping_add(1));
        let addr = self.registers.read_r16(Reg16::HL);
        mem.write_8(addr, value);
    }

    /// LD HL, SP+e: HL takes SP plus the signed immediate; Z and N clear,
    /// H and C from the unsigned low-byte addition.
    #[verifier::rlimit(100)]
    fn ld_sp_e(&mut self, mem: &mut Memory)
        requires
            cpu_wf(*old(self)),
            mem_wf(*old(mem)),
        ensures
            cpu_wf(*final(self)),
            *final(mem) == *old(mem),
            *final(self) == (Cpu {
                registers: ({
                    let e = spec_imm8(*old(self), *old(mem));
                    let sp = old(self).registers.sp;
                    spec_with_flags(
                        spec_with_r16(
                            old(self).registers,
                            Reg16::HL,
                            ((sp + spec_sign_extend(e)) % 0x10000) as u16,
                        ),
                        false,
                        false,
                        sp % 16 + e % 16 > 15,
                        sp % 256 + e > 255,
                    )
                }),
                ..*old(self)
            }),
    {
        let offset = mem.read_8(self.registers.read_r16(Reg16::PC).wrapping_add(1));
        let sp = self.registers.read_r16(Reg16::SP);
        let offset16: u16 = if offset < 128 {
            offset as u16
        } else {
            offset as u16 + 0xFF00
        };
        let result = sp.wrapping_add(offset16);
        self.registers.write_r16(Reg16::HL, result);
        let flags = make_flags(
            false,
            false,
            sp % 16 + (offset % 16) as u16 > 15,
            sp % 256 + offset as u16 > 255,
        );
        self.registers.write_r8(Reg8::F, flags);
        proof {
            assert((sp + spec_sign_extend(offset)) % 0x10000 == result) by (nonlinear_arith)
                requires
                    result == if sp + offset16 > 0xFFFF {
                        (sp + offset16 - 0x10000) as u16
                    } else {
                        (sp + offset16) as u16
                    },
                    offset16 == spec_sign_extend(offset),
                    offset16 < 0x10000,
                    sp < 0x10000,
            ;
        }
    }

    /// LD SP, HL.
    fn ld_sp_hl(&mut self, _mem: &mut Memory)
        requires
            cpu_wf(*old(self)),
        ensures
            cpu_wf(*final(self)),
            *final(_mem) == *old(_mem),
            *final(self) == (Cpu {
                registers: spec_with_r16(old(self).registers, Reg16::SP, old(self).registers.hl),
                ..*old(self)
            }),
    {
        let value = self.registers.read_r16(Reg16::HL);
        self.registers.write_r16(Reg16::SP, value);
    }

    /// LD (nn), SP: store SP at the immediate address, low byte first.
    #[verifier::rlimit(100)]
    fn ld_nn_sp(&mut self, mem: &mut Memory)
        requires
            cpu_wf(*old(self)),
            mem_wf(*old(mem)),
        ensures
            cpu_wf(*final(self)),
            mem_wf(*final(mem)),
            *final(self) == *old(self),
            spec_write16_post(
                *old(mem),
                *final(mem),
                spec_imm16(*old(self), *old(mem)),
                old(self).registers.sp,
            ),
    {
        let addr = mem.read_16(self.registers.read_r16(Reg16::PC).wrapping_add(1));
        let sp = self.registers.read_r16(Reg16::SP);
        mem.write_16(addr, sp);
    }

    /// LDH (n), A: store A at 0xFF00 + n.
    #[verifier::rlimit(100)]
    fn ldh_n_a(&mut self, mem: &mut Memory)
        requires
            cpu_wf(*old(self)),
            mem_wf(*old(mem)),
        ensures
            cpu_wf(*final(self)),
            mem_wf(*final(mem)),
            *final(self) == *old(self),
            spec_write_post(
                *old(mem),
                *final(mem),
                (0xFF00 + spec_imm8(*old(self), *old(mem))) as u16,
                spec_r8(old(self).registers, Reg8::A),
            ),
    {
        let value = self.registers.read_r8(Reg8::A);
        let offset = mem.read_8(self.registers.read_r16(Reg16::PC).wrapping_add(1));
        mem.write_8(0xFF00 + offset as u16, value);
    }

    /// LDH A, (n): load A from 0xFF00 + n.
    #[verifier::rlimit(100)]
    fn ldh_a_n(&mut self, mem: &mut Memory)
        requires
            cpu_wf(*old(self)),
            mem_wf(*old(mem)),
        ensures
            cpu_wf(*final(self)),
            *final(mem) == *old(mem),
            *final(self) == (Cpu {
                registers: spec_with_r8(
                    old(self).registers,
                    Reg8::A,
                    spec_mem_read(
                        *old(mem),
                        (0xFF00 + spec_imm8(*old(self), *old(mem))) as u16,
                    ),
                ),
                ..*old(self)
            }),
    {
        let offset = mem.read_8(self.registers.read_r16(Reg16::PC).wrapping_add(1));
        let value = mem.read_8(0xFF00 + offset as u16);
        self.registers.write_r8(Reg8::A, value);
    }

    /// LDH (C), A: store A at 0xFF00 + C.
    #[verifier::rlimit(100)]
    fn ldh_c_a(&mut self, mem: &mut Memory)
        requires
            cpu_wf(*old(self)),
            mem_wf(*old(mem)),
        ensures
            cpu_wf(*final(self)),
            mem_wf(*final(mem)),
            *final(self) == *old(self),
            spec_write_post(
                *old(mem),
                *final(mem),
                (0xFF00 + spec_r8(old(self).registers, Reg8::C)) as u16,
                spec_r8(old(self).registers, Reg8::A),
            ),
    {
        let value = self.registers.read_r8(Reg8::A);
        let c = self.registers.read_r8(Reg8::C);
        mem.write_8(0xFF00 + c as u16, value);
    }

    /// LDH A, (C): load A from 0xFF00 + C.
    #[verifier::rlimit(100)]
    fn ldh_a_c(&mut self, mem: &mut Memory)
        requires
            cpu_wf(*old(self)),
            mem_wf(*old(mem)),
        ensures
            cpu_wf(*final(self)),
            *final(mem) == *old(mem),
            *final(self) == (Cpu {
                registers: spec_with_r8(
                    old(self).registers,
                    Reg8::A,
                    spec_mem_read(
                        *old(mem),
                        (0xFF00 + spec_r8(old(self).registers, Reg8::C)) as u16,
                    ),
                ),
                ..*old(self)
            }),
    {
        let c = self.registers.read_r8(Reg8::C);
        let value = mem.read_8(0xFF00 + c as u16);
        self.registers.write_r8(Reg8::A, value);
    }

    /// POP rr: load the pair from the stack and advance SP by two.
    #[verifier::rlimit(100)]
    fn pop(&mut self, mem: &mut Memory, reg: Reg16)
        requires
            cpu_wf(*old(self)),
            mem_wf(*old(mem)),
        ensures
            cpu_wf(*final(self)),
            *final(mem) == *old(mem),
            *final(self) == (Cpu {
                registers: ({
                    let r1 = spec_with_r16(
                        old(self).registers,
                        reg,
                        spec_mem_read16(*old(mem), old(self).registers.sp),
                    );
                    spec_with_r16(r1, Reg16::SP, ((spec_r16(r1, Reg16::SP) + 2) % 0x10000) as u16)
                }),
                ..*old(self)
            }),
    {
        let value = mem.read_16(self.registers.read_r16(Reg16::SP));
        self.registers.write_r16(reg, value);
        let sp = self.registers.read_r16(Reg16::SP);
        self.registers.write_r16(Reg16::SP, sp.wrapping_add(2));
    }

    /// PUSH rr: lower SP by two and store the pair there.
    #[verifier::rlimit(100)]
    fn push(&mut self, mem: &mut Memory, reg: Reg16)
        requires
            cpu_wf(*old(self)),
            mem_wf(*old(mem)),
        ensures
            cpu_wf(*final(self)),
            mem_wf(*final(mem)),
            *final(self) == (Cpu {
                registers: spec_with_r16(
                    old(self).registers,
                    Reg16::SP,
                    ((old(self).registers.sp + 0x10000 - 2) % 0x10000) as u16,
                ),
                ..*old(self)
            }),
            spec_write16_post(
                *old(mem),
                *final(mem),
                ((old(self).registers.sp + 0x10000 - 2) % 0x10000) as u16,
                spec_r16(old(self).registers, reg),
            ),
    {
        let value = self.registers.read_r16(reg);
        let sp = self.registers.read_r16(Reg16::SP);
        let new_sp = sp.wrapping_sub(2);
        self.registers.write_r16(Reg16::SP, new_sp);
        mem.write_16(new_sp, value);
    }

    /// INC r: increment a register; Z and H from the result, N clear,
    /// C preserved.
    #[verifier::rlimit(100)]
    fn inc_r8(&mut self, reg: Reg8)
        requires
            cpu_wf(*old(self)),
        ensures
            cpu_wf(*final(self)),
            *final(self) == (Cpu {
                registers: ({
                    let v = spec_r8(old(self).registers, reg);
                    let result = ((v + 1) % 256) as u8;
                    spec_with_flags(
                        spec_with_r8(old(self).registers, reg, result),
                        result == 0,
                        false,
                        v % 16 == 15,
                        spec_cf(spec_r8(old(self).registers, Reg8::F)),
                    )
                }),
                ..*old(self)
            }),
    {
        let value = self.registers.read_r8(reg);
        let f = self.registers.read_r8(Reg8::F);
        let result: u8 = if value == 255 {
            0
        } else {
            value + 1
        };
        self.registers.write_r8(reg, result);
        let flags = make_flags(result == 0, false, value % 16 == 15, (f / 16) % 2 == 1);
        self.registers.write_r8(Reg8::F, flags);
    }

    /// INC rr: increment a pair; no flags.
    fn inc_r16(&mut self, reg: Reg16)
        requires
            cpu_wf(*old(self)),
        ensures
            cpu_wf(*final(self)),
            *final(self) == (Cpu {
                registers: spec_with_r16(
                    old(self).registers,
                    reg,
                    ((spec_r16(old(self).registers, reg) + 1) % 0x10000) as u16,
                ),
                ..*old(self)
            }),
    {
        let value = self.registers.read_r16(reg);
        self.registers.write_r16(reg, value.wrapping_add(1));
    }

    /// DEC r: decrement a register; Z and H from the result, N set,
    /// C preserved.
    #[verifier::rlimit(100)]
    fn dec_r8(&mut self, reg: Reg8)
        requires
            cpu_wf(*old(self)),
        ensures
            cpu_wf(*final(self)),
            *final(self) == (Cpu {
                registers: ({
                    let v = spec_r8(old(self).registers, reg);
                    let result = ((v + 255) % 256) as u8;
                    spec_with_flags(
                        spec_with_r8(old(self).registers, reg, result),
                        result == 0,
                        true,
                        v % 16 == 0,
                        spec_cf(spec_r8(old(self).registers, Reg8::F)),
                    )
                }),
                ..*old(self)
            }),
    {
        let value = self.registers.read_r8(reg);
        let f = self.registers.read_r8(Reg8::F);
        let result: u8 = if value == 0 {
            255
        } else {
            value - 1
        };
        self.registers.write_r8(reg, result);
        let flags = make_flags(result == 0, true, value % 16 == 0, (f / 16) % 2 == 1);
        self.registers.write_r8(Reg8::F, flags);
    }

    /// DEC rr: decrement a pair; no flags.
    fn dec_r16(&mut self, reg: Reg16)
        requires
            cpu_wf(*old(self)),
        ensures
            cpu_wf(*final(self)),
            *final(self) == (Cpu {
                registers: spec_with_r16(
                    old(self).registers,
                    reg,
                    ((spec_r16(old(self).registers, reg) + 0xFFFF) % 0x10000) as u16,
                ),
                ..*old(self)
            }),
    {
        let value = self.registers.read_r16(reg);
        self.registers.write_r16(reg, value.wrapping_sub(1));
    }

    /// INC (rr): increment the byte a pair addresses; flags as INC r.
    #[verifier::rlimit(100)]
    #[verifier::spinoff_prover]
    fn inc_mem(&mut self, mem: &mut Memory, reg: Reg16)
        requires
            cpu_wf(*old(self)),
            mem_wf(*old(mem)),
        ensures
            cpu_wf(*final(self)),
            mem_wf(*final(mem)),
            ({
                let addr = spec_r16(old(self).registers, reg);
                let v = spec_mem_read(*old(mem), addr);
                let result = ((v + 1) % 256) as u8;
                &&& spec_write_post(*old(mem), *final(mem), addr, result)
                &&& *final(self) == (Cpu {
                    registers: spec_with_flags(
                        old(self).registers,
                        result == 0,
                        false,
                        v % 16 == 15,
                        spec_cf(spec_r8(old(self).registers, Reg8::F)),
                    ),
                    ..*old(self)
                })
            }),
    {
        let addr = self.registers.read_r16(reg);
        let value = mem.read_8(addr);
        let result: u8 = if value == 255 {
            0
        } else {
            value + 1
        };
        mem.write_8(addr, result);
        let f = self.registers.read_r8(Reg8::F);
        let flags = make_flags(result == 0, false, value % 16 == 15, (f / 16) % 2 == 1);
        self.registers.write_r8(Reg8::F, flags);
    }

    /// DEC (rr): decrement the byte a pair addresses; flags as DEC r.
    #[verifier::rlimit(100)]
    #[verifier::spinoff_prover]
    fn dec_mem(&mut self, mem: &mut Memory, reg: Reg16)
        requires
            cpu_wf(*old(self)),
            mem_wf(*old(mem)),
        ensures
            cpu_wf(*final(self)),
            mem_wf(*final(mem)),
            ({
                let addr = spec_r16(old(self).registers, reg);
                let v = spec_mem_read(*old(mem), addr);
                let result = ((v + 255) % 256) as u8;
                &&& spec_write_post(*old(mem), *final(mem), addr, result)
                &&& *final(self) == (Cpu {
                    registers: spec_with_flags(
                        old(self).registers,
                        result == 0,
                        true,
                        v % 16 == 0,
                        spec_cf(spec_r8(old(self).registers, Reg8::F)),
                    ),
                    ..*old(self)
                })
            }),
    {
        let addr = self.registers.read_r16(reg);
        let value = mem.read_8(addr);
        let result: u8 = if value == 0 {
            255
        } else {
            value - 1
        };
        mem.write_8(addr, result);
        let f = self.registers.read_r8(Reg8::F);
        let flags = make_flags(result == 0, true, value % 16 == 0, (f / 16) % 2 == 1);
        self.registers.write_r8(Reg8::F, flags);
    }

    /// RLCA: rotate A left; Z always clear (unlike the CB form).
    fn rlca(&mut self)
        requires
            cpu_wf(*old(self)),
        ensures
            cpu_wf(*final(self)),
            *final(self) == (Cpu {
                registers: ({
                    let a = spec_r8(old(self).registers, Reg8::A);
                    spec_with_flags(
                        spec_with_r8(old(self).registers, Reg8::A, spec_rlc8(a)),
                        false,
                        false,
                        false,
                        a / 128 == 1,
                    )
                }),
                ..*old(self)
            }),
    {
        let value = self.registers.read_r8(Reg8::A);
        let new_value: u8 = (value % 128) * 2 + value / 128;
        self.registers.write_r8(Reg8::A, new_value);
        let flags = make_flags(false, false, false, value / 128 == 1);
        self.registers.write_r8(Reg8::F, flags);
    }

    /// RLA: rotate A left through carry; Z always clear.
    fn rla(&mut self)
        requires
            cpu_wf(*old(self)),
        ensures
            cpu_wf(*final(self)),
            *final(self) == (Cpu {
                registers: ({
                    let a = spec_r8(old(self).registers, Reg8::A);
                    spec_with_flags(
                        spec_with_r8(
                            old(self).registers,
                            Reg8::A,
                            spec_rl8(a, spec_carry_in(old(self).registers)),
                        ),
                        false,
                        false,
                        false,
                        a / 128 == 1,
                    )
                }),
                ..*old(self)
            }),
    {
        let value = self.registers.read_r8(Reg8::A);
        let f = self.registers.read_r8(Reg8::F);
        let carry: u8 = if (f / 16) % 2 == 1 {
            1
        } else {
            0
        };
        let new_value: u8 = (value % 128) * 2 + carry;
        self.registers.write_r8(Reg8::A, new_value);
        let flags = make_flags(false, false, false, value / 128 == 1);
        self.registers.write_r8(Reg8::F, flags);
    }

    /// RRCA: rotate A right; Z always clear.
    fn rrca(&mut self)
        requires
            cpu_wf(*old(self)),
        ensures
            cpu_wf(*final(self)),
            *final(self) == (Cpu {
                registers: ({
                    let a = spec_r8(old(self).registers, Reg8::A);
                    spec_with_flags(
                        spec_with_r8(old(self).registers, Reg8::A, spec_rrc8(a)),
                        false,
                        false,
                        false,
                        a % 2 == 1,
                    )
                }),
                ..*old(self)
            }),
    {
        let value = self.registers.read_r8(Reg8::A);
        let new_value: u8 = value / 2 + (value % 2) * 128;
        self.registers.write_r8(Reg8::A, new_value);
        let flags = make_flags(false, false, false, value % 2 == 1);
        self.registers.write_r8(Reg8::F, flags);
    }

    /// RRA: rotate A right through carry; Z always clear.
    fn rra(&mut self, _mem: &mut Memory)
        requires
            cpu_wf(*old(self)),
        ensures
            cpu_wf(*final(self)),
            *final(_mem) == *old(_mem),
            *final(self) == (Cpu {
                registers: ({
                    let a = spec_r8(old(self).registers, Reg8::A);
                    spec_with_flags(
                        spec_with_r8(
                            old(self).registers,
                            Reg8::A,
                            spec_rr8(a, spec_carry_in(old(self).registers)),
                        ),
                        false,
                        false,
                        false,
                        a % 2 == 1,
                    )
                }),
                ..*old(self)
            }),
    {
        let value = self.registers.read_r8(Reg8::A);
        let f = self.registers.read_r8(Reg8::F);
        let carry: u8 = if (f / 16) % 2 == 1 {
            1
        } else {
            0
        };
        let new_value: u8 = value / 2 + carry * 128;
        self.registers.write_r8(Reg8::A, new_value);
        let flags = make_flags(false, false, false, value % 2 == 1);
        self.registers.write_r8(Reg8::F, flags);
    }

    /// ADD HL, rr: 16-bit addition into HL; N clear, H from bit 11, C from
    /// bit 15, Z preserved.
    #[verifier::rlimit(100)]
    fn add_hl(&mut self, reg: Reg16)
        requires
            cpu_wf(*old(self)),
        ensures
            cpu_wf(*final(self)),
            *final(self) == (Cpu {
                registers: ({
                    let v = spec_r16(old(self).registers, reg);
                    let hl = old(self).registers.hl;
                    spec_with_flags(
                        spec_with_r16(old(self).registers, Reg16::HL, ((v + hl) % 0x10000) as u16),
                        spec_zf(spec_r8(old(self).registers, Reg8::F)),
                        false,
                        v % 4096 + hl % 4096 > 4095,
                        v + hl > 0xFFFF,
                    )
                }),
                ..*old(self)
            }),
    {
        let value = self.registers.read_r16(reg);
        let hl = self.registers.read_r16(Reg16::HL);
        let sum: u32 = value as u32 + hl as u32;
        self.registers.write_r16(Reg16::HL, (sum % 0x10000) as u16);
        let f = self.registers.read_r8(Reg8::F);
        let flags = make_flags(
            (f / 128) % 2 == 1,
            false,
            value % 4096 + hl % 4096 > 4095,
            sum > 0xFFFF,
        );
        self.registers.write_r8(Reg8::F, flags);
    }

    /// ADD A, op.
    #[verifier::rlimit(100)]
    fn add_a_r(&mut self, mem: &mut Memory, op: Operand)
        requires
            cpu_wf(*old(self)),
            mem_wf(*old(mem)),
            operand_is_8bit(op),
        ensures
            cpu_wf(*final(self)),
            *final(mem) == *old(mem),
            *final(self) == (Cpu {
                registers: spec_add_a(
                    old(self).registers,
                    spec_operand(*old(self), *old(mem), op),
                    0,
                ),
                ..*old(self)
            }),
    {
        let value = self.read_operand(mem, op);
        self.add_a_value(value, 0);
    }

    /// ADD A, n.
    #[verifier::rlimit(100)]
    fn add_a_n(&mut self, mem: &mut Memory)
        requires
            cpu_wf(*old(self)),
            mem_wf(*old(mem)),
        ensures
            cpu_wf(*final(self)),
            *final(mem) == *old(mem),
            *final(self) == (Cpu {
                registers: spec_add_a(old(self).registers, spec_imm8(*old(self), *old(mem)), 0),
                ..*old(self)
            }),
    {
        let value = mem.read_8(self.registers.read_r16(Reg16::PC).wrapping_add(1));
        self.add_a_value(value, 0);
    }

    /// The shared 8-bit addition into A.
    #[verifier::rlimit(100)]
    fn add_a_value(&mut self, value: u8, carry: u8)
        requires
            cpu_wf(*old(self)),
            carry <= 1,
        ensures
            cpu_wf(*final(self)),
            *final(self) == (Cpu {
                registers: spec_add_a(old(self).registers, value, carry),
                ..*old(self)
            }),
    {
        let a = self.registers.read_r8(Reg8::A);
        let sum: u16 = a as u16 + value as u16 + carry as u16;
        let result: u8 = (sum % 256) as u8;
        self.registers.write_r8(Reg8::A, result);
        let flags = make_flags(
            result == 0,
            false,
            a % 16 + value % 16 + carry > 15,
            sum > 255,
        );
        self.registers.write_r8(Reg8::F, flags);
    }

    /// ADD SP, e: SP takes SP plus the signed immediate; Z and N clear,
    /// H and C from the unsigned low-byte addition.
    #[verifier::rlimit(100)]
    fn add_sp_e(&mut self, mem: &mut Memory)
        requires
            cpu_wf(*old(self)),
            mem_wf(*old(mem)),
        ensures
            cpu_wf(*final(self)),
            *final(mem) == *old(mem),
            *final(self) == (Cpu {
                registers: ({
                    let e = spec_imm8(*old(self), *old(mem));
                    let sp = old(self).registers.sp;
                    spec_with_flags(
                        spec_with_r16(
                            old(self).registers,
                            Reg16::SP,
                            ((sp + spec_sign_extend(e)) % 0x10000) as u16,
                        ),
                        false,
                        false,
                        sp % 16 + e % 16 > 15,
                        sp % 256 + e > 255,
                    )
                }),
                ..*old(self)
            }),
    {
        let offset = mem.read_8(self.registers.read_r16(Reg16::PC).wrapping_add(1));
        let sp = self.registers.read_r16(Reg16::SP);
        let offset16: u16 = if offset < 128 {
            offset as u16
        } else {
            offset as u16 + 0xFF00
        };
        let result = sp.wrapping_add(offset16);
        self.registers.write_r16(Reg16::SP, result);
        let flags = make_flags(
            false,
            false,
            sp % 16 + (offset % 16) as u16 > 15,
            sp % 256 + offset as u16 > 255,
        );
        self.registers.write_r8(Reg8::F, flags);
        proof {
            assert((sp + spec_sign_extend(offset)) % 0x10000 == result) by (nonlinear_arith)
                requires
                    result == if sp + offset16 > 0xFFFF {
                        (sp + offset16 - 0x10000) as u16
                    } else {
                        (sp + offset16) as u16
                    },
                    offset16 == spec_sign_extend(offset),
                    offset16 < 0x10000,
                    sp < 0x10000,
            ;
        }
    }

    /// ADC A, op.
    #[verifier::rlimit(100)]
    fn adc_a_r(&mut self, mem: &mut Memory, op: Operand)
        requires
            cpu_wf(*old(self)),
            mem_wf(*old(mem)),
            operand_is_8bit(op),
        ensures
            cpu_wf(*final(self)),
            *final(mem) == *old(mem),
            *final(self) == (Cpu {
                registers: spec_add_a(
                    old(self).registers,
                    spec_operand(*old(self), *old(mem), op),
                    spec_carry_in(old(self).registers),
                ),
                ..*old(self)
            }),
    {
        let value = self.read_operand(mem, op);
        let f = self.registers.read_r8(Reg8::F);
        let carry: u8 = if (f / 16) % 2 == 1 {
            1
        } else {
            0
        };
        self.add_a_value(value, carry);
    }

    /// ADC A, n.
    #[verifier::rlimit(100)]
    fn adc_a_n(&mut self, mem: &mut Memory)
        requires
            cpu_wf(*old(self)),
            mem_wf(*old(mem)),
        ensures
            cpu_wf(*final(self)),
            *final(mem) == *old(mem),
            *final(self) == (Cpu {
                registers: spec_add_a(
                    old(self).registers,
                    spec_imm8(*old(self), *old(mem)),
                    spec_carry_in(old(self).registers),
                ),
                ..*old(self)
            }),
    {
        let value = mem.read_8(self.registers.read_r16(Reg16::PC).wrapping_add(1));
        let f = self.registers.read_r8(Reg8::F);
        let carry: u8 = if (f / 16) % 2 == 1 {
            1
        } else {
            0
        };
        self.add_a_value(value, carry);
    }

    /// The shared 8-bit subtraction from A.
    #[verifier::rlimit(100)]
    fn sub_a_value(&mut self, value: u8, carry: u8)
        requires
            cpu_wf(*old(self)),
            carry <= 1,
        ensures
            cpu_wf(*final(self)),
            *final(self) == (Cpu {
                registers: spec_sub_a(old(self).registers, value, carry),
                ..*old(self)
            }),
    {
        let a = self.registers.read_r8(Reg8::A);
        let vc: u16 = value as u16 + carry as u16;
        let result: u8 = if (a as u16) < vc {
            (a as u16 + 256 - vc) as u8
        } else {
            (a as u16 - vc) as u8
        };
        self.registers.write_r8(Reg8::A, result);
        let flags = make_flags(
            result == 0,
            true,
            (a % 16) < value % 16 + carry,
            (a as u16) < vc,
        );
        self.registers.write_r8(Reg8::F, flags);
    }

    /// SUB A, op.
    #[verifier::rlimit(100)]
    fn sub_a_r(&mut self, mem: &mut Memory, op: Operand)
        requires
            cpu_wf(*old(self)),
            mem_wf(*old(mem)),
            operand_is_8bit(op),
        ensures
            cpu_wf(*final(self)),
            *final(mem) == *old(mem),
            *final(self) == (Cpu {
                registers: spec_sub_a(
                    old(self).registers,
                    spec_operand(*old(self), *old(mem), op),
                    0,
                ),
                ..*old(self)
            }),
    {
        let value = self.read_operand(mem, op);
        self.sub_a_value(value, 0);
    }

    /// SUB A, n.
    #[verifier::rlimit(100)]
    fn sub_a_n(&mut self, mem: &mut Memory)
        requires
            cpu_wf(*old(self)),
            mem_wf(*old(mem)),
        ensures
            cpu_wf(*final(self)),
            *final(mem) == *old(mem),
            *final(self) == (Cpu {
                registers: spec_sub_a(old(self).registers, spec_imm8(*old(self), *old(mem)), 0),
                ..*old(self)
            }),
    {
        let value = mem.read_8(self.registers.read_r16(Reg16::PC).wrapping_add(1));
        self.sub_a_value(value, 0);
    }

    /// SBC A, op.
    #[verifier::rlimit(100)]
    fn sbc_a_r(&mut self, mem: &mut Memory, op: Operand)
        requires
            cpu_wf(*old(self)),
            mem_wf(*old(mem)),
            operand_is_8bit(op),
        ensures
            cpu_wf(*final(self)),
            *final(mem) == *old(mem),
            *final(self) == (Cpu {
                registers: spec_sub_a(
                    old(self).registers,
                    spec_operand(*old(self), *old(mem), op),
                    spec_carry_in(old(self).registers),
                ),
                ..*old(self)
            }),
    {
        let value = self.read_operand(mem, op);
        let f = self.registers.read_r8(Reg8::F);
        let carry: u8 = if (f / 16) % 2 == 1 {
            1
        } else {
            0
        };
        self.sub_a_value(value, carry);
    }

    /// SBC A, n.
    #[verifier::rlimit(100)]
    fn sbc_a_n(&mut self, mem: &mut Memory)
        requires
            cpu_wf(*old(self)),
            mem_wf(*old(mem)),
        ensures
            cpu_wf(*final(self)),
            *final(mem) == *old(mem),
            *final(self) == (Cpu {
                registers: spec_sub_a(
                    old(self).registers,
                    spec_imm8(*old(self), *old(mem)),
                    spec_carry_in(old(self).registers),
                ),
                ..*old(self)
            }),
    {
        let value = mem.read_8(self.registers.read_r16(Reg16::PC).wrapping_add(1));
        let f = self.registers.read_r8(Reg8::F);
        let carry: u8 = if (f / 16) % 2 == 1 {
            1
        } else {
            0
        };
        self.sub_a_value(value, carry);
    }

    /// DAA: adjust A to packed BCD after an addition or subtraction, using
    /// N, H and C; H is cleared, Z follows the result, C may be set.
    fn daa(&mut self, _mem: &mut Memory)
        requires
            cpu_wf(*old(self)),
        ensures
            cpu_wf(*final(self)),
            *final(_mem) == *old(_mem),
            *final(self) == (Cpu {
                registers: ({
                    let a = spec_r8(old(self).registers, Reg8::A);
                    let f = spec_r8(old(self).registers, Reg8::F);
                    let value = spec_daa(a, spec_nf(f), spec_hf(f), spec_cf(f)).0;
                    let set_carry = spec_daa(a, spec_nf(f), spec_hf(f), spec_cf(f)).1;
                    spec_with_r8(
                        spec_with_flags(
                            old(self).registers,
                            value == 0,
                            spec_nf(f),
                            false,
                            set_carry,
                        ),
                        Reg8::A,
                        value,
                    )
                }),
                ..*old(self)
            }),
    {
        let a = self.registers.read_r8(Reg8::A);
        let f = self.registers.read_r8(Reg8::F);
        let n = (f / 64) % 2 == 1;
        let h = (f / 32) % 2 == 1;
        let c = (f / 16) % 2 == 1;
        let (value, set_carry) = daa_compute(a, n, h, c);
        let flags = make_flags(value == 0, n, false, set_carry);
        self.registers.write_r8(Reg8::F, flags);
        self.registers.write_r8(Reg8::A, value);
    }

    /// CPL: complement A; N and H set, Z and C preserved.
    fn cpl(&mut self)
        requires
            cpu_wf(*old(self)),
        ensures
            cpu_wf(*final(self)),
            *final(self) == (Cpu {
                registers: ({
                    let a = spec_r8(old(self).registers, Reg8::A);
                    let f = spec_r8(old(self).registers, Reg8::F);
                    spec_with_flags(
                        spec_with_r8(old(self).registers, Reg8::A, (255 - a) as u8),
                        spec_zf(f),
                        true,
                        true,
                        spec_cf(f),
                    )
                }),
                ..*old(self)
            }),
    {
        let value = self.registers.read_r8(Reg8::A);
        let f = self.registers.read_r8(Reg8::F);
        self.registers.write_r8(Reg8::A, 255 - value);
        let flags = make_flags((f / 128) % 2 == 1, true, true, (f / 16) % 2 == 1);
        self.registers.write_r8(Reg8::F, flags);
    }

    /// The shared AND into A: H set, N and C clear, Z from the result.
    fn and_a_value(&mut self, value: u8)
        requires
            cpu_wf(*old(self)),
        ensures
            cpu_wf(*final(self)),
            *final(self) == (Cpu {
                registers: ({
                    let result = spec_r8(old(self).registers, Reg8::A) & value;
                    spec_with_flags(
                        spec_with_r8(old(self).registers, Reg8::A, result),
                        result == 0,
                        false,
                        true,
                        false,
                    )
                }),
                ..*old(self)
            }),
    {
        let a = self.registers.read_r8(Reg8::A);
        let result = a & value;
        self.registers.write_r8(Reg8::A, result);
        let flags = make_flags(result == 0, false, true, false);
        self.registers.write_r8(Reg8::F, flags);
    }

    /// AND A, op.
    fn and_a_r(&mut self, mem: &mut Memory, op: Operand)
        requires
            cpu_wf(*old(self)),
            mem_wf(*old(mem)),
            operand_is_8bit(op),
        ensures
            cpu_wf(*final(self)),
            *final(mem) == *old(mem),
            *final(self) == (Cpu {
                registers: ({
                    let result = spec_r8(old(self).registers, Reg8::A) & spec_operand(
                        *old(self),
                        *old(mem),
                        op,
                    );
                    spec_with_flags(
                        spec_with_r8(old(self).registers, Reg8::A, result),
                        result == 0,
                        false,
                        true,
                        false,
                    )
                }),
                ..*old(self)
            }),
    {
        let value = self.read_operand(mem, op);
        self.and_a_value(value);
    }

    /// AND A, n.
    fn and_a_n(&mut self, mem: &mut Memory)
        requires
            cpu_wf(*old(self)),
            mem_wf(*old(mem)),
        ensures
            cpu_wf(*final(self)),
            *final(mem) == *old(mem),
            *final(self) == (Cpu {
                registers: ({
                    let result = spec_r8(old(self).registers, Reg8::A) & spec_imm8(
                        *old(self),
                        *old(mem),
                    );
                    spec_with_flags(
                        spec_with_r8(old(self).registers, Reg8::A, result),
                        result == 0,
                        false,
                        true,
                        false,
                    )
                }),
                ..*old(self)
            }),
    {
        let value = mem.read_8(self.registers.read_r16(Reg16::PC).wrapping_add(1));
        self.and_a_value(value);
    }

    /// The shared XOR into A: N, H and C clear, Z from the result.
    fn xor_a_value(&mut self, value: u8)
        requires
            cpu_wf(*old(self)),
        ensures
            cpu_wf(*final(self)),
            *final(self) == (Cpu {
                registers: ({
                    let result = spec_r8(old(self).registers, Reg8::A) ^ value;
                    spec_with_flags(
                        spec_with_r8(old(self).registers, Reg8::A, result),
                        result == 0,
                        false,
                        false,
                        false,
                    )
                }),
                ..*old(self)
            }),
    {
        let a = self.registers.read_r8(Reg8::A);
        let result = a ^ value;
        self.registers.write_r8(Reg8::A, result);
        let flags = make_flags(result == 0, false, false, false);
        self.registers.write_r8(Reg8::F, flags);
    }

    /// XOR A, op.
    fn xor_a_r(&mut self, mem: &mut Memory, op: Operand)
        requires
            cpu_wf(*old(self)),
            mem_wf(*old(mem)),
            operand_is_8bit(op),
        ensures
            cpu_wf(*final(self)),
            *final(mem) == *old(mem),
            *final(self) == (Cpu {
                registers: ({
                    let result = spec_r8(old(self).registers, Reg8::A) ^ spec_operand(
                        *old(self),
                        *old(mem),
                        op,
                    );
                    spec_with_flags(
                        spec_with_r8(old(self).registers, Reg8::A, result),
                        result == 0,
                        false,
                        false,
                        false,
                    )
                }),
                ..*old(self)
            }),
    {
        let value = self.read_operand(mem, op);
        self.xor_a_value(value);
    }

    /// XOR A, n.
    fn xor_a_n(&mut self, mem: &mut Memory)
        requires
            cpu_wf(*old(self)),
            mem_wf(*old(mem)),
        ensures
            cpu_wf(*final(self)),
            *final(mem) == *old(mem),
            *final(self) == (Cpu {
                registers: ({
                    let result = spec_r8(old(self).registers, Reg8::A) ^ spec_imm8(
                        *old(self),
                        *old(mem),
                    );
                    spec_with_flags(
                        spec_with_r8(old(self).registers, Reg8::A, result),
                        result == 0,
                        false,
                        false,
                        false,
                    )
                }),
                ..*old(self)
            }),
    {
        let value = mem.read_8(self.registers.read_r16(Reg16::PC).wrapping_add(1));
        self.xor_a_value(value);
    }

    /// The shared OR into A: N, H and C clear, Z from the result.
    fn or_a_value(&mut self, value: u8)
        requires
            cpu_wf(*old(self)),
        ensures
            cpu_wf(*final(self)),
            *final(self) == (Cpu {
                registers: ({
                    let result = spec_r8(old(self).registers, Reg8::A) | value;
                    spec_with_flags(
                        spec_with_r8(old(self).registers, Reg8::A, result),
                        result == 0,
                        false,
                        false,
                        false,
                    )
                }),
                ..*old(self)
            }),
    {
        let a = self.registers.read_r8(Reg8::A);
        let result = a | value;
        self.registers.write_r8(Reg8::A, result);
        let flags = make_flags(result == 0, false, false, false);
        self.registers.write_r8(Reg8::F, flags);
    }

    /// OR A, op.
    fn or_a_r(&mut self, mem: &mut Memory, op: Operand)
        requires
            cpu_wf(*old(self)),
            mem_wf(*old(mem)),
            operand_is_8bit(op),
        ensures
            cpu_wf(*final(self)),
            *final(mem) == *old(mem),
            *final(self) == (Cpu {
                registers: ({
                    let result = spec_r8(old(self).registers, Reg8::A) | spec_operand(
                        *old(self),
                        *old(mem),
                        op,
                    );
                    spec_with_flags(
                        spec_with_r8(old(self).registers, Reg8::A, result),
                        result == 0,
                        false,
                        false,
                        false,
                    )
                }),
                ..*old(self)
            }),
    {
        let value = self.read_operand(mem, op);
        self.or_a_value(value);
    }

    /// OR A, n.
    fn or_a_n(&mut self, mem: &mut Memory)
        requires
            cpu_wf(*old(self)),
            mem_wf(*old(mem)),
        ensures
            cpu_wf(*final(self)),
            *final(mem) == *old(mem),
            *final(self) == (Cpu {
                registers: ({
                    let result = spec_r8(old(self).registers, Reg8::A) | spec_imm8(
                        *old(self),
                        *old(mem),
                    );
                    spec_with_flags(
                        spec_with_r8(old(self).registers, Reg8::A, result),
                        result == 0,
                        false,
                        false,
                        false,
                    )
                }),
                ..*old(self)
            }),
    {
        let value = mem.read_8(self.registers.read_r16(Reg16::PC).wrapping_add(1));
        self.or_a_value(value);
    }

    /// CP A, op: SUB's flags without writing A.
    fn cp_a_r(&mut self, mem: &mut Memory, op: Operand)
        requires
            cpu_wf(*old(self)),
            mem_wf(*old(mem)),
            operand_is_8bit(op),
        ensures
            cpu_wf(*final(self)),
            *final(mem) == *old(mem),
            *final(self) == (Cpu {
                registers: spec_cp_a(old(self).registers, spec_operand(*old(self), *old(mem), op)),
                ..*old(self)
            }),
    {
        let value = self.read_operand(mem, op);
        self.cp_a_value(value);
    }

    /// CP A, n.
    pub fn cp_a_n(&mut self, mem: &mut Memory)
        requires
            cpu_wf(*old(self)),
            mem_wf(*old(mem)),
        ensures
            cpu_wf(*final(self)),
            *final(mem) == *old(mem),
            *final(self) == (Cpu {
                registers: spec_cp_a(old(self).registers, spec_imm8(*old(self), *old(mem))),
                ..*old(self)
            }),
    {
        let value = mem.read_8(self.registers.read_r16(Reg16::PC).wrapping_add(1));
        self.cp_a_value(value);
    }

    /// The shared comparison against A.
    fn cp_a_value(&mut self, value: u8)
        requires
            cpu_wf(*old(self)),
        ensures
            cpu_wf(*final(self)),
            *final(self) == (Cpu {
                registers: spec_cp_a(old(self).registers, value),
                ..*old(self)
            }),
    {
        let a = self.registers.read_r8(Reg8::A);
        let flags = make_flags(a == value, true, a % 16 < value % 16, a < value);
        self.registers.write_r8(Reg8::F, flags);
    }

    /// NOP.
    fn nop(&mut self)
        ensures
            *final(self) == *old(self),
    {
    }

    /// STOP: treated as a NOP (no low-power mode is modelled).
    fn stop(&mut self)
        ensures
            *final(self) == *old(self),
    {
    }

    /// HALT: with IME clear and an interrupt already pending the HALT bug
    /// latch is set instead of halting.
    fn halt(&mut self, mem: &Memory)
        requires
            cpu_wf(*old(self)),
            mem_wf(*mem),
        ensures
            cpu_wf(*final(self)),
            *final(self) == (Cpu {
                halted: old(self).halted || !(old(self).registers.ime == 0 && spec_irq_pending5(
                    spec_mem_read(*mem, 0xFFFF),
                    spec_mem_read(*mem, 0xFF0F),
                )),
                halt_bug: old(self).halt_bug || (old(self).registers.ime == 0 && spec_irq_pending5(
                    spec_mem_read(*mem, 0xFFFF),
                    spec_mem_read(*mem, 0xFF0F),
                )),
                ..*old(self)
            }),
    {
        let ie = mem.read_8(0xFFFF);
        let if_reg = mem.read_8(0xFF0F);
        let interrupt_pending = irq_pending5(ie, if_reg);
        if self.registers.read_ime() == 0 && interrupt_pending {
            self.halt_bug = true;
        } else {
            self.halted = true;
        }
    }

    /// SCF: set carry; N and H clear, Z preserved.
    fn scf(&mut self)
        requires
            cpu_wf(*old(self)),
        ensures
            cpu_wf(*final(self)),
            *final(self) == (Cpu {
                registers: spec_with_flags(
                    old(self).registers,
                    spec_zf(spec_r8(old(self).registers, Reg8::F)),
                    false,
                    false,
                    true,
                ),
                ..*old(self)
            }),
    {
        let f = self.registers.read_r8(Reg8::F);
        let flags = make_flags((f / 128) % 2 == 1, false, false, true);
        self.registers.write_r8(Reg8::F, flags);
    }

    /// CCF: toggle carry; N and H clear, Z preserved.
    fn ccf(&mut self)
        requires
            cpu_wf(*old(self)),
        ensures
            cpu_wf(*final(self)),
            *final(self) == (Cpu {
                registers: spec_with_flags(
                    old(self).registers,
                    spec_zf(spec_r8(old(self).registers, Reg8::F)),
                    false,
                    false,
                    !spec_cf(spec_r8(old(self).registers, Reg8::F)),
                ),
                ..*old(self)
            }),
    {
        let f = self.registers.read_r8(Reg8::F);
        let flags = make_flags((f / 128) % 2 == 1, false, false, (f / 16) % 2 == 0);
        self.registers.write_r8(Reg8::F, flags);
    }

    /// RLC op (CB): rotate left; Z from the result.
    fn rlc_r(&mut self, mem: &mut Memory, op: Operand)
        requires
            cpu_wf(*old(self)),
            mem_wf(*old(mem)),
            operand_is_8bit(op),
        ensures
            cpu_wf(*final(self)),
            mem_wf(*final(mem)),
            ({
                let v = spec_operand(*old(self), *old(mem), op);
                let mid = Cpu {
                    registers: spec_with_flags(
                        old(self).registers,
                        spec_rlc8(v) == 0,
                        false,
                        false,
                        v / 128 == 1,
                    ),
                    ..*old(self)
                };
                operand_write_post(mid, *old(mem), *final(self), *final(mem), op, spec_rlc8(v))
            }),
    {
        let value = self.read_operand(mem, op);
        let result: u8 = (value % 128) * 2 + value / 128;
        let flags = make_flags(result == 0, false, false, value / 128 == 1);
        self.registers.write_r8(Reg8::F, flags);
        self.write_operand(mem, op, result);
    }

    /// RRC op (CB): rotate right; Z from the result.
    fn rrc_r(&mut self, mem: &mut Memory, op: Operand)
        requires
            cpu_wf(*old(self)),
            mem_wf(*old(mem)),
            operand_is_8bit(op),
        ensures
            cpu_wf(*final(self)),
            mem_wf(*final(mem)),
            ({
                let v = spec_operand(*old(self), *old(mem), op);
                let mid = Cpu {
                    registers: spec_with_flags(
                        old(self).registers,
                        spec_rrc8(v) == 0,
                        false,
                        false,
                        v % 2 == 1,
                    ),
                    ..*old(self)
                };
                operand_write_post(mid, *old(mem), *final(self), *final(mem), op, spec_rrc8(v))
            }),
    {
        let value = self.read_operand(mem, op);
        let result: u8 = value / 2 + (value % 2) * 128;
        let flags = make_flags(result == 0, false, false, value % 2 == 1);
        self.registers.write_r8(Reg8::F, flags);
        self.write_operand(mem, op, result);
    }

    /// RL op (CB): rotate left through carry; Z from the result.
    fn rl_r(&mut self, mem: &mut Memory, op: Operand)
        requires
            cpu_wf(*old(self)),
            mem_wf(*old(mem)),
            operand_is_8bit(op),
        ensures
            cpu_wf(*final(self)),
            mem_wf(*final(mem)),
            ({
                let v = spec_operand(*old(self), *old(mem), op);
                let r = spec_rl8(v, spec_carry_in(old(self).registers));
                let mid = Cpu {
                    registers: spec_with_flags(
                        old(self).registers,
                        r == 0,
                        false,
                        false,
                        v / 128 == 1,
                    ),
                    ..*old(self)
                };
                operand_write_post(mid, *old(mem), *final(self), *final(mem), op, r)
            }),
    {
        let value = self.read_operand(mem, op);
        let f = self.registers.read_r8(Reg8::F);
        let carry: u8 = if (f / 16) % 2 == 1 {
            1
        } else {
            0
        };
        let result: u8 = (value % 128) * 2 + carry;
        let flags = make_flags(result == 0, false, false, value / 128 == 1);
        self.registers.write_r8(Reg8::F, flags);
        self.write_operand(mem, op, result);
    }

    /// RR op (CB): rotate right through carry; Z from the result.
    fn rr_r(&mut self, mem: &mut Memory, op: Operand)
        requires
            cpu_wf(*old(self)),
            mem_wf(*old(mem)),
            operand_is_8bit(op),
        ensures
            cpu_wf(*final(self)),
            mem_wf(*final(mem)),
            ({
                let v = spec_operand(*old(self), *old(mem), op);
                let r = spec_rr8(v, spec_carry_in(old(self).registers));
                let mid = Cpu {
                    registers: spec_with_flags(
                        old(self).registers,
                        r == 0,
                        false,
                        false,
                        v % 2 == 1,
                    ),
                    ..*old(self)
                };
                operand_write_post(mid, *old(mem), *final(self), *final(mem), op, r)
            }),
    {
        let value = self.read_operand(mem, op);
        let f = self.registers.read_r8(Reg8::F);
        let carry: u8 = if (f / 16) % 2 == 1 {
            1
        } else {
            0
        };
        let result: u8 = value / 2 + carry * 128;
        let flags = make_flags(result == 0, false, false, value % 2 == 1);
        self.registers.write_r8(Reg8::F, flags);
        self.write_operand(mem, op, result);
    }

    /// SLA op (CB): shift left arithmetic; Z from the result.
    fn sla_r(&mut self, mem: &mut Memory, op: Operand)
        requires
            cpu_wf(*old(self)),
            mem_wf(*old(mem)),
            operand_is_8bit(op),
        ensures
            cpu_wf(*final(self)),
            mem_wf(*final(mem)),
            ({
                let v = spec_operand(*old(self), *old(mem), op);
                let r = ((v % 128) * 2) as u8;
                let mid = Cpu {
                    registers: spec_with_flags(
                        old(self).registers,
                        r == 0,
                        false,
                        false,
                        v / 128 == 1,
                    ),
                    ..*old(self)
                };
                operand_write_post(mid, *old(mem), *final(self), *final(mem), op, r)
            }),
    {
        let value = self.read_operand(mem, op);
        let result: u8 = (value % 128) * 2;
        let flags = make_flags(result == 0, false, false, value / 128 == 1);
        self.registers.write_r8(Reg8::F, flags);
        self.write_operand(mem, op, result);
    }

    /// SRA op (CB): shift right arithmetic, keeping bit 7; Z from the result.
    fn sra_r(&mut self, mem: &mut Memory, op: Operand)
        requires
            cpu_wf(*old(self)),
            mem_wf(*old(mem)),
            operand_is_8bit(op),
        ensures
            cpu_wf(*final(self)),
            mem_wf(*final(mem)),
            ({
                let v = spec_operand(*old(self), *old(mem), op);
                let r = ((v / 2) + (v / 128) * 128) as u8;
                let mid = Cpu {
                    registers: spec_with_flags(
                        old(self).registers,
                        r == 0,
                        false,
                        false,
                        v % 2 == 1,
                    ),
                    ..*old(self)
                };
                operand_write_post(mid, *old(mem), *final(self), *final(mem), op, r)
            }),
    {
        let value = self.read_operand(mem, op);
        let result: u8 = value / 2 + (value / 128) * 128;
        let flags = make_flags(result == 0, false, false, value % 2 == 1);
        self.registers.write_r8(Reg8::F, flags);
        self.write_operand(mem, op, result);
    }

    /// SWAP op (CB): exchange nibbles; only Z may be set.
    fn swap_r(&mut self, mem: &mut Memory, op: Operand)
        requires
            cpu_wf(*old(self)),
            mem_wf(*old(mem)),
            operand_is_8bit(op),
        ensures
            cpu_wf(*final(self)),
            mem_wf(*final(mem)),
            ({
                let v = spec_operand(*old(self), *old(mem), op);
                let r = spec_swap8(v);
                let mid = Cpu {
                    registers: spec_with_flags(old(self).registers, r == 0, false, false, false),
                    ..*old(self)
                };
                operand_write_post(mid, *old(mem), *final(self), *final(mem), op, r)
            }),
    {
        let value = self.read_operand(mem, op);
        let result: u8 = (value % 16) * 16 + value / 16;
        let flags = make_flags(result == 0, false, false, false);
        self.registers.write_r8(Reg8::F, flags);
        self.write_operand(mem, op, result);
    }

    /// BIT n, op (CB): Z set when the bit is clear; N clear, H set,
    /// C preserved.
    fn bit_n_r(&mut self, mem: &mut Memory, op: Operand, n: u8)
        requires
            cpu_wf(*old(self)),
            mem_wf(*old(mem)),
            operand_is_8bit(op),
            n < 8,
        ensures
            cpu_wf(*final(self)),
            *final(mem) == *old(mem),
            *final(self) == (Cpu {
                registers: spec_with_flags(
                    old(self).registers,
                    crate::ppu::spec_bit(spec_operand(*old(self), *old(mem), op), n) == 0,
                    false,
                    true,
                    spec_cf(spec_r8(old(self).registers, Reg8::F)),
                ),
                ..*old(self)
            }),
    {
        let value = self.read_operand(mem, op);
        let f = self.registers.read_r8(Reg8::F);
        let b = bit_u8(value, n);
        let flags = make_flags(b == 0, false, true, (f / 16) % 2 == 1);
        self.registers.write_r8(Reg8::F, flags);
    }

    /// SRL op (CB): shift right logical; Z from the result.
    fn srl_r(&mut self, mem: &mut Memory, op: Operand)
        requires
            cpu_wf(*old(self)),
            mem_wf(*old(mem)),
            operand_is_8bit(op),
        ensures
            cpu_wf(*final(self)),
            mem_wf(*final(mem)),
            ({
                let v = spec_operand(*old(self), *old(mem), op);
                let r = (v / 2) as u8;
                let mid = Cpu {
                    registers: spec_with_flags(
                        old(self).registers,
                        r == 0,
                        false,
                        false,
                        v % 2 == 1,
                    ),
                    ..*old(self)
                };
                operand_write_post(mid, *old(mem), *final(self), *final(mem), op, r)
            }),
    {
        let value = self.read_operand(mem, op);
        let result: u8 = value / 2;
        let flags = make_flags(result == 0, false, false, value % 2 == 1);
        self.registers.write_r8(Reg8::F, flags);
        self.write_operand(mem, op, result);
    }

    /// RES n, op (CB): clear one bit; no flags.
    fn res_n_r(&mut self, mem: &mut Memory, op: Operand, n: u8)
        requires
            cpu_wf(*old(self)),
            mem_wf(*old(mem)),
            operand_is_8bit(op),
            n < 8,
        ensures
            cpu_wf(*final(self)),
            mem_wf(*final(mem)),
            ({
                let v = spec_operand(*old(self), *old(mem), op);
                let r = if crate::ppu::spec_bit(v, n) == 1 {
                    (v - crate::ppu::spec_pow2(n)) as u8
                } else {
                    v
                };
                operand_write_post(*old(self), *old(mem), *final(self), *final(mem), op, r)
            }),
    {
        let value = self.read_operand(mem, op);
        let p = pow2_u8(n);
        let result: u8 = if (value / p) % 2 == 1 {
            value - p
        } else {
            value
        };
        self.write_operand(mem, op, result);
    }

    /// SET n, op (CB): set one bit; no flags.
    fn set_n_r(&mut self, mem: &mut Memory, op: Operand, n: u8)
        requires
            cpu_wf(*old(self)),
            mem_wf(*old(mem)),
            operand_is_8bit(op),
            n < 8,
        ensures
            cpu_wf(*final(self)),
            mem_wf(*final(mem)),
            ({
                let v = spec_operand(*old(self), *old(mem), op);
                let r = if crate::ppu::spec_bit(v, n) == 0 {
                    (v + crate::ppu::spec_pow2(n)) as u8
                } else {
                    v
                };
                operand_write_post(*old(self), *old(mem), *final(self), *final(mem), op, r)
            }),
    {
        let value = self.read_operand(mem, op);
        let p = pow2_u8(n);
        let result: u8 = if (value / p) % 2 == 0 {
            proof {
                lemma_set_bit_fits(value, p, n);
            }
            value + p
        } else {
            value
        };
        self.write_operand(mem, op, result);
    }

    /// Decode and run one CB-prefixed opcode.
    #[verifier::rlimit(100)]
    #[verifier::spinoff_prover]
    fn call_cb(&mut self, mem: &mut Memory)
        requires
            cpu_wf(*old(self)),
            mem_wf(*old(mem)),
        ensures
            cpu_wf(*final(self)),
            mem_wf(*final(mem)),
            final(self).cycles == old(self).cycles,
            final(self).ei_pending == old(self).ei_pending,
            final(self).halted == old(self).halted,
            final(self).halt_bug == old(self).halt_bug,
            final(self).registers.ime == old(self).registers.ime,
            spec_execute_cb_post(
                *old(self),
                *old(mem),
                *final(self),
                *final(mem),
                spec_imm8(*old(self), *old(mem)),
            ),
    {
        let cb_opcode = mem.read_8(self.registers.read_r16(Reg16::PC).wrapping_add(1));
        if cb_opcode < 0x40 {
            self.cb_rotate_shift(mem, cb_opcode);
        } else {
            self.cb_bit_ops(mem, cb_opcode);
        }
    }

    /// The CB rotate, shift and swap families (sub-opcodes below 0x40).
    #[verifier::rlimit(100)]
    #[verifier::spinoff_prover]
    fn cb_rotate_shift(&mut self, mem: &mut Memory, cb_opcode: u8)
        requires
            cpu_wf(*old(self)),
            mem_wf(*old(mem)),
            cb_opcode < 0x40,
        ensures
            cpu_wf(*final(self)),
            mem_wf(*final(mem)),
            final(self).cycles == old(self).cycles,
            final(self).ei_pending == old(self).ei_pending,
            final(self).halted == old(self).halted,
            final(self).halt_bug == old(self).halt_bug,
            final(self).registers.ime == old(self).registers.ime,
            spec_execute_cb_post(*old(self), *old(mem), *final(self), *final(mem), cb_opcode),
    {
        proof {
            reveal(spec_execute_cb_post);
        }
        let op = Operand::from_index(cb_opcode % 8);
        if cb_opcode < 0x08 {
            self.rlc_r(mem, op);
        } else if cb_opcode < 0x10 {
            self.rrc_r(mem, op);
        } else if cb_opcode < 0x18 {
            self.rl_r(mem, op);
        } else if cb_opcode < 0x20 {
            self.rr_r(mem, op);
        } else if cb_opcode < 0x28 {
            self.sla_r(mem, op);
        } else if cb_opcode < 0x30 {
            self.sra_r(mem, op);
        } else if cb_opcode < 0x38 {
            self.swap_r(mem, op);
        } else if cb_opcode < 0x40 {
            self.srl_r(mem, op);
        }
    }

    /// The CB BIT, RES and SET families (sub-opcodes 0x40 and above).
    #[verifier::rlimit(100)]
    #[verifier::spinoff_prover]
    fn cb_bit_ops(&mut self, mem: &mut Memory, cb_opcode: u8)
        requires
            cpu_wf(*old(self)),
            mem_wf(*old(mem)),
            0x40 <= cb_opcode,
        ensures
            cpu_wf(*final(self)),
            mem_wf(*final(mem)),
            final(self).cycles == old(self).cycles,
            final(self).ei_pending == old(self).ei_pending,
            final(self).halted == old(self).halted,
            final(self).halt_bug == old(self).halt_bug,
            final(self).registers.ime == old(self).registers.ime,
            spec_execute_cb_post(*old(self), *old(mem), *final(self), *final(mem), cb_opcode),
    {
        proof {
            reveal(spec_execute_cb_post);
        }
        let op = Operand::from_index(cb_opcode % 8);
        if cb_opcode < 0x80 {
            self.bit_n_r(mem, op, (cb_opcode / 8) % 8);
        } else if cb_opcode < 0xC0 {
            self.res_n_r(mem, op, (cb_opcode / 8) % 8);
        } else {
            self.set_n_r(mem, op, (cb_opcode / 8) % 8);
        }
    }

    /// DI: clear IME and any pending EI at once.
    fn di(&mut self)
        ensures
            *final(self) == (Cpu {
                registers: Registers { ime: 0, ..old(self).registers },
                ei_pending: false,
                ..*old(self)
            }),
    {
        self.registers.write_ime(0);
        self.ei_pending = false;
    }

    /// EI: interrupts enable only after the next instruction.
    fn ei(&mut self)
        ensures
            *final(self) == (Cpu { ei_pending: true, ..*old(self) }),
    {
        self.ei_pending = true;
    }

    /// JR e: jump relative to the end of this two-byte instruction.
    fn jr_e(&mut self, mem: &mut Memory)
        requires
            cpu_wf(*old(self)),
            mem_wf(*old(mem)),
        ensures
            cpu_wf(*final(self)),
            *final(mem) == *old(mem),
            *final(self) == (Cpu {
                registers: spec_with_r16(
                    old(self).registers,
                    Reg16::PC,
                    ((old(self).registers.pc + 2 + spec_sign_extend(
                        spec_imm8(*old(self), *old(mem)),
                    )) % 0x10000) as u16,
                ),
                ..*old(self)
            }),
    {
        let offset = mem.read_8(self.registers.read_r16(Reg16::PC).wrapping_add(1));
        let pc = self.registers.read_r16(Reg16::PC);
        let offset16: u16 = if offset < 128 {
            offset as u16
        } else {
            offset as u16 + 0xFF00
        };
        let target = pc.wrapping_add(2).wrapping_add(offset16);
        self.registers.write_r16(Reg16::PC, target);
        proof {
            lemma_wrap_add3(pc, offset16);
        }
    }

    /// JR cc, e: as JR when the condition holds, else fall through to the
    /// next instruction.
    fn jr_f_e(&mut self, mem: &mut Memory, cflag: char, want: bool)
        requires
            cpu_wf(*old(self)),
            mem_wf(*old(mem)),
            cflag == 'c' || cflag == 'z',
        ensures
            cpu_wf(*final(self)),
            *final(mem) == *old(mem),
            *final(self) == (Cpu {
                registers: spec_with_r16(
                    old(self).registers,
                    Reg16::PC,
                    if spec_cond(old(self).registers, cflag, want) {
                        ((old(self).registers.pc + 2 + spec_sign_extend(
                            spec_imm8(*old(self), *old(mem)),
                        )) % 0x10000) as u16
                    } else {
                        ((old(self).registers.pc + 2) % 0x10000) as u16
                    },
                ),
                ..*old(self)
            }),
    {
        if self.cond_met(cflag, want) {
            self.jr_e(mem);
        } else {
            let pc = self.registers.read_r16(Reg16::PC);
            self.registers.write_r16(Reg16::PC, pc.wrapping_add(2));
        }
    }

    /// Whether a conditional instruction's condition holds.
    fn cond_met(&self, cflag: char, want: bool) -> (b: bool)
        requires
            cflag == 'c' || cflag == 'z',
        ensures
            b == spec_cond(self.registers, cflag, want),
    {
        let f = self.registers.read_r8(Reg8::F);
        if cflag == 'z' {
            ((f / 128) % 2 == 1) == want
        } else {
            ((f / 16) % 2 == 1) == want
        }
    }

    /// JP nn.
    fn jp_nn(&mut self, mem: &mut Memory)
        requires
            cpu_wf(*old(self)),
            mem_wf(*old(mem)),
        ensures
            cpu_wf(*final(self)),
            *final(mem) == *old(mem),
            *final(self) == (Cpu {
                registers: spec_with_r16(
                    old(self).registers,
                    Reg16::PC,
                    spec_imm16(*old(self), *old(mem)),
                ),
                ..*old(self)
            }),
    {
        let target = mem.read_16(self.registers.read_r16(Reg16::PC).wrapping_add(1));
        self.registers.write_r16(Reg16::PC, target);
    }

    /// JP cc, nn.
    fn jp_f_nn(&mut self, mem: &mut Memory, cflag: char, want: bool)
        requires
            cpu_wf(*old(self)),
            mem_wf(*old(mem)),
            cflag == 'c' || cflag == 'z',
        ensures
            cpu_wf(*final(self)),
            *final(mem) == *old(mem),
            *final(self) == (Cpu {
                registers: spec_with_r16(
                    old(self).registers,
                    Reg16::PC,
                    if spec_cond(old(self).registers, cflag, want) {
                        spec_imm16(*old(self), *old(mem))
                    } else {
                        ((old(self).registers.pc + 3) % 0x10000) as u16
                    },
                ),
                ..*old(self)
            }),
    {
        if self.cond_met(cflag, want) {
            self.jp_nn(mem);
        } else {
            let pc = self.registers.read_r16(Reg16::PC);
            self.registers.write_r16(Reg16::PC, pc.wrapping_add(3));
        }
    }

    /// JP (HL).
    fn jp_hl(&mut self)
        requires
            cpu_wf(*old(self)),
        ensures
            cpu_wf(*final(self)),
            *final(self) == (Cpu {
                registers: spec_with_r16(old(self).registers, Reg16::PC, old(self).registers.hl),
                ..*old(self)
            }),
    {
        let hl = self.registers.read_r16(Reg16::HL);
        self.registers.write_r16(Reg16::PC, hl);
    }

    /// CALL nn: push the return address and jump.
    #[verifier::rlimit(100)]
    fn call_nn(&mut self, mem: &mut Memory)
        requires
            cpu_wf(*old(self)),
            mem_wf(*old(mem)),
        ensures
            cpu_wf(*final(self)),
            mem_wf(*final(mem)),
            *final(self) == (Cpu {
                registers: spec_with_r16(
                    spec_with_r16(
                        old(self).registers,
                        Reg16::SP,
                        ((old(self).registers.sp + 0x10000 - 2) % 0x10000) as u16,
                    ),
                    Reg16::PC,
                    spec_imm16(*old(self), *old(mem)),
                ),
                ..*old(self)
            }),
            spec_write16_post(
                *old(mem),
                *final(mem),
                ((old(self).registers.sp + 0x10000 - 2) % 0x10000) as u16,
                ((old(self).registers.pc + 3) % 0x10000) as u16,
            ),
    {
        let target = mem.read_16(self.registers.read_r16(Reg16::PC).wrapping_add(1));
        let return_address = self.registers.read_r16(Reg16::PC).wrapping_add(3);
        let sp = self.registers.read_r16(Reg16::SP);
        let new_sp = sp.wrapping_sub(2);
        self.registers.write_r16(Reg16::SP, new_sp);
        mem.write_16(new_sp, return_address);
        self.registers.write_r16(Reg16::PC, target);
    }

    /// CALL cc, nn.
    #[verifier::rlimit(100)]
    fn call_f_nn(&mut self, mem: &mut Memory, cflag: char, want: bool)
        requires
            cpu_wf(*old(self)),
            mem_wf(*old(mem)),
            cflag == 'c' || cflag == 'z',
        ensures
            cpu_wf(*final(self)),
            mem_wf(*final(mem)),
            spec_cond(old(self).registers, cflag, want) ==> *final(self) == (Cpu {
                registers: spec_with_r16(
                    spec_with_r16(
                        old(self).registers,
                        Reg16::SP,
                        ((old(self).registers.sp + 0x10000 - 2) % 0x10000) as u16,
                    ),
                    Reg16::PC,
                    spec_imm16(*old(self), *old(mem)),
                ),
                ..*old(self)
            }) && spec_write16_post(
                *old(mem),
                *final(mem),
                ((old(self).registers.sp + 0x10000 - 2) % 0x10000) as u16,
                ((old(self).registers.pc + 3) % 0x10000) as u16,
            ),
            !spec_cond(old(self).registers, cflag, want) ==> *final(mem) == *old(mem) && *final(self) == (Cpu {
                registers: spec_with_r16(
                    old(self).registers,
                    Reg16::PC,
                    ((old(self).registers.pc + 3) % 0x10000) as u16,
                ),
                ..*old(self)
            }),
    {
        if self.cond_met(cflag, want) {
            self.call_nn(mem);
        } else {
            let pc = self.registers.read_r16(Reg16::PC);
            self.registers.write_r16(Reg16::PC, pc.wrapping_add(3));
        }
    }

    /// RST v: push the address of the next instruction and jump to the
    /// fixed vector.
    #[verifier::rlimit(100)]
    fn rst(&mut self, mem: &mut Memory, value: u16)
        requires
            cpu_wf(*old(self)),
            mem_wf(*old(mem)),
        ensures
            cpu_wf(*final(self)),
            mem_wf(*final(mem)),
            *final(self) == (Cpu {
                registers: spec_with_r16(
                    spec_with_r16(
                        old(self).registers,
                        Reg16::SP,
                        ((old(self).registers.sp + 0x10000 - 2) % 0x10000) as u16,
                    ),
                    Reg16::PC,
                    value,
                ),
                ..*old(self)
            }),
            spec_write16_post(
                *old(mem),
                *final(mem),
                ((old(self).registers.sp + 0x10000 - 2) % 0x10000) as u16,
                ((old(self).registers.pc + 1) % 0x10000) as u16,
            ),
    {
        let return_address = self.registers.read_r16(Reg16::PC).wrapping_add(1);
        let sp = self.registers.read_r16(Reg16::SP);
        let new_sp = sp.wrapping_sub(2);
        self.registers.write_r16(Reg16::SP, new_sp);
        mem.write_16(new_sp, return_address);
        self.registers.write_r16(Reg16::PC, value);
    }

    /// RET: pop the return address into PC.
    fn ret(&mut self, mem: &mut Memory)
        requires
            cpu_wf(*old(self)),
            mem_wf(*old(mem)),
        ensures
            cpu_wf(*final(self)),
            *final(mem) == *old(mem),
            *final(self) == (Cpu {
                registers: spec_with_r16(
                    spec_with_r16(
                        old(self).registers,
                        Reg16::SP,
                        ((old(self).registers.sp + 2) % 0x10000) as u16,
                    ),
                    Reg16::PC,
                    spec_mem_read16(*old(mem), old(self).registers.sp),
                ),
                ..*old(self)
            }),
    {
        let value = mem.read_16(self.registers.read_r16(Reg16::SP));
        let sp = self.registers.read_r16(Reg16::SP);
        self.registers.write_r16(Reg16::SP, sp.wrapping_add(2));
        self.registers.write_r16(Reg16::PC, value);
    }

    /// RET cc.
    fn ret_f(&mut self, mem: &mut Memory, cflag: char, want: bool)
        requires
            cpu_wf(*old(self)),
            mem_wf(*old(mem)),
            cflag == 'c' || cflag == 'z',
        ensures
            cpu_wf(*final(self)),
            *final(mem) == *old(mem),
            spec_cond(old(self).registers, cflag, want) ==> *final(self) == (Cpu {
                registers: spec_with_r16(
                    spec_with_r16(
                        old(self).registers,
                        Reg16::SP,
                        ((old(self).registers.sp + 2) % 0x10000) as u16,
                    ),
                    Reg16::PC,
                    spec_mem_read16(*old(mem), old(self).registers.sp),
                ),
                ..*old(self)
            }),
            !spec_cond(old(self).registers, cflag, want) ==> *final(self) == (Cpu {
                registers: spec_with_r16(
                    old(self).registers,
                    Reg16::PC,
                    ((old(self).registers.pc + 1) % 0x10000) as u16,
                ),
                ..*old(self)
            }),
    {
        if self.cond_met(cflag, want) {
            self.ret(mem);
        } else {
            let pc = self.registers.read_r16(Reg16::PC);
            self.registers.write_r16(Reg16::PC, pc.wrapping_add(1));
        }
    }

    /// RETI: RET, then re-enable interrupts at once.
    fn reti(&mut self, mem: &mut Memory)
        requires
            cpu_wf(*old(self)),
            mem_wf(*old(mem)),
        ensures
            cpu_wf(*final(self)),
            *final(mem) == *old(mem),
            *final(self) == (Cpu {
                registers: Registers {
                    ime: 1,
                    ..spec_with_r16(
                        spec_with_r16(
                            old(self).registers,
                            Reg16::SP,
                            ((old(self).registers.sp + 2) % 0x10000) as u16,
                        ),
                        Reg16::PC,
                        spec_mem_read16(*old(mem), old(self).registers.sp),
                    )
                },
                ..*old(self)
            }),
    {
        self.ret(mem);
        self.registers.write_ime(1);
    }
}

/// Whether a conditional instruction's flag test holds: 'z' tests the zero
/// flag and 'c' the carry flag against the wanted value.
pub open spec fn spec_cond(r: Registers, cflag: char, want: bool) -> bool {
    if cflag == 'z' {
        spec_zf(spec_r8(r, Reg8::F)) == want
    } else {
        spec_cf(spec_r8(r, Reg8::F)) == want
    }
}

/// Whether any of the five interrupt lines is both enabled and requested.
pub open spec fn spec_irq_pending5(ie: u8, iff: u8) -> bool {
    exists|i: u8|
        i < 5 && #[trigger] crate::ppu::spec_bit(ie, i) == 1 && crate::ppu::spec_bit(iff, i) == 1
}

/// Whether any of the five interrupt lines is both enabled and requested.
fn irq_pending5(ie: u8, iff: u8) -> (b: bool)
    ensures
        b == spec_irq_pending5(ie, iff),
{
    let mut b = false;
    if bit_u8(ie, 0) == 1 && bit_u8(iff, 0) == 1 {
        b = true;
        proof {
            assert(crate::ppu::spec_bit(ie, 0) == 1 && crate::ppu::spec_bit(iff, 0) == 1);
        }
    }
    if bit_u8(ie, 1) == 1 && bit_u8(iff, 1) == 1 {
        b = true;
        proof {
            assert(crate::ppu::spec_bit(ie, 1) == 1 && crate::ppu::spec_bit(iff, 1) == 1);
        }
    }
    if bit_u8(ie, 2) == 1 && bit_u8(iff, 2) == 1 {
        b = true;
        proof {
            assert(crate::ppu::spec_bit(ie, 2) == 1 && crate::ppu::spec_bit(iff, 2) == 1);
        }
    }
    if bit_u8(ie, 3) == 1 && bit_u8(iff, 3) == 1 {
        b = true;
        proof {
            assert(crate::ppu::spec_bit(ie, 3) == 1 && crate::ppu::spec_bit(iff, 3) == 1);
        }
    }
    if bit_u8(ie, 4) == 1 && bit_u8(iff, 4) == 1 {
        b = true;
        proof {
            assert(crate::ppu::spec_bit(ie, 4) == 1 && crate::ppu::spec_bit(iff, 4) == 1);
        }
    }
    proof {
        if !b {
            assert forall|i: u8| i < 5 implies !(#[trigger] crate::ppu::spec_bit(ie, i) == 1
                && crate::ppu::spec_bit(iff, i) == 1) by {
                if i == 0 {
                } else if i == 1 {
                } else if i == 2 {
                } else if i == 3 {
                } else {
                    assert(i == 4);
                }
            }
        }
    }
    b
}

/// Bit `n` of a byte, as 0 or 1.
fn bit_u8(v: u8, n: u8) -> (r: u8)
    requires
        n < 8,
    ensures
        r == crate::ppu::spec_bit(v, n),
{
    let d = pow2_u8(n);
    (v / d) % 2
}

/// Two to the power `n`, for bit selection.
fn pow2_u8(n: u8) -> (r: u8)
    requires
        n < 8,
    ensures
        r == crate::ppu::spec_pow2(n),
        r >= 1,
{
    if n == 0 {
        1
    } else if n == 1 {
        2
    } else if n == 2 {
        4
    } else if n == 3 {
        8
    } else if n == 4 {
        16
    } else if n == 5 {
        32
    } else if n == 6 {
        64
    } else {
        128
    }
}

/// Setting a clear bit keeps the byte within range.
proof fn lemma_set_bit_fits(v: u8, p: u8, n: u8)
    by (nonlinear_arith)
    requires
        n < 8,
        p == crate::ppu::spec_pow2(n),
        (v / p) % 2 == 0,
    ensures
        v + p <= 255,
{
}

/// Wrapping additions chain like a single sum modulo 65536.
proof fn lemma_wrap_add3(pc: u16, off: u16)
    by (nonlinear_arith)
    ensures
        vstd::wrapping::u16_specs::wrapping_add(
            vstd::wrapping::u16_specs::wrapping_add(pc, 2),
            off,
        ) == (pc + 2 + off) % 0x10000,
{
}


/// The BCD adjustment DAA applies to A, and whether it sets the carry:
/// after an addition (N clear) 0x06/0x60 are added per nibble overflow,
/// after a subtraction they are subtracted per the borrow flags.
pub open spec fn spec_daa(a: u8, n: bool, h: bool, c: bool) -> (u8, bool) {
    let set_carry = if n {
        c
    } else {
        c || a > 0x99
    };
    let adjust = (if set_carry {
        0x60int
    } else {
        0int
    }) + (if h || (!n && a % 16 > 9) {
        0x06int
    } else {
        0int
    });
    if n {
        (((a + 256 - adjust) % 256) as u8, set_carry)
    } else {
        (((a + adjust) % 256) as u8, set_carry)
    }
}

/// The executable BCD adjustment.
#[verifier::rlimit(100)]
fn daa_compute(a: u8, n: bool, h: bool, c: bool) -> (r: (u8, bool))
    ensures
        r == spec_daa(a, n, h, c),
{
    let set_carry: bool = if n {
        c
    } else {
        c || a > 0x99
    };
    let adjust: u8 = (if set_carry {
        0x60
    } else {
        0
    }) + (if h || (!n && a % 16 > 9) {
        0x06
    } else {
        0
    });
    let value: u8 = if n {
        if a < adjust {
            255 - adjust + 1 + a
        } else {
            a - adjust
        }
    } else {
        if a as u16 + adjust as u16 > 255 {
            ((a as u16 + adjust as u16) - 256) as u8
        } else {
            a + adjust
        }
    };
    (value, set_carry)
}


/// The tabulated base duration of a primary opcode, in T-cycles: the
/// not-taken value for conditional branches (a taken branch adds twelve),
/// while the eleven invalid opcodes act as four-cycle no-ops.
pub open spec fn spec_opcode_duration(op: u8) -> u8 {
    if op == 0x02 || op == 0x03 || op == 0x06 || op == 0x09 || op == 0x0A || op == 0x0B || op == 0x0E || op == 0x12 || op == 0x13 || op == 0x16 || op == 0x19 || op == 0x1A || op == 0x1B || op == 0x1E || op == 0x20 || op == 0x22 || op == 0x23 || op == 0x26 || op == 0x28 || op == 0x29 || op == 0x2A || op == 0x2B || op == 0x2E || op == 0x30 || op == 0x32 || op == 0x33 || op == 0x38 || op == 0x39 || op == 0x3A || op == 0x3B || op == 0x3E || op == 0x46 || op == 0x4E || op == 0x56 || op == 0x5E || op == 0x66 || op == 0x6E || op == 0x70 || op == 0x71 || op == 0x72 || op == 0x73 || op == 0x74 || op == 0x75 || op == 0x77 || op == 0x7E || op == 0x86 || op == 0x8E || op == 0x96 || op == 0x9E || op == 0xA6 || op == 0xAE || op == 0xB6 || op == 0xBE || op == 0xC0 || op == 0xC6 || op == 0xC8 || op == 0xCE || op == 0xD0 || op == 0xD6 || op == 0xD8 || op == 0xDE || op == 0xE2 || op == 0xE6 || op == 0xEE || op == 0xF2 || op == 0xF6 || op == 0xF9 || op == 0xFE {
        8
    } else if op == 0x01 || op == 0x11 || op == 0x18 || op == 0x21 || op == 0x31 || op == 0x34 || op == 0x35 || op == 0x36 || op == 0xC1 || op == 0xC2 || op == 0xC4 || op == 0xCA || op == 0xCC || op == 0xD1 || op == 0xD2 || op == 0xD4 || op == 0xDA || op == 0xDC || op == 0xE0 || op == 0xE1 || op == 0xF0 || op == 0xF1 || op == 0xF8 {
        12
    } else if op == 0xC3 || op == 0xC5 || op == 0xC7 || op == 0xC9 || op == 0xCF || op == 0xD5 || op == 0xD7 || op == 0xD9 || op == 0xDF || op == 0xE5 || op == 0xE7 || op == 0xE8 || op == 0xEA || op == 0xEF || op == 0xF5 || op == 0xF7 || op == 0xFA || op == 0xFF {
        16
    } else if op == 0x08 {
        20
    } else if op == 0xCD {
        24
    } else {
        4
    }
}

/// The tabulated base duration of a primary opcode.
#[verifier::rlimit(100)]
pub fn opcode_duration(op: u8) -> (r: u8)
    ensures
        r == spec_opcode_duration(op),
        4 <= r <= 24,
{
    if op == 0x02 || op == 0x03 || op == 0x06 || op == 0x09 || op == 0x0A || op == 0x0B || op == 0x0E || op == 0x12 || op == 0x13 || op == 0x16 || op == 0x19 || op == 0x1A || op == 0x1B || op == 0x1E || op == 0x20 || op == 0x22 || op == 0x23 || op == 0x26 || op == 0x28 || op == 0x29 || op == 0x2A || op == 0x2B || op == 0x2E || op == 0x30 || op == 0x32 || op == 0x33 || op == 0x38 || op == 0x39 || op == 0x3A || op == 0x3B || op == 0x3E || op == 0x46 || op == 0x4E || op == 0x56 || op == 0x5E || op == 0x66 || op == 0x6E || op == 0x70 || op == 0x71 || op == 0x72 || op == 0x73 || op == 0x74 || op == 0x75 || op == 0x77 || op == 0x7E || op == 0x86 || op == 0x8E || op == 0x96 || op == 0x9E || op == 0xA6 || op == 0xAE || op == 0xB6 || op == 0xBE || op == 0xC0 || op == 0xC6 || op == 0xC8 || op == 0xCE || op == 0xD0 || op == 0xD6 || op == 0xD8 || op == 0xDE || op == 0xE2 || op == 0xE6 || op == 0xEE || op == 0xF2 || op == 0xF6 || op == 0xF9 || op == 0xFE {
        8
    } else if op == 0x01 || op == 0x11 || op == 0x18 || op == 0x21 || op == 0x31 || op == 0x34 || op == 0x35 || op == 0x36 || op == 0xC1 || op == 0xC2 || op == 0xC4 || op == 0xCA || op == 0xCC || op == 0xD1 || op == 0xD2 || op == 0xD4 || op == 0xDA || op == 0xDC || op == 0xE0 || op == 0xE1 || op == 0xF0 || op == 0xF1 || op == 0xF8 {
        12
    } else if op == 0xC3 || op == 0xC5 || op == 0xC7 || op == 0xC9 || op == 0xCF || op == 0xD5 || op == 0xD7 || op == 0xD9 || op == 0xDF || op == 0xE5 || op == 0xE7 || op == 0xE8 || op == 0xEA || op == 0xEF || op == 0xF5 || op == 0xF7 || op == 0xFA || op == 0xFF {
        16
    } else if op == 0x08 {
        20
    } else if op == 0xCD {
        24
    } else {
        4
    }
}

/// The tabulated byte length of a primary opcode; invalid opcodes have
/// length zero and advance PC by the single byte the decoder consumed.
pub open spec fn spec_opcode_length(op: u8) -> u8 {
    if op == 0xD3 || op == 0xDB || op == 0xDD || op == 0xE3 || op == 0xE4 || op == 0xEB || op == 0xEC || op == 0xED || op == 0xF4 || op == 0xFC || op == 0xFD {
        0
    } else if op == 0x06 || op == 0x0E || op == 0x10 || op == 0x16 || op == 0x18 || op == 0x1E || op == 0x20 || op == 0x26 || op == 0x28 || op == 0x2E || op == 0x30 || op == 0x36 || op == 0x38 || op == 0x3E || op == 0xC6 || op == 0xCB || op == 0xCE || op == 0xD6 || op == 0xDE || op == 0xE0 || op == 0xE6 || op == 0xE8 || op == 0xEE || op == 0xF0 || op == 0xF6 || op == 0xF8 || op == 0xFE {
        2
    } else if op == 0x01 || op == 0x08 || op == 0x11 || op == 0x21 || op == 0x31 || op == 0xC2 || op == 0xC3 || op == 0xC4 || op == 0xCA || op == 0xCC || op == 0xCD || op == 0xD2 || op == 0xD4 || op == 0xDA || op == 0xDC || op == 0xEA || op == 0xFA {
        3
    } else {
        1
    }
}

/// The tabulated byte length of a primary opcode.
#[verifier::rlimit(100)]
pub fn opcode_length(op: u8) -> (r: u8)
    ensures
        r == spec_opcode_length(op),
        r <= 3,
{
    if op == 0xD3 || op == 0xDB || op == 0xDD || op == 0xE3 || op == 0xE4 || op == 0xEB || op == 0xEC || op == 0xED || op == 0xF4 || op == 0xFC || op == 0xFD {
        0
    } else if op == 0x06 || op == 0x0E || op == 0x10 || op == 0x16 || op == 0x18 || op == 0x1E || op == 0x20 || op == 0x26 || op == 0x28 || op == 0x2E || op == 0x30 || op == 0x36 || op == 0x38 || op == 0x3E || op == 0xC6 || op == 0xCB || op == 0xCE || op == 0xD6 || op == 0xDE || op == 0xE0 || op == 0xE6 || op == 0xE8 || op == 0xEE || op == 0xF0 || op == 0xF6 || op == 0xF8 || op == 0xFE {
        2
    } else if op == 0x01 || op == 0x08 || op == 0x11 || op == 0x21 || op == 0x31 || op == 0xC2 || op == 0xC3 || op == 0xC4 || op == 0xCA || op == 0xCC || op == 0xCD || op == 0xD2 || op == 0xD4 || op == 0xDA || op == 0xDC || op == 0xEA || op == 0xFA {
        3
    } else {
        1
    }
}

/// The tabulated duration of a CB-prefixed opcode: sixteen T-cycles for the
/// (HL) operand column, eight for register operands.
pub open spec fn spec_cb_duration(cb: u8) -> u8 {
    if cb % 8 == 6 {
        16
    } else {
        8
    }
}

/// The tabulated duration of a CB-prefixed opcode.
pub fn cb_duration(cb: u8) -> (r: u8)
    ensures
        r == spec_cb_duration(cb),
{
    if cb % 8 == 6 {
        16
    } else {
        8
    }
}

/// Whether an opcode is one of the sixteen conditional branches (JR cc,
/// JP cc, CALL cc, RET cc).
pub open spec fn spec_is_cond_branch(op: u8) -> bool {
    op == 0x20 || op == 0x28 || op == 0x30 || op == 0x38 || op == 0xC0 || op == 0xC2 || op == 0xC4
        || op == 0xC8 || op == 0xCA || op == 0xCC || op == 0xD0 || op == 0xD2 || op == 0xD4 || op
        == 0xD8 || op == 0xDA || op == 0xDC
}

/// The condition a conditional branch opcode tests, against the given flag
/// byte.  Non-branch opcodes take no condition.
pub open spec fn spec_branch_taken(op: u8, f: u8) -> bool {
    if op == 0x20 || op == 0xC0 || op == 0xC2 || op == 0xC4 {
        !spec_zf(f)
    } else if op == 0x28 || op == 0xC8 || op == 0xCA || op == 0xCC {
        spec_zf(f)
    } else if op == 0x30 || op == 0xD0 || op == 0xD2 || op == 0xD4 {
        !spec_cf(f)
    } else if op == 0x38 || op == 0xD8 || op == 0xDA || op == 0xDC {
        spec_cf(f)
    } else {
        false
    }
}

/// The twelve extra T-cycles a taken conditional jump, call or return
/// costs above its tabulated not-taken duration.
pub open spec fn spec_branch_surcharge(op: u8, f: u8) -> u8 {
    if spec_branch_taken(op, f) {
        12
    } else {
        0
    }
}

/// The taken-branch surcharge of an opcode under the given flag byte.
pub fn branch_surcharge(op: u8, f: u8) -> (r: u8)
    ensures
        r == spec_branch_surcharge(op, f),
        r == 0 || r == 12,
{
    let zf = (f / 128) % 2 == 1;
    let cf = (f / 16) % 2 == 1;
    let taken: bool = if op == 0x20 || op == 0xC0 || op == 0xC2 || op == 0xC4 {
        !zf
    } else if op == 0x28 || op == 0xC8 || op == 0xCA || op == 0xCC {
        zf
    } else if op == 0x30 || op == 0xD0 || op == 0xD2 || op == 0xD4 {
        !cf
    } else if op == 0x38 || op == 0xD8 || op == 0xDA || op == 0xDC {
        cf
    } else {
        false
    };
    if taken {
        12
    } else {
        0
    }
}

/// Whether an opcode writes PC itself (jumps, calls, returns, RST), so
/// that the fetch unit must not advance PC after it.
pub open spec fn spec_pc_modifying(op: u8) -> bool {
    op == 0x18 || op == 0x20 || op == 0x28 || op == 0x30 || op == 0x38 || op == 0xC0 || op == 0xC2 || op == 0xC3 || op == 0xC4 || op == 0xC7 || op == 0xC8 || op == 0xC9 || op == 0xCA || op == 0xCC || op == 0xCD || op == 0xCF || op == 0xD0 || op == 0xD2 || op == 0xD4 || op == 0xD7 || op == 0xD8 || op == 0xD9 || op == 0xDA || op == 0xDC || op == 0xDF || op == 0xE7 || op == 0xE9 || op == 0xEF || op == 0xF7 || op == 0xFF
}

/// Whether an opcode writes PC itself.
pub fn is_pc_modifying(op: u8) -> (r: bool)
    ensures
        r == spec_pc_modifying(op),
{
    op == 0x18 || op == 0x20 || op == 0x28 || op == 0x30 || op == 0x38 || op == 0xC0 || op == 0xC2 || op == 0xC3 || op == 0xC4 || op == 0xC7 || op == 0xC8 || op == 0xC9 || op == 0xCA || op == 0xCC || op == 0xCD || op == 0xCF || op == 0xD0 || op == 0xD2 || op == 0xD4 || op == 0xD7 || op == 0xD8 || op == 0xD9 || op == 0xDA || op == 0xDC || op == 0xDF || op == 0xE7 || op == 0xE9 || op == 0xEF || op == 0xF7 || op == 0xFF
}

/// The lowest-priority-number interrupt line that is both enabled and
/// requested: VBlank 0, LCD-STAT 1, Timer 2, Serial 3, Joypad 4; 5 when
/// none is pending.
pub open spec fn spec_lowest_irq(ie: u8, iff: u8) -> int {
    if crate::ppu::spec_bit(ie, 0) == 1 && crate::ppu::spec_bit(iff, 0) == 1 {
        0
    } else if crate::ppu::spec_bit(ie, 1) == 1 && crate::ppu::spec_bit(iff, 1) == 1 {
        1
    } else if crate::ppu::spec_bit(ie, 2) == 1 && crate::ppu::spec_bit(iff, 2) == 1 {
        2
    } else if crate::ppu::spec_bit(ie, 3) == 1 && crate::ppu::spec_bit(iff, 3) == 1 {
        3
    } else if crate::ppu::spec_bit(ie, 4) == 1 && crate::ppu::spec_bit(iff, 4) == 1 {
        4
    } else {
        5
    }
}

/// The lowest pending interrupt line, or 5 when none is pending.
fn lowest_irq(ie: u8, iff: u8) -> (i: u8)
    ensures
        i == spec_lowest_irq(ie, iff),
        i <= 5,
{
    if bit_u8(ie, 0) == 1 && bit_u8(iff, 0) == 1 {
        0
    } else if bit_u8(ie, 1) == 1 && bit_u8(iff, 1) == 1 {
        1
    } else if bit_u8(ie, 2) == 1 && bit_u8(iff, 2) == 1 {
        2
    } else if bit_u8(ie, 3) == 1 && bit_u8(iff, 3) == 1 {
        3
    } else if bit_u8(ie, 4) == 1 && bit_u8(iff, 4) == 1 {
        4
    } else {
        5
    }
}

/// IF merged with the five peripheral request latches: each latch forces
/// its bit, the other bits of IF carry over.
pub open spec fn spec_merged_if(
    if0: u8,
    vblank: bool,
    stat: bool,
    timer: bool,
    serial: bool,
    joypad: bool,
) -> u8 {
    (((if0 - if0 % 32) as int) + (if crate::ppu::spec_bit(if0, 0) == 1 || vblank {
        1int
    } else {
        0int
    }) + (if crate::ppu::spec_bit(if0, 1) == 1 || stat {
        2int
    } else {
        0int
    }) + (if crate::ppu::spec_bit(if0, 2) == 1 || timer {
        4int
    } else {
        0int
    }) + (if crate::ppu::spec_bit(if0, 3) == 1 || serial {
        8int
    } else {
        0int
    }) + (if crate::ppu::spec_bit(if0, 4) == 1 || joypad {
        16int
    } else {
        0int
    })) as u8
}

/// IF merged with the five peripheral request latches.
fn merged_if(if0: u8, vblank: bool, stat: bool, timer: bool, serial: bool, joypad: bool) -> (r: u8)
    ensures
        r == spec_merged_if(if0, vblank, stat, timer, serial, joypad),
{
    let b0: u8 = if bit_u8(if0, 0) == 1 || vblank {
        1
    } else {
        0
    };
    let b1: u8 = if bit_u8(if0, 1) == 1 || stat {
        2
    } else {
        0
    };
    let b2: u8 = if bit_u8(if0, 2) == 1 || timer {
        4
    } else {
        0
    };
    let b3: u8 = if bit_u8(if0, 3) == 1 || serial {
        8
    } else {
        0
    };
    let b4: u8 = if bit_u8(if0, 4) == 1 || joypad {
        16
    } else {
        0
    };
    (if0 - if0 % 32) + b0 + b1 + b2 + b3 + b4
}

/// What syncing the peripheral latches into IF leaves behind: every latch
/// cleared, and IF (in main memory) merged with the latches that were up,
/// touched only when one was.
pub open spec fn spec_sync_post(m0: Memory, m1: Memory) -> bool {
    let if0 = spec_mem_read(m0, 0xFF0F);
    let any = m0.ppu.vblank_interrupt || m0.ppu.stat_interrupt || m0.timer.interrupt_pending
        || m0.serial.interrupt_pending || m0.joypad.interrupt_requested;
    &&& m1 == (Memory {
        main_memory: m1.main_memory,
        ppu: m1.ppu,
        timer: m1.timer,
        serial: m1.serial,
        joypad: m1.joypad,
        ..m0
    })
    &&& m1.ppu == (crate::ppu::Ppu {
        vblank_interrupt: false,
        stat_interrupt: false,
        ..m0.ppu
    })
    &&& m1.timer == (crate::timer::Timer { interrupt_pending: false, ..m0.timer })
    &&& m1.serial == (crate::serial::Serial { interrupt_pending: false, ..m0.serial })
    &&& m1.joypad == (crate::joypad::Joypad { interrupt_requested: false, ..m0.joypad })
    &&& m1.main_memory@ == if any {
        m0.main_memory@.update(
            0xFF0F,
            spec_merged_if(
                if0,
                m0.ppu.vblank_interrupt,
                m0.ppu.stat_interrupt,
                m0.timer.interrupt_pending,
                m0.serial.interrupt_pending,
                m0.joypad.interrupt_requested,
            ),
        )
    } else {
        m0.main_memory@
    }
}

/// The IF value seen by interrupt dispatch after the latch sync.
pub open spec fn spec_synced_if(m0: Memory) -> u8 {
    let if0 = spec_mem_read(m0, 0xFF0F);
    if m0.ppu.vblank_interrupt || m0.ppu.stat_interrupt || m0.timer.interrupt_pending
        || m0.serial.interrupt_pending || m0.joypad.interrupt_requested {
        spec_merged_if(
            if0,
            m0.ppu.vblank_interrupt,
            m0.ppu.stat_interrupt,
            m0.timer.interrupt_pending,
            m0.serial.interrupt_pending,
            m0.joypad.interrupt_requested,
        )
    } else {
        if0
    }
}

/// How servicing interrupt line `i` changes the bus: IF loses bit `i`,
/// then the old PC is pushed at SP-2.
pub open spec fn spec_service_mem_post(
    m0: Memory,
    m1: Memory,
    iff: u8,
    i: int,
    sp: u16,
    pc: u16,
) -> bool {
    exists|mif: Memory|
        #[trigger] spec_write_post(m0, mif, 0xFF0F, (iff - crate::ppu::spec_pow2(i as u8)) as u8)
            && spec_write16_post(mif, m1, ((sp + 0x10000 - 2) % 0x10000) as u16, pc)
}

/// The CPU after servicing interrupt line `i`: IME off, any pending EI and
/// halt dropped, PC at the vector 0x40 + 8 i, SP lowered by the push, and
/// twenty T-cycles charged.
pub open spec fn spec_service_cpu(c: Cpu, i: int) -> Cpu {
    Cpu {
        registers: Registers {
            ime: 0,
            ..spec_with_r16(
                spec_with_r16(c.registers, Reg16::SP, ((c.registers.sp + 0x10000 - 2) % 0x10000) as u16),
                Reg16::PC,
                (0x40 + 8 * i) as u16,
            )
        },
        ei_pending: false,
        halted: false,
        cycles: vstd::wrapping::u64_specs::wrapping_add(c.cycles, 20),
        ..c
    }
}


/// The register file after INC r: Z and H from the result, N clear,
/// C preserved.
pub open spec fn spec_inc8(r: Registers, reg: Reg8) -> Registers {
    let v = spec_r8(r, reg);
    let result = ((v + 1) % 256) as u8;
    spec_with_flags(
        spec_with_r8(r, reg, result),
        result == 0,
        false,
        v % 16 == 15,
        spec_cf(spec_r8(r, Reg8::F)),
    )
}

/// The register file after DEC r: Z and H from the result, N set,
/// C preserved.
pub open spec fn spec_dec8(r: Registers, reg: Reg8) -> Registers {
    let v = spec_r8(r, reg);
    let result = ((v + 255) % 256) as u8;
    spec_with_flags(
        spec_with_r8(r, reg, result),
        result == 0,
        true,
        v % 16 == 0,
        spec_cf(spec_r8(r, Reg8::F)),
    )
}

/// The register file after RLCA.
pub open spec fn spec_rlca_regs(r: Registers) -> Registers {
    let a = spec_r8(r, Reg8::A);
    spec_with_flags(spec_with_r8(r, Reg8::A, spec_rlc8(a)), false, false, false, a / 128 == 1)
}

/// The register file after RRCA.
pub open spec fn spec_rrca_regs(r: Registers) -> Registers {
    let a = spec_r8(r, Reg8::A);
    spec_with_flags(spec_with_r8(r, Reg8::A, spec_rrc8(a)), false, false, false, a % 2 == 1)
}

/// The register file after RLA.
pub open spec fn spec_rla_regs(r: Registers) -> Registers {
    let a = spec_r8(r, Reg8::A);
    spec_with_flags(
        spec_with_r8(r, Reg8::A, spec_rl8(a, spec_carry_in(r))),
        false,
        false,
        false,
        a / 128 == 1,
    )
}

/// The register file after RRA.
pub open spec fn spec_rra_regs(r: Registers) -> Registers {
    let a = spec_r8(r, Reg8::A);
    spec_with_flags(
        spec_with_r8(r, Reg8::A, spec_rr8(a, spec_carry_in(r))),
        false,
        false,
        false,
        a % 2 == 1,
    )
}

/// The register file after ADD HL, rr with the operand value `v`.
pub open spec fn spec_add_hl_regs(r: Registers, v: u16) -> Registers {
    let hl = r.hl;
    spec_with_flags(
        spec_with_r16(r, Reg16::HL, ((v + hl) % 0x10000) as u16),
        spec_zf(spec_r8(r, Reg8::F)),
        false,
        v % 4096 + hl % 4096 > 4095,
        v + hl > 0xFFFF,
    )
}

/// The register file after DAA.
pub open spec fn spec_daa_regs(r: Registers) -> Registers {
    let a = spec_r8(r, Reg8::A);
    let f = spec_r8(r, Reg8::F);
    let value = spec_daa(a, spec_nf(f), spec_hf(f), spec_cf(f)).0;
    let set_carry = spec_daa(a, spec_nf(f), spec_hf(f), spec_cf(f)).1;
    spec_with_r8(spec_with_flags(r, value == 0, spec_nf(f), false, set_carry), Reg8::A, value)
}

/// The register file after CPL: A complemented, N and H set, Z and C kept.
pub open spec fn spec_cpl_regs(r: Registers) -> Registers {
    let a = spec_r8(r, Reg8::A);
    let f = spec_r8(r, Reg8::F);
    spec_with_flags(
        spec_with_r8(r, Reg8::A, (255 - a) as u8),
        spec_zf(f),
        true,
        true,
        spec_cf(f),
    )
}

/// The register file after AND into A: H set, N and C clear.
pub open spec fn spec_and_a(r: Registers, v: u8) -> Registers {
    let result = spec_r8(r, Reg8::A) & v;
    spec_with_flags(spec_with_r8(r, Reg8::A, result), result == 0, false, true, false)
}

/// The register file after XOR into A: N, H and C clear.
pub open spec fn spec_xor_a(r: Registers, v: u8) -> Registers {
    let result = spec_r8(r, Reg8::A) ^ v;
    spec_with_flags(spec_with_r8(r, Reg8::A, result), result == 0, false, false, false)
}

/// The register file after OR into A: N, H and C clear.
pub open spec fn spec_or_a(r: Registers, v: u8) -> Registers {
    let result = spec_r8(r, Reg8::A) | v;
    spec_with_flags(spec_with_r8(r, Reg8::A, result), result == 0, false, false, false)
}

/// The register file after LD HL, SP+e: Z and N clear, H and C from the
/// unsigned low-byte addition.
pub open spec fn spec_ld_hl_sp_e_regs(r: Registers, e: u8) -> Registers {
    let sp = r.sp;
    spec_with_flags(
        spec_with_r16(r, Reg16::HL, ((sp + spec_sign_extend(e)) % 0x10000) as u16),
        false,
        false,
        sp % 16 + e % 16 > 15,
        sp % 256 + e > 255,
    )
}

/// The register file after ADD SP, e: Z and N clear, H and C from the
/// unsigned low-byte addition.
pub open spec fn spec_add_sp_e_regs(r: Registers, e: u8) -> Registers {
    let sp = r.sp;
    spec_with_flags(
        spec_with_r16(r, Reg16::SP, ((sp + spec_sign_extend(e)) % 0x10000) as u16),
        false,
        false,
        sp % 16 + e % 16 > 15,
        sp % 256 + e > 255,
    )
}

/// The register file after POP rr from the given bus state.
pub open spec fn spec_pop_regs(r: Registers, m: Memory, reg: Reg16) -> Registers {
    let r1 = spec_with_r16(r, reg, spec_mem_read16(m, r.sp));
    spec_with_r16(r1, Reg16::SP, ((spec_r16(r1, Reg16::SP) + 2) % 0x10000) as u16)
}

/// The register file after RET: PC popped, SP raised by two.
pub open spec fn spec_ret_regs(r: Registers, m: Memory) -> Registers {
    spec_with_r16(
        spec_with_r16(r, Reg16::SP, ((r.sp + 2) % 0x10000) as u16),
        Reg16::PC,
        spec_mem_read16(m, r.sp),
    )
}

/// The register file after the register half of CALL or RST: SP lowered by
/// two, PC at the target.
pub open spec fn spec_call_regs(r: Registers, target: u16) -> Registers {
    spec_with_r16(
        spec_with_r16(r, Reg16::SP, ((r.sp + 0x10000 - 2) % 0x10000) as u16),
        Reg16::PC,
        target,
    )
}

/// PC after a relative jump taken from this two-byte instruction.
pub open spec fn spec_jr_target(r: Registers, e: u8) -> u16 {
    ((r.pc + 2 + spec_sign_extend(e)) % 0x10000) as u16
}

/// How one CB-prefixed operation relates the machine before it to the
/// machine after it: flags are written first, then the rotated, shifted,
/// swapped or bit-edited operand (BIT writes flags only, RES/SET no flags).
pub open spec fn spec_execute_cb_post(c0: Cpu, m0: Memory, c1: Cpu, m1: Memory, cb: u8) -> bool {
    let op = spec_operand_from_index((cb % 8) as u8);
    let v = spec_operand(c0, m0, op);
    let n = ((cb / 8) % 8) as u8;
    if cb < 0x08 {
        operand_write_post(
            Cpu {
                registers: spec_with_flags(c0.registers, spec_rlc8(v) == 0, false, false, v / 128 == 1),
                ..c0
            },
            m0,
            c1,
            m1,
            op,
            spec_rlc8(v),
        )
    } else if cb < 0x10 {
        operand_write_post(
            Cpu {
                registers: spec_with_flags(c0.registers, spec_rrc8(v) == 0, false, false, v % 2 == 1),
                ..c0
            },
            m0,
            c1,
            m1,
            op,
            spec_rrc8(v),
        )
    } else if cb < 0x18 {
        operand_write_post(
            Cpu {
                registers: spec_with_flags(
                    c0.registers,
                    spec_rl8(v, spec_carry_in(c0.registers)) == 0,
                    false,
                    false,
                    v / 128 == 1,
                ),
                ..c0
            },
            m0,
            c1,
            m1,
            op,
            spec_rl8(v, spec_carry_in(c0.registers)),
        )
    } else if cb < 0x20 {
        operand_write_post(
            Cpu {
                registers: spec_with_flags(
                    c0.registers,
                    spec_rr8(v, spec_carry_in(c0.registers)) == 0,
                    false,
                    false,
                    v % 2 == 1,
                ),
                ..c0
            },
            m0,
            c1,
            m1,
            op,
            spec_rr8(v, spec_carry_in(c0.registers)),
        )
    } else if cb < 0x28 {
        operand_write_post(
            Cpu {
                registers: spec_with_flags(
                    c0.registers,
                    ((v % 128) * 2) as u8 == 0,
                    false,
                    false,
                    v / 128 == 1,
                ),
                ..c0
            },
            m0,
            c1,
            m1,
            op,
            ((v % 128) * 2) as u8,
        )
    } else if cb < 0x30 {
        operand_write_post(
            Cpu {
                registers: spec_with_flags(
                    c0.registers,
                    ((v / 2) + (v / 128) * 128) as u8 == 0,
                    false,
                    false,
                    v % 2 == 1,
                ),
                ..c0
            },
            m0,
            c1,
            m1,
            op,
            ((v / 2) + (v / 128) * 128) as u8,
        )
    } else if cb < 0x38 {
        operand_write_post(
            Cpu {
                registers: spec_with_flags(c0.registers, spec_swap8(v) == 0, false, false, false),
                ..c0
            },
            m0,
            c1,
            m1,
            op,
            spec_swap8(v),
        )
    } else if cb < 0x40 {
        operand_write_post(
            Cpu {
                registers: spec_with_flags(c0.registers, (v / 2) as u8 == 0, false, false, v % 2 == 1),
                ..c0
            },
            m0,
            c1,
            m1,
            op,
            (v / 2) as u8,
        )
    } else if cb < 0x80 {
        c1 == (Cpu {
            registers: spec_with_flags(
                c0.registers,
                crate::ppu::spec_bit(v, n) == 0,
                false,
                true,
                spec_cf(spec_r8(c0.registers, Reg8::F)),
            ),
            ..c0
        }) && m1 == m0
    } else if cb < 0xC0 {
        operand_write_post(c0, m0, c1, m1, op, if crate::ppu::spec_bit(v, n) == 1 {
            (v - crate::ppu::spec_pow2(n)) as u8
        } else {
            v
        })
    } else {
        operand_write_post(c0, m0, c1, m1, op, if crate::ppu::spec_bit(v, n) == 0 {
            (v + crate::ppu::spec_pow2(n)) as u8
        } else {
            v
        })
    }
}

/// The instruction relation for opcodes 0x00-0x0F.
#[verifier::opaque]
pub open spec fn spec_execute_post_row0(c0: Cpu, m0: Memory, c1: Cpu, m1: Memory, opcode: u8) -> bool {
    if opcode == 0x00 {
        c1 == c0 && m1 == m0
    } else if opcode == 0x01 {
        c1 == (Cpu { registers: spec_with_r16(c0.registers, Reg16::BC, spec_imm16(c0, m0)), ..c0 }) && m1 == m0
    } else if opcode == 0x02 {
        operand_write_post(c0, m0, c1, m1, Operand::MemBC, spec_r8(c0.registers, Reg8::A))
    } else if opcode == 0x03 {
        c1 == (Cpu { registers: spec_with_r16(c0.registers, Reg16::BC, ((spec_r16(c0.registers, Reg16::BC) + 1) % 0x10000) as u16), ..c0 }) && m1 == m0
    } else if opcode == 0x04 {
        c1 == (Cpu { registers: spec_inc8(c0.registers, Reg8::B), ..c0 }) && m1 == m0
    } else if opcode == 0x05 {
        c1 == (Cpu { registers: spec_dec8(c0.registers, Reg8::B), ..c0 }) && m1 == m0
    } else if opcode == 0x06 {
        c1 == (Cpu { registers: spec_with_r8(c0.registers, Reg8::B, spec_imm8(c0, m0)), ..c0 }) && m1 == m0
    } else if opcode == 0x07 {
        c1 == (Cpu { registers: spec_rlca_regs(c0.registers), ..c0 }) && m1 == m0
    } else if opcode == 0x08 {
        c1 == c0 && spec_write16_post(m0, m1, spec_imm16(c0, m0), c0.registers.sp)
    } else if opcode == 0x09 {
        c1 == (Cpu { registers: spec_add_hl_regs(c0.registers, spec_r16(c0.registers, Reg16::BC)), ..c0 }) && m1 == m0
    } else if opcode == 0x0A {
        operand_write_post(c0, m0, c1, m1, Operand::Reg8(Reg8::A), spec_operand(c0, m0, Operand::MemBC))
    } else if opcode == 0x0B {
        c1 == (Cpu { registers: spec_with_r16(c0.registers, Reg16::BC, ((spec_r16(c0.registers, Reg16::BC) + 0xFFFF) % 0x10000) as u16), ..c0 }) && m1 == m0
    } else if opcode == 0x0C {
        c1 == (Cpu { registers: spec_inc8(c0.registers, Reg8::C), ..c0 }) && m1 == m0
    } else if opcode == 0x0D {
        c1 == (Cpu { registers: spec_dec8(c0.registers, Reg8::C), ..c0 }) && m1 == m0
    } else if opcode == 0x0E {
        c1 == (Cpu { registers: spec_with_r8(c0.registers, Reg8::C, spec_imm8(c0, m0)), ..c0 }) && m1 == m0
    } else if opcode == 0x0F {
        c1 == (Cpu { registers: spec_rrca_regs(c0.registers), ..c0 }) && m1 == m0
    } else {
        c1 == (Cpu { registers: spec_with_r16(c0.registers, Reg16::PC, ((c0.registers.pc + 1) % 0x10000) as u16), ..c0 }) && m1 == m0
    }
}

/// The instruction relation for opcodes 0x10-0x1F.
#[verifier::opaque]
pub open spec fn spec_execute_post_row1(c0: Cpu, m0: Memory, c1: Cpu, m1: Memory, opcode: u8) -> bool {
    if opcode == 0x10 {
        c1 == c0 && m1 == m0
    } else if opcode == 0x11 {
        c1 == (Cpu { registers: spec_with_r16(c0.registers, Reg16::DE, spec_imm16(c0, m0)), ..c0 }) && m1 == m0
    } else if opcode == 0x12 {
        operand_write_post(c0, m0, c1, m1, Operand::MemDE, spec_r8(c0.registers, Reg8::A))
    } else if opcode == 0x13 {
        c1 == (Cpu { registers: spec_with_r16(c0.registers, Reg16::DE, ((spec_r16(c0.registers, Reg16::DE) + 1) % 0x10000) as u16), ..c0 }) && m1 == m0
    } else if opcode == 0x14 {
        c1 == (Cpu { registers: spec_inc8(c0.registers, Reg8::D), ..c0 }) && m1 == m0
    } else if opcode == 0x15 {
        c1 == (Cpu { registers: spec_dec8(c0.registers, Reg8::D), ..c0 }) && m1 == m0
    } else if opcode == 0x16 {
        c1 == (Cpu { registers: spec_with_r8(c0.registers, Reg8::D, spec_imm8(c0, m0)), ..c0 }) && m1 == m0
    } else if opcode == 0x17 {
        c1 == (Cpu { registers: spec_rla_regs(c0.registers), ..c0 }) && m1 == m0
    } else if opcode == 0x18 {
        c1 == (Cpu { registers: spec_with_r16(c0.registers, Reg16::PC, spec_jr_target(c0.registers, spec_imm8(c0, m0))), ..c0 }) && m1 == m0
    } else if opcode == 0x19 {
        c1 == (Cpu { registers: spec_add_hl_regs(c0.registers, spec_r16(c0.registers, Reg16::DE)), ..c0 }) && m1 == m0
    } else if opcode == 0x1A {
        operand_write_post(c0, m0, c1, m1, Operand::Reg8(Reg8::A), spec_operand(c0, m0, Operand::MemDE))
    } else if opcode == 0x1B {
        c1 == (Cpu { registers: spec_with_r16(c0.registers, Reg16::DE, ((spec_r16(c0.registers, Reg16::DE) + 0xFFFF) % 0x10000) as u16), ..c0 }) && m1 == m0
    } else if opcode == 0x1C {
        c1 == (Cpu { registers: spec_inc8(c0.registers, Reg8::E), ..c0 }) && m1 == m0
    } else if opcode == 0x1D {
        c1 == (Cpu { registers: spec_dec8(c0.registers, Reg8::E), ..c0 }) && m1 == m0
    } else if opcode == 0x1E {
        c1 == (Cpu { registers: spec_with_r8(c0.registers, Reg8::E, spec_imm8(c0, m0)), ..c0 }) && m1 == m0
    } else if opcode == 0x1F {
        c1 == (Cpu { registers: spec_rra_regs(c0.registers), ..c0 }) && m1 == m0
    } else {
        c1 == (Cpu { registers: spec_with_r16(c0.registers, Reg16::PC, ((c0.registers.pc + 1) % 0x10000) as u16), ..c0 }) && m1 == m0
    }
}

/// The instruction relation for opcodes 0x20-0x2F.
#[verifier::opaque]
pub open spec fn spec_execute_post_row2(c0: Cpu, m0: Memory, c1: Cpu, m1: Memory, opcode: u8) -> bool {
    if opcode == 0x20 {
        c1 == (Cpu { registers: spec_with_r16(c0.registers, Reg16::PC, if spec_cond(c0.registers, 'z', false) { spec_jr_target(c0.registers, spec_imm8(c0, m0)) } else { ((c0.registers.pc + 2) % 0x10000) as u16 }), ..c0 }) && m1 == m0
    } else if opcode == 0x21 {
        c1 == (Cpu { registers: spec_with_r16(c0.registers, Reg16::HL, spec_imm16(c0, m0)), ..c0 }) && m1 == m0
    } else if opcode == 0x22 {
        c1 == (Cpu { registers: spec_with_r16(c0.registers, Reg16::HL, ((c0.registers.hl + 1) % 0x10000) as u16), ..c0 }) && spec_write_post(m0, m1, c0.registers.hl, spec_r8(c0.registers, Reg8::A))
    } else if opcode == 0x23 {
        c1 == (Cpu { registers: spec_with_r16(c0.registers, Reg16::HL, ((spec_r16(c0.registers, Reg16::HL) + 1) % 0x10000) as u16), ..c0 }) && m1 == m0
    } else if opcode == 0x24 {
        c1 == (Cpu { registers: spec_inc8(c0.registers, Reg8::H), ..c0 }) && m1 == m0
    } else if opcode == 0x25 {
        c1 == (Cpu { registers: spec_dec8(c0.registers, Reg8::H), ..c0 }) && m1 == m0
    } else if opcode == 0x26 {
        c1 == (Cpu { registers: spec_with_r8(c0.registers, Reg8::H, spec_imm8(c0, m0)), ..c0 }) && m1 == m0
    } else if opcode == 0x27 {
        c1 == (Cpu { registers: spec_daa_regs(c0.registers), ..c0 }) && m1 == m0
    } else if opcode == 0x28 {
        c1 == (Cpu { registers: spec_with_r16(c0.registers, Reg16::PC, if spec_cond(c0.registers, 'z', true) { spec_jr_target(c0.registers, spec_imm8(c0, m0)) } else { ((c0.registers.pc + 2) % 0x10000) as u16 }), ..c0 }) && m1 == m0
    } else if opcode == 0x29 {
        c1 == (Cpu { registers: spec_add_hl_regs(c0.registers, spec_r16(c0.registers, Reg16::HL)), ..c0 }) && m1 == m0
    } else if opcode == 0x2A {
        c1 == (Cpu { registers: ({ let r1 = spec_with_r8(c0.registers, Reg8::A, spec_mem_read(m0, c0.registers.hl)); spec_with_r16(r1, Reg16::HL, ((spec_r16(r1, Reg16::HL) + 1) % 0x10000) as u16) }), ..c0 }) && m1 == m0
    } else if opcode == 0x2B {
        c1 == (Cpu { registers: spec_with_r16(c0.registers, Reg16::HL, ((spec_r16(c0.registers, Reg16::HL) + 0xFFFF) % 0x10000) as u16), ..c0 }) && m1 == m0
    } else if opcode == 0x2C {
        c1 == (Cpu { registers: spec_inc8(c0.registers, Reg8::L), ..c0 }) && m1 == m0
    } else if opcode == 0x2D {
        c1 == (Cpu { registers: spec_dec8(c0.registers, Reg8::L), ..c0 }) && m1 == m0
    } else if opcode == 0x2E {
        c1 == (Cpu { registers: spec_with_r8(c0.registers, Reg8::L, spec_imm8(c0, m0)), ..c0 }) && m1 == m0
    } else if opcode == 0x2F {
        c1 == (Cpu { registers: spec_cpl_regs(c0.registers), ..c0 }) && m1 == m0
    } else {
        c1 == (Cpu { registers: spec_with_r16(c0.registers, Reg16::PC, ((c0.registers.pc + 1) % 0x10000) as u16), ..c0 }) && m1 == m0
    }
}

/// The instruction relation for opcodes 0x30-0x3F.
#[verifier::opaque]
pub open spec fn spec_execute_post_row3(c0: Cpu, m0: Memory, c1: Cpu, m1: Memory, opcode: u8) -> bool {
    if opcode == 0x30 {
        c1 == (Cpu { registers: spec_with_r16(c0.registers, Reg16::PC, if spec_cond(c0.registers, 'c', false) { spec_jr_target(c0.registers, spec_imm8(c0, m0)) } else { ((c0.registers.pc + 2) % 0x10000) as u16 }), ..c0 }) && m1 == m0
    } else if opcode == 0x31 {
        c1 == (Cpu { registers: spec_with_r16(c0.registers, Reg16::SP, spec_imm16(c0, m0)), ..c0 }) && m1 == m0
    } else if opcode == 0x32 {
        c1 == (Cpu { registers: spec_with_r16(c0.registers, Reg16::HL, ((c0.registers.hl + 0xFFFF) % 0x10000) as u16), ..c0 }) && spec_write_post(m0, m1, c0.registers.hl, spec_r8(c0.registers, Reg8::A))
    } else if opcode == 0x33 {
        c1 == (Cpu { registers: spec_with_r16(c0.registers, Reg16::SP, ((spec_r16(c0.registers, Reg16::SP) + 1) % 0x10000) as u16), ..c0 }) && m1 == m0
    } else if opcode == 0x34 {
        ({ let v = spec_mem_read(m0, c0.registers.hl); let result = ((v + 1) % 256) as u8; spec_write_post(m0, m1, c0.registers.hl, result) && c1 == (Cpu { registers: spec_with_flags(c0.registers, result == 0, false, v % 16 == 15, spec_cf(spec_r8(c0.registers, Reg8::F))), ..c0 }) })
    } else if opcode == 0x35 {
        ({ let v = spec_mem_read(m0, c0.registers.hl); let result = ((v + 255) % 256) as u8; spec_write_post(m0, m1, c0.registers.hl, result) && c1 == (Cpu { registers: spec_with_flags(c0.registers, result == 0, true, v % 16 == 0, spec_cf(spec_r8(c0.registers, Reg8::F))), ..c0 }) })
    } else if opcode == 0x36 {
        c1 == c0 && spec_write_post(m0, m1, c0.registers.hl, spec_imm8(c0, m0))
    } else if opcode == 0x37 {
        c1 == (Cpu { registers: spec_with_flags(c0.registers, spec_zf(spec_r8(c0.registers, Reg8::F)), false, false, true), ..c0 }) && m1 == m0
    } else if opcode == 0x38 {
        c1 == (Cpu { registers: spec_with_r16(c0.registers, Reg16::PC, if spec_cond(c0.registers, 'c', true) { spec_jr_target(c0.registers, spec_imm8(c0, m0)) } else { ((c0.registers.pc + 2) % 0x10000) as u16 }), ..c0 }) && m1 == m0
    } else if opcode == 0x39 {
        c1 == (Cpu { registers: spec_add_hl_regs(c0.registers, spec_r16(c0.registers, Reg16::SP)), ..c0 }) && m1 == m0
    } else if opcode == 0x3A {
        c1 == (Cpu { registers: ({ let r1 = spec_with_r8(c0.registers, Reg8::A, spec_mem_read(m0, c0.registers.hl)); spec_with_r16(r1, Reg16::HL, ((spec_r16(r1, Reg16::HL) + 0xFFFF) % 0x10000) as u16) }), ..c0 }) && m1 == m0
    } else if opcode == 0x3B {
        c1 == (Cpu { registers: spec_with_r16(c0.registers, Reg16::SP, ((spec_r16(c0.registers, Reg16::SP) + 0xFFFF) % 0x10000) as u16), ..c0 }) && m1 == m0
    } else if opcode == 0x3C {
        c1 == (Cpu { registers: spec_inc8(c0.registers, Reg8::A), ..c0 }) && m1 == m0
    } else if opcode == 0x3D {
        c1 == (Cpu { registers: spec_dec8(c0.registers, Reg8::A), ..c0 }) && m1 == m0
    } else if opcode == 0x3E {
        c1 == (Cpu { registers: spec_with_r8(c0.registers, Reg8::A, spec_imm8(c0, m0)), ..c0 }) && m1 == m0
    } else if opcode == 0x3F {
        c1 == (Cpu { registers: spec_with_flags(c0.registers, spec_zf(spec_r8(c0.registers, Reg8::F)), false, false, !spec_cf(spec_r8(c0.registers, Reg8::F))), ..c0 }) && m1 == m0
    } else {
        c1 == (Cpu { registers: spec_with_r16(c0.registers, Reg16::PC, ((c0.registers.pc + 1) % 0x10000) as u16), ..c0 }) && m1 == m0
    }
}

/// The instruction relation for the load quadrant 0x40-0x7F: HALT at
/// 0x76, LD dest, source elsewhere.
#[verifier::opaque]
pub open spec fn spec_execute_post_ld(c0: Cpu, m0: Memory, c1: Cpu, m1: Memory, opcode: u8) -> bool {
    if opcode == 0x76 {
        c1 == (Cpu {
            halted: c0.halted || !(c0.registers.ime == 0 && spec_irq_pending5(
                spec_mem_read(m0, 0xFFFF),
                spec_mem_read(m0, 0xFF0F),
            )),
            halt_bug: c0.halt_bug || (c0.registers.ime == 0 && spec_irq_pending5(
                spec_mem_read(m0, 0xFFFF),
                spec_mem_read(m0, 0xFF0F),
            )),
            ..c0
        }) && m1 == m0
    } else {
        operand_write_post(
            c0,
            m0,
            c1,
            m1,
            spec_operand_from_index(((opcode / 8) % 8) as u8),
            spec_operand(c0, m0, spec_operand_from_index((opcode % 8) as u8)),
        )
    }
}

/// The instruction relation for the arithmetic/logic quadrant 0x80-0xBF.
#[verifier::opaque]
pub open spec fn spec_execute_post_alu(c0: Cpu, m0: Memory, c1: Cpu, m1: Memory, opcode: u8) -> bool {
    let v = spec_operand(c0, m0, spec_operand_from_index((opcode % 8) as u8));
    if opcode < 0x88 {
        c1 == (Cpu { registers: spec_add_a(c0.registers, v, 0), ..c0 }) && m1 == m0
    } else if opcode < 0x90 {
        c1 == (Cpu { registers: spec_add_a(c0.registers, v, spec_carry_in(c0.registers)), ..c0 }) && m1 == m0
    } else if opcode < 0x98 {
        c1 == (Cpu { registers: spec_sub_a(c0.registers, v, 0), ..c0 }) && m1 == m0
    } else if opcode < 0xA0 {
        c1 == (Cpu { registers: spec_sub_a(c0.registers, v, spec_carry_in(c0.registers)), ..c0 }) && m1 == m0
    } else if opcode < 0xA8 {
        c1 == (Cpu { registers: spec_and_a(c0.registers, v), ..c0 }) && m1 == m0
    } else if opcode < 0xB0 {
        c1 == (Cpu { registers: spec_xor_a(c0.registers, v), ..c0 }) && m1 == m0
    } else if opcode < 0xB8 {
        c1 == (Cpu { registers: spec_or_a(c0.registers, v), ..c0 }) && m1 == m0
    } else {
        c1 == (Cpu { registers: spec_cp_a(c0.registers, v), ..c0 }) && m1 == m0
    }
}

/// The instruction relation for opcodes 0xC0-0xCF.
#[verifier::opaque]
pub open spec fn spec_execute_post_rowc(c0: Cpu, m0: Memory, c1: Cpu, m1: Memory, opcode: u8) -> bool {
    if opcode == 0xC0 {
        (if spec_cond(c0.registers, 'z', false) { c1 == (Cpu { registers: spec_ret_regs(c0.registers, m0), ..c0 }) } else { c1 == (Cpu { registers: spec_with_r16(c0.registers, Reg16::PC, ((c0.registers.pc + 1) % 0x10000) as u16), ..c0 }) }) && m1 == m0
    } else if opcode == 0xC1 {
        c1 == (Cpu { registers: spec_pop_regs(c0.registers, m0, Reg16::BC), ..c0 }) && m1 == m0
    } else if opcode == 0xC2 {
        c1 == (Cpu { registers: spec_with_r16(c0.registers, Reg16::PC, if spec_cond(c0.registers, 'z', false) { spec_imm16(c0, m0) } else { ((c0.registers.pc + 3) % 0x10000) as u16 }), ..c0 }) && m1 == m0
    } else if opcode == 0xC3 {
        c1 == (Cpu { registers: spec_with_r16(c0.registers, Reg16::PC, spec_imm16(c0, m0)), ..c0 }) && m1 == m0
    } else if opcode == 0xC4 {
        if spec_cond(c0.registers, 'z', false) { c1 == (Cpu { registers: spec_with_r16(spec_call_regs(c0.registers, 0), Reg16::PC, spec_imm16(c0, m0)), ..c0 }) && spec_write16_post(m0, m1, ((c0.registers.sp + 0x10000 - 2) % 0x10000) as u16, ((c0.registers.pc + 3) % 0x10000) as u16) } else { c1 == (Cpu { registers: spec_with_r16(c0.registers, Reg16::PC, ((c0.registers.pc + 3) % 0x10000) as u16), ..c0 }) && m1 == m0 }
    } else if opcode == 0xC5 {
        c1 == (Cpu { registers: spec_with_r16(c0.registers, Reg16::SP, ((c0.registers.sp + 0x10000 - 2) % 0x10000) as u16), ..c0 }) && spec_write16_post(m0, m1, ((c0.registers.sp + 0x10000 - 2) % 0x10000) as u16, spec_r16(c0.registers, Reg16::BC))
    } else if opcode == 0xC6 {
        c1 == (Cpu { registers: spec_add_a(c0.registers, spec_imm8(c0, m0), 0), ..c0 }) && m1 == m0
    } else if opcode == 0xC7 {
        c1 == (Cpu { registers: spec_call_regs(c0.registers, 0x00), ..c0 }) && spec_write16_post(m0, m1, ((c0.registers.sp + 0x10000 - 2) % 0x10000) as u16, ((c0.registers.pc + 1) % 0x10000) as u16)
    } else if opcode == 0xC8 {
        (if spec_cond(c0.registers, 'z', true) { c1 == (Cpu { registers: spec_ret_regs(c0.registers, m0), ..c0 }) } else { c1 == (Cpu { registers: spec_with_r16(c0.registers, Reg16::PC, ((c0.registers.pc + 1) % 0x10000) as u16), ..c0 }) }) && m1 == m0
    } else if opcode == 0xC9 {
        c1 == (Cpu { registers: spec_ret_regs(c0.registers, m0), ..c0 }) && m1 == m0
    } else if opcode == 0xCA {
        c1 == (Cpu { registers: spec_with_r16(c0.registers, Reg16::PC, if spec_cond(c0.registers, 'z', true) { spec_imm16(c0, m0) } else { ((c0.registers.pc + 3) % 0x10000) as u16 }), ..c0 }) && m1 == m0
    } else if opcode == 0xCB {
        spec_execute_cb_post(c0, m0, c1, m1, spec_imm8(c0, m0))
    } else if opcode == 0xCC {
        if spec_cond(c0.registers, 'z', true) { c1 == (Cpu { registers: spec_with_r16(spec_call_regs(c0.registers, 0), Reg16::PC, spec_imm16(c0, m0)), ..c0 }) && spec_write16_post(m0, m1, ((c0.registers.sp + 0x10000 - 2) % 0x10000) as u16, ((c0.registers.pc + 3) % 0x10000) as u16) } else { c1 == (Cpu { registers: spec_with_r16(c0.registers, Reg16::PC, ((c0.registers.pc + 3) % 0x10000) as u16), ..c0 }) && m1 == m0 }
    } else if opcode == 0xCD {
        c1 == (Cpu { registers: spec_with_r16(spec_call_regs(c0.registers, 0), Reg16::PC, spec_imm16(c0, m0)), ..c0 }) && spec_write16_post(m0, m1, ((c0.registers.sp + 0x10000 - 2) % 0x10000) as u16, ((c0.registers.pc + 3) % 0x10000) as u16)
    } else if opcode == 0xCE {
        c1 == (Cpu { registers: spec_add_a(c0.registers, spec_imm8(c0, m0), spec_carry_in(c0.registers)), ..c0 }) && m1 == m0
    } else if opcode == 0xCF {
        c1 == (Cpu { registers: spec_call_regs(c0.registers, 0x08), ..c0 }) && spec_write16_post(m0, m1, ((c0.registers.sp + 0x10000 - 2) % 0x10000) as u16, ((c0.registers.pc + 1) % 0x10000) as u16)
    } else {
        c1 == (Cpu { registers: spec_with_r16(c0.registers, Reg16::PC, ((c0.registers.pc + 1) % 0x10000) as u16), ..c0 }) && m1 == m0
    }
}

/// The instruction relation for opcodes 0xD0-0xDF; the invalid bytes advance PC by one and change nothing else.
#[verifier::opaque]
pub open spec fn spec_execute_post_rowd(c0: Cpu, m0: Memory, c1: Cpu, m1: Memory, opcode: u8) -> bool {
    if opcode == 0xD0 {
        (if spec_cond(c0.registers, 'c', false) { c1 == (Cpu { registers: spec_ret_regs(c0.registers, m0), ..c0 }) } else { c1 == (Cpu { registers: spec_with_r16(c0.registers, Reg16::PC, ((c0.registers.pc + 1) % 0x10000) as u16), ..c0 }) }) && m1 == m0
    } else if opcode == 0xD1 {
        c1 == (Cpu { registers: spec_pop_regs(c0.registers, m0, Reg16::DE), ..c0 }) && m1 == m0
    } else if opcode == 0xD2 {
        c1 == (Cpu { registers: spec_with_r16(c0.registers, Reg16::PC, if spec_cond(c0.registers, 'c', false) { spec_imm16(c0, m0) } else { ((c0.registers.pc + 3) % 0x10000) as u16 }), ..c0 }) && m1 == m0
    } else if opcode == 0xD4 {
        if spec_cond(c0.registers, 'c', false) { c1 == (Cpu { registers: spec_with_r16(spec_call_regs(c0.registers, 0), Reg16::PC, spec_imm16(c0, m0)), ..c0 }) && spec_write16_post(m0, m1, ((c0.registers.sp + 0x10000 - 2) % 0x10000) as u16, ((c0.registers.pc + 3) % 0x10000) as u16) } else { c1 == (Cpu { registers: spec_with_r16(c0.registers, Reg16::PC, ((c0.registers.pc + 3) % 0x10000) as u16), ..c0 }) && m1 == m0 }
    } else if opcode == 0xD5 {
        c1 == (Cpu { registers: spec_with_r16(c0.registers, Reg16::SP, ((c0.registers.sp + 0x10000 - 2) % 0x10000) as u16), ..c0 }) && spec_write16_post(m0, m1, ((c0.registers.sp + 0x10000 - 2) % 0x10000) as u16, spec_r16(c0.registers, Reg16::DE))
    } else if opcode == 0xD6 {
        c1 == (Cpu { registers: spec_sub_a(c0.registers, spec_imm8(c0, m0), 0), ..c0 }) && m1 == m0
    } else if opcode == 0xD7 {
        c1 == (Cpu { registers: spec_call_regs(c0.registers, 0x10), ..c0 }) && spec_write16_post(m0, m1, ((c0.registers.sp + 0x10000 - 2) % 0x10000) as u16, ((c0.registers.pc + 1) % 0x10000) as u16)
    } else if opcode == 0xD8 {
        (if spec_cond(c0.registers, 'c', true) { c1 == (Cpu { registers: spec_ret_regs(c0.registers, m0), ..c0 }) } else { c1 == (Cpu { registers: spec_with_r16(c0.registers, Reg16::PC, ((c0.registers.pc + 1) % 0x10000) as u16), ..c0 }) }) && m1 == m0
    } else if opcode == 0xD9 {
        c1 == (Cpu { registers: Registers { ime: 1, ..spec_ret_regs(c0.registers, m0) }, ..c0 }) && m1 == m0
    } else if opcode == 0xDA {
        c1 == (Cpu { registers: spec_with_r16(c0.registers, Reg16::PC, if spec_cond(c0.registers, 'c', true) { spec_imm16(c0, m0) } else { ((c0.registers.pc + 3) % 0x10000) as u16 }), ..c0 }) && m1 == m0
    } else if opcode == 0xDC {
        if spec_cond(c0.registers, 'c', true) { c1 == (Cpu { registers: spec_with_r16(spec_call_regs(c0.registers, 0), Reg16::PC, spec_imm16(c0, m0)), ..c0 }) && spec_write16_post(m0, m1, ((c0.registers.sp + 0x10000 - 2) % 0x10000) as u16, ((c0.registers.pc + 3) % 0x10000) as u16) } else { c1 == (Cpu { registers: spec_with_r16(c0.registers, Reg16::PC, ((c0.registers.pc + 3) % 0x10000) as u16), ..c0 }) && m1 == m0 }
    } else if opcode == 0xDE {
        c1 == (Cpu { registers: spec_sub_a(c0.registers, spec_imm8(c0, m0), spec_carry_in(c0.registers)), ..c0 }) && m1 == m0
    } else if opcode == 0xDF {
        c1 == (Cpu { registers: spec_call_regs(c0.registers, 0x18), ..c0 }) && spec_write16_post(m0, m1, ((c0.registers.sp + 0x10000 - 2) % 0x10000) as u16, ((c0.registers.pc + 1) % 0x10000) as u16)
    } else {
        c1 == (Cpu { registers: spec_with_r16(c0.registers, Reg16::PC, ((c0.registers.pc + 1) % 0x10000) as u16), ..c0 }) && m1 == m0
    }
}

/// The instruction relation for opcodes 0xE0-0xEF; the invalid bytes advance PC by one and change nothing else.
#[verifier::opaque]
pub open spec fn spec_execute_post_rowe(c0: Cpu, m0: Memory, c1: Cpu, m1: Memory, opcode: u8) -> bool {
    if opcode == 0xE0 {
        c1 == c0 && spec_write_post(m0, m1, (0xFF00 + spec_imm8(c0, m0)) as u16, spec_r8(c0.registers, Reg8::A))
    } else if opcode == 0xE1 {
        c1 == (Cpu { registers: spec_pop_regs(c0.registers, m0, Reg16::HL), ..c0 }) && m1 == m0
    } else if opcode == 0xE2 {
        c1 == c0 && spec_write_post(m0, m1, (0xFF00 + spec_r8(c0.registers, Reg8::C)) as u16, spec_r8(c0.registers, Reg8::A))
    } else if opcode == 0xE5 {
        c1 == (Cpu { registers: spec_with_r16(c0.registers, Reg16::SP, ((c0.registers.sp + 0x10000 - 2) % 0x10000) as u16), ..c0 }) && spec_write16_post(m0, m1, ((c0.registers.sp + 0x10000 - 2) % 0x10000) as u16, spec_r16(c0.registers, Reg16::HL))
    } else if opcode == 0xE6 {
        c1 == (Cpu { registers: spec_and_a(c0.registers, spec_imm8(c0, m0)), ..c0 }) && m1 == m0
    } else if opcode == 0xE7 {
        c1 == (Cpu { registers: spec_call_regs(c0.registers, 0x20), ..c0 }) && spec_write16_post(m0, m1, ((c0.registers.sp + 0x10000 - 2) % 0x10000) as u16, ((c0.registers.pc + 1) % 0x10000) as u16)
    } else if opcode == 0xE8 {
        c1 == (Cpu { registers: spec_add_sp_e_regs(c0.registers, spec_imm8(c0, m0)), ..c0 }) && m1 == m0
    } else if opcode == 0xE9 {
        c1 == (Cpu { registers: spec_with_r16(c0.registers, Reg16::PC, c0.registers.hl), ..c0 }) && m1 == m0
    } else if opcode == 0xEA {
        c1 == c0 && spec_write_post(m0, m1, spec_imm16(c0, m0), spec_r8(c0.registers, Reg8::A))
    } else if opcode == 0xEE {
        c1 == (Cpu { registers: spec_xor_a(c0.registers, spec_imm8(c0, m0)), ..c0 }) && m1 == m0
    } else if opcode == 0xEF {
        c1 == (Cpu { registers: spec_call_regs(c0.registers, 0x28), ..c0 }) && spec_write16_post(m0, m1, ((c0.registers.sp + 0x10000 - 2) % 0x10000) as u16, ((c0.registers.pc + 1) % 0x10000) as u16)
    } else {
        c1 == (Cpu { registers: spec_with_r16(c0.registers, Reg16::PC, ((c0.registers.pc + 1) % 0x10000) as u16), ..c0 }) && m1 == m0
    }
}

/// The instruction relation for opcodes 0xF0-0xFF; the invalid bytes advance PC by one and change nothing else.
#[verifier::opaque]
pub open spec fn spec_execute_post_rowf(c0: Cpu, m0: Memory, c1: Cpu, m1: Memory, opcode: u8) -> bool {
    if opcode == 0xF0 {
        c1 == (Cpu { registers: spec_with_r8(c0.registers, Reg8::A, spec_mem_read(m0, (0xFF00 + spec_imm8(c0, m0)) as u16)), ..c0 }) && m1 == m0
    } else if opcode == 0xF1 {
        c1 == (Cpu { registers: spec_pop_regs(c0.registers, m0, Reg16::AF), ..c0 }) && m1 == m0
    } else if opcode == 0xF2 {
        c1 == (Cpu { registers: spec_with_r8(c0.registers, Reg8::A, spec_mem_read(m0, (0xFF00 + spec_r8(c0.registers, Reg8::C)) as u16)), ..c0 }) && m1 == m0
    } else if opcode == 0xF3 {
        c1 == (Cpu { registers: Registers { ime: 0, ..c0.registers }, ei_pending: false, ..c0 }) && m1 == m0
    } else if opcode == 0xF5 {
        c1 == (Cpu { registers: spec_with_r16(c0.registers, Reg16::SP, ((c0.registers.sp + 0x10000 - 2) % 0x10000) as u16), ..c0 }) && spec_write16_post(m0, m1, ((c0.registers.sp + 0x10000 - 2) % 0x10000) as u16, spec_r16(c0.registers, Reg16::AF))
    } else if opcode == 0xF6 {
        c1 == (Cpu { registers: spec_or_a(c0.registers, spec_imm8(c0, m0)), ..c0 }) && m1 == m0
    } else if opcode == 0xF7 {
        c1 == (Cpu { registers: spec_call_regs(c0.registers, 0x30), ..c0 }) && spec_write16_post(m0, m1, ((c0.registers.sp + 0x10000 - 2) % 0x10000) as u16, ((c0.registers.pc + 1) % 0x10000) as u16)
    } else if opcode == 0xF8 {
        c1 == (Cpu { registers: spec_ld_hl_sp_e_regs(c0.registers, spec_imm8(c0, m0)), ..c0 }) && m1 == m0
    } else if opcode == 0xF9 {
        c1 == (Cpu { registers: spec_with_r16(c0.registers, Reg16::SP, c0.registers.hl), ..c0 }) && m1 == m0
    } else if opcode == 0xFA {
        c1 == (Cpu { registers: spec_with_r8(c0.registers, Reg8::A, spec_mem_read(m0, spec_imm16(c0, m0))), ..c0 }) && m1 == m0
    } else if opcode == 0xFB {
        c1 == (Cpu { ei_pending: true, ..c0 }) && m1 == m0
    } else if opcode == 0xFE {
        c1 == (Cpu { registers: spec_cp_a(c0.registers, spec_imm8(c0, m0)), ..c0 }) && m1 == m0
    } else if opcode == 0xFF {
        c1 == (Cpu { registers: spec_call_regs(c0.registers, 0x38), ..c0 }) && spec_write16_post(m0, m1, ((c0.registers.sp + 0x10000 - 2) % 0x10000) as u16, ((c0.registers.pc + 1) % 0x10000) as u16)
    } else {
        c1 == (Cpu { registers: spec_with_r16(c0.registers, Reg16::PC, ((c0.registers.pc + 1) % 0x10000) as u16), ..c0 }) && m1 == m0
    }
}

/// How one decoded instruction relates the machine before it (c0, m0) to
/// the machine after it (c1, m1), opcode by opcode, over the same spec
/// functions the instruction helpers' own contracts use.
pub open spec fn spec_execute_post(c0: Cpu, m0: Memory, c1: Cpu, m1: Memory, opcode: u8) -> bool {
    if opcode < 0x10 {
        spec_execute_post_row0(c0, m0, c1, m1, opcode)
    } else if opcode < 0x20 {
        spec_execute_post_row1(c0, m0, c1, m1, opcode)
    } else if opcode < 0x30 {
        spec_execute_post_row2(c0, m0, c1, m1, opcode)
    } else if opcode < 0x40 {
        spec_execute_post_row3(c0, m0, c1, m1, opcode)
    } else if opcode < 0x80 {
        spec_execute_post_ld(c0, m0, c1, m1, opcode)
    } else if opcode < 0xC0 {
        spec_execute_post_alu(c0, m0, c1, m1, opcode)
    } else if opcode < 0xD0 {
        spec_execute_post_rowc(c0, m0, c1, m1, opcode)
    } else if opcode < 0xE0 {
        spec_execute_post_rowd(c0, m0, c1, m1, opcode)
    } else if opcode < 0xF0 {
        spec_execute_post_rowe(c0, m0, c1, m1, opcode)
    } else {
        spec_execute_post_rowf(c0, m0, c1, m1, opcode)
    }
}


/// The T-cycles one instruction costs in the given machine state: the
/// tabulated base duration, plus the taken-branch surcharge read off the
/// current flags, or the CB table value for a CB prefix.
pub open spec fn spec_instr_duration(c: Cpu, m: Memory, opcode: u8) -> int {
    if opcode == 0xCB {
        spec_cb_duration(spec_imm8(c, m)) as int
    } else {
        spec_opcode_duration(opcode) + spec_branch_surcharge(
            opcode,
            spec_r8(c.registers, Reg8::F),
        )
    }
}

/// The CPU after the post-instruction step: PC advances by the opcode's
/// tabulated length unless the opcode wrote PC itself or the HALT-bug
/// latch eats the advance (and is spent doing so), and the instruction's
/// duration is charged to the cycle counter.
pub open spec fn spec_post_instruction(c: Cpu, m: Memory, opcode: u8) -> Cpu {
    Cpu {
        registers: if spec_pc_modifying(opcode) || c.halt_bug {
            c.registers
        } else {
            spec_with_r16(
                c.registers,
                Reg16::PC,
                ((c.registers.pc + spec_opcode_length(opcode)) % 0x10000) as u16,
            )
        },
        halt_bug: c.halt_bug && spec_pc_modifying(opcode),
        cycles: vstd::wrapping::u64_specs::wrapping_add(
            c.cycles,
            spec_instr_duration(c, m, opcode) as u64,
        ),
        ..c
    }
}

/// The CPU with its halt flag down, as it is when a step begins fetching.
pub open spec fn spec_halt_cleared(c: Cpu) -> Cpu {
    Cpu { halted: false, ..c }
}

/// The CPU at the end of a non-halted step: the executed instruction's
/// post-instruction step, then the one-instruction EI delay — IME turns on
/// only when EI was already pending when the step began.
pub open spec fn spec_step_finish(c1: Cpu, m1: Memory, opcode: u8, ei_was_pending: bool) -> Cpu {
    let c2 = spec_post_instruction(c1, m1, opcode);
    if ei_was_pending && c2.ei_pending {
        Cpu { registers: Registers { ime: 1, ..c2.registers }, ei_pending: false, ..c2 }
    } else {
        c2
    }
}

impl Cpu {
    /// Decode and run one instruction, leaving PC handling and cycle
    /// accounting to `handle_post_instruction`.  Unknown opcodes advance PC
    /// by one byte and otherwise act as NOPs.
    #[verifier::rlimit(100)]
    #[verifier::spinoff_prover]
    pub fn execute(&mut self, opcode: u8, mem: &mut Memory)
        requires
            cpu_wf(*old(self)),
            mem_wf(*old(mem)),
        ensures
            cpu_wf(*final(self)),
            mem_wf(*final(mem)),
            final(self).cycles == old(self).cycles,
            final(self).halted == old(self).halted || opcode == 0x76,
            final(self).halt_bug == old(self).halt_bug || opcode == 0x76,
            opcode != 0xF3 && opcode != 0xFB ==> final(self).ei_pending == old(self).ei_pending,
            opcode == 0xFB ==> final(self).ei_pending,
            opcode != 0xF3 && opcode != 0xD9 ==> final(self).registers.ime == old(
                self,
            ).registers.ime,
            spec_is_cond_branch(opcode) ==> final(self).registers.af == old(self).registers.af,
            spec_execute_post(*old(self), *old(mem), *final(self), *final(mem), opcode),
    {
        proof {
            reveal(spec_execute_post_row0);
            reveal(spec_execute_post_row1);
            reveal(spec_execute_post_row2);
            reveal(spec_execute_post_row3);
        }
        if opcode == 0x00 {
            self.nop();
        } else if opcode == 0x01 {
            self.ld_r16_nn(mem, Reg16::BC);
        } else if opcode == 0x02 {
            self.ld_operand(mem, Operand::MemBC, Operand::Reg8(Reg8::A));
        } else if opcode == 0x03 {
            self.inc_r16(Reg16::BC);
        } else if opcode == 0x04 {
            self.inc_r8(Reg8::B);
        } else if opcode == 0x05 {
            self.dec_r8(Reg8::B);
        } else if opcode == 0x06 {
            self.ld_r8_n(mem, Reg8::B);
        } else if opcode == 0x07 {
            self.rlca();
        } else if opcode == 0x08 {
            self.ld_nn_sp(mem);
        } else if opcode == 0x09 {
            self.add_hl(Reg16::BC);
        } else if opcode == 0x0A {
            self.ld_operand(mem, Operand::Reg8(Reg8::A), Operand::MemBC);
        } else if opcode == 0x0B {
            self.dec_r16(Reg16::BC);
        } else if opcode == 0x0C {
            self.inc_r8(Reg8::C);
        } else if opcode == 0x0D {
            self.dec_r8(Reg8::C);
        } else if opcode == 0x0E {
            self.ld_r8_n(mem, Reg8::C);
        } else if opcode == 0x0F {
            self.rrca();
        } else if opcode == 0x10 {
            self.stop();
        } else if opcode == 0x11 {
            self.ld_r16_nn(mem, Reg16::DE);
        } else if opcode == 0x12 {
            self.ld_operand(mem, Operand::MemDE, Operand::Reg8(Reg8::A));
        } else if opcode == 0x13 {
            self.inc_r16(Reg16::DE);
        } else if opcode == 0x14 {
            self.inc_r8(Reg8::D);
        } else if opcode == 0x15 {
            self.dec_r8(Reg8::D);
        } else if opcode == 0x16 {
            self.ld_r8_n(mem, Reg8::D);
        } else if opcode == 0x17 {
            self.rla();
        } else if opcode == 0x18 {
            self.jr_e(mem);
        } else if opcode == 0x19 {
            self.add_hl(Reg16::DE);
        } else if opcode == 0x1A {
            self.ld_operand(mem, Operand::Reg8(Reg8::A), Operand::MemDE);
        } else if opcode == 0x1B {
            self.dec_r16(Reg16::DE);
        } else if opcode == 0x1C {
            self.inc_r8(Reg8::E);
        } else if opcode == 0x1D {
            self.dec_r8(Reg8::E);
        } else if opcode == 0x1E {
            self.ld_r8_n(mem, Reg8::E);
        } else if opcode == 0x1F {
            self.rra(mem);
        } else if opcode == 0x20 {
            self.jr_f_e(mem, 'z', false);
        } else if opcode == 0x21 {
            self.ld_r16_nn(mem, Reg16::HL);
        } else if opcode == 0x22 {
            self.ld_operand(mem, Operand::MemHL, Operand::Reg8(Reg8::A));
            self.inc_r16(Reg16::HL);
        } else if opcode == 0x23 {
            self.inc_r16(Reg16::HL);
        } else if opcode == 0x24 {
            self.inc_r8(Reg8::H);
        } else if opcode == 0x25 {
            self.dec_r8(Reg8::H);
        } else if opcode == 0x26 {
            self.ld_r8_n(mem, Reg8::H);
        } else if opcode == 0x27 {
            self.daa(mem);
        } else if opcode == 0x28 {
            self.jr_f_e(mem, 'z', true);
        } else if opcode == 0x29 {
            self.add_hl(Reg16::HL);
        } else if opcode == 0x2A {
            self.ld_operand(mem, Operand::Reg8(Reg8::A), Operand::MemHL);
            self.inc_r16(Reg16::HL);
        } else if opcode == 0x2B {
            self.dec_r16(Reg16::HL);
        } else if opcode == 0x2C {
            self.inc_r8(Reg8::L);
        } else if opcode == 0x2D {
            self.dec_r8(Reg8::L);
        } else if opcode == 0x2E {
            self.ld_r8_n(mem, Reg8::L);
        } else if opcode == 0x2F {
            self.cpl();
        } else if opcode == 0x30 {
            self.jr_f_e(mem, 'c', false);
        } else if opcode == 0x31 {
            self.ld_r16_nn(mem, Reg16::SP);
        } else if opcode == 0x32 {
            self.ld_operand(mem, Operand::MemHL, Operand::Reg8(Reg8::A));
            self.dec_r16(Reg16::HL);
        } else if opcode == 0x33 {
            self.inc_r16(Reg16::SP);
        } else if opcode == 0x34 {
            self.inc_mem(mem, Reg16::HL);
        } else if opcode == 0x35 {
            self.dec_mem(mem, Reg16::HL);
        } else if opcode == 0x36 {
            self.ld_m_n(mem);
        } else if opcode == 0x37 {
            self.scf();
        } else if opcode == 0x38 {
            self.jr_f_e(mem, 'c', true);
        } else if opcode == 0x39 {
            self.add_hl(Reg16::SP);
        } else if opcode == 0x3A {
            self.ld_operand(mem, Operand::Reg8(Reg8::A), Operand::MemHL);
            self.dec_r16(Reg16::HL);
        } else if opcode == 0x3B {
            self.dec_r16(Reg16::SP);
        } else if opcode == 0x3C {
            self.inc_r8(Reg8::A);
        } else if opcode == 0x3D {
            self.dec_r8(Reg8::A);
        } else if opcode == 0x3E {
            self.ld_r8_n(mem, Reg8::A);
        } else if opcode == 0x3F {
            self.ccf();
        } else {
            self.execute_high(opcode, mem);
        }
    }

    /// The control-flow, ALU and load quadrants of the opcode space
    /// (0x40-0xFF), split out of `execute`.
    fn execute_high(&mut self, opcode: u8, mem: &mut Memory)
        requires
            cpu_wf(*old(self)),
            mem_wf(*old(mem)),
            0x40 <= opcode,
        ensures
            cpu_wf(*final(self)),
            mem_wf(*final(mem)),
            final(self).cycles == old(self).cycles,
            final(self).halted == old(self).halted || opcode == 0x76,
            final(self).halt_bug == old(self).halt_bug || opcode == 0x76,
            opcode != 0xF3 && opcode != 0xFB ==> final(self).ei_pending == old(self).ei_pending,
            opcode == 0xFB ==> final(self).ei_pending,
            opcode != 0xF3 && opcode != 0xD9 ==> final(self).registers.ime == old(
                self,
            ).registers.ime,
            spec_is_cond_branch(opcode) ==> final(self).registers.af == old(self).registers.af,
            spec_execute_post(*old(self), *old(mem), *final(self), *final(mem), opcode),
    {
        if opcode >= 0xC0 {
            if opcode < 0xD0 {
                self.execute_c(opcode, mem);
            } else if opcode < 0xE0 {
                self.execute_d(opcode, mem);
            } else if opcode < 0xF0 {
                self.execute_e(opcode, mem);
            } else {
                self.execute_f(opcode, mem);
            }
        } else if opcode < 0x80 {
            self.execute_ld(opcode, mem);
        } else {
            self.execute_alu(opcode, mem);
        }
    }

    /// The return, jump, call and stack opcodes 0xC0-0xCF.
    #[verifier::rlimit(100)]
    #[verifier::spinoff_prover]
    fn execute_c(&mut self, opcode: u8, mem: &mut Memory)
        requires
            cpu_wf(*old(self)),
            mem_wf(*old(mem)),
            0xC0 <= opcode < 0xD0,
        ensures
            cpu_wf(*final(self)),
            mem_wf(*final(mem)),
            final(self).cycles == old(self).cycles,
            final(self).halted == old(self).halted || opcode == 0x76,
            final(self).halt_bug == old(self).halt_bug || opcode == 0x76,
            opcode != 0xF3 && opcode != 0xFB ==> final(self).ei_pending == old(self).ei_pending,
            opcode == 0xFB ==> final(self).ei_pending,
            opcode != 0xF3 && opcode != 0xD9 ==> final(self).registers.ime == old(
                self,
            ).registers.ime,
            spec_is_cond_branch(opcode) ==> final(self).registers.af == old(self).registers.af,
            spec_execute_post(*old(self), *old(mem), *final(self), *final(mem), opcode),
    {
        proof {
            reveal(spec_execute_post_rowc);
        }
        if opcode == 0xC0 {
            self.ret_f(mem, 'z', false);
        } else if opcode == 0xC1 {
            self.pop(mem, Reg16::BC);
        } else if opcode == 0xC2 {
            self.jp_f_nn(mem, 'z', false);
        } else if opcode == 0xC3 {
            self.jp_nn(mem);
        } else if opcode == 0xC4 {
            self.call_f_nn(mem, 'z', false);
        } else if opcode == 0xC5 {
            self.push(mem, Reg16::BC);
        } else if opcode == 0xC6 {
            self.add_a_n(mem);
        } else if opcode == 0xC7 {
            self.rst(mem, 0x00);
        } else if opcode == 0xC8 {
            self.ret_f(mem, 'z', true);
        } else if opcode == 0xC9 {
            self.ret(mem);
        } else if opcode == 0xCA {
            self.jp_f_nn(mem, 'z', true);
        } else if opcode == 0xCB {
            self.call_cb(mem);
        } else if opcode == 0xCC {
            self.call_f_nn(mem, 'z', true);
        } else if opcode == 0xCD {
            self.call_nn(mem);
        } else if opcode == 0xCE {
            self.adc_a_n(mem);
        } else if opcode == 0xCF {
            self.rst(mem, 0x08);
        } else {
            let pc = self.registers.read_r16(Reg16::PC);
            self.registers.write_r16(Reg16::PC, pc.wrapping_add(1));
        }
    }

    /// Opcodes 0xD0-0xDF; the invalid bytes among them advance PC by one.
    #[verifier::rlimit(100)]
    #[verifier::spinoff_prover]
    fn execute_d(&mut self, opcode: u8, mem: &mut Memory)
        requires
            cpu_wf(*old(self)),
            mem_wf(*old(mem)),
            0xD0 <= opcode < 0xE0,
        ensures
            cpu_wf(*final(self)),
            mem_wf(*final(mem)),
            final(self).cycles == old(self).cycles,
            final(self).halted == old(self).halted || opcode == 0x76,
            final(self).halt_bug == old(self).halt_bug || opcode == 0x76,
            opcode != 0xF3 && opcode != 0xFB ==> final(self).ei_pending == old(self).ei_pending,
            opcode == 0xFB ==> final(self).ei_pending,
            opcode != 0xF3 && opcode != 0xD9 ==> final(self).registers.ime == old(
                self,
            ).registers.ime,
            spec_is_cond_branch(opcode) ==> final(self).registers.af == old(self).registers.af,
            spec_execute_post(*old(self), *old(mem), *final(self), *final(mem), opcode),
    {
        proof {
            reveal(spec_execute_post_rowd);
        }
        if opcode == 0xD0 {
            self.ret_f(mem, 'c', false);
        } else if opcode == 0xD1 {
            self.pop(mem, Reg16::DE);
        } else if opcode == 0xD2 {
            self.jp_f_nn(mem, 'c', false);
        } else if opcode == 0xD4 {
            self.call_f_nn(mem, 'c', false);
        } else if opcode == 0xD5 {
            self.push(mem, Reg16::DE);
        } else if opcode == 0xD6 {
            self.sub_a_n(mem);
        } else if opcode == 0xD7 {
            self.rst(mem, 0x10);
        } else if opcode == 0xD8 {
            self.ret_f(mem, 'c', true);
        } else if opcode == 0xD9 {
            self.reti(mem);
        } else if opcode == 0xDA {
            self.jp_f_nn(mem, 'c', true);
        } else if opcode == 0xDC {
            self.call_f_nn(mem, 'c', true);
        } else if opcode == 0xDE {
            self.sbc_a_n(mem);
        } else if opcode == 0xDF {
            self.rst(mem, 0x18);
        } else {
            let pc = self.registers.read_r16(Reg16::PC);
            self.registers.write_r16(Reg16::PC, pc.wrapping_add(1));
        }
    }

    /// The I/O-page and high-page opcodes 0xE0-0xEF; the invalid bytes
    /// among them advance PC by one.
    #[verifier::rlimit(100)]
    #[verifier::spinoff_prover]
    fn execute_e(&mut self, opcode: u8, mem: &mut Memory)
        requires
            cpu_wf(*old(self)),
            mem_wf(*old(mem)),
            0xE0 <= opcode < 0xF0,
        ensures
            cpu_wf(*final(self)),
            mem_wf(*final(mem)),
            final(self).cycles == old(self).cycles,
            final(self).halted == old(self).halted || opcode == 0x76,
            final(self).halt_bug == old(self).halt_bug || opcode == 0x76,
            opcode != 0xF3 && opcode != 0xFB ==> final(self).ei_pending == old(self).ei_pending,
            opcode == 0xFB ==> final(self).ei_pending,
            opcode != 0xF3 && opcode != 0xD9 ==> final(self).registers.ime == old(
                self,
            ).registers.ime,
            spec_is_cond_branch(opcode) ==> final(self).registers.af == old(self).registers.af,
            spec_execute_post(*old(self), *old(mem), *final(self), *final(mem), opcode),
    {
        proof {
            reveal(spec_execute_post_rowe);
        }
        if opcode == 0xE0 {
            self.ldh_n_a(mem);
        } else if opcode == 0xE1 {
            self.pop(mem, Reg16::HL);
        } else if opcode == 0xE2 {
            self.ldh_c_a(mem);
        } else if opcode == 0xE5 {
            self.push(mem, Reg16::HL);
        } else if opcode == 0xE6 {
            self.and_a_n(mem);
        } else if opcode == 0xE7 {
            self.rst(mem, 0x20);
        } else if opcode == 0xE8 {
            self.add_sp_e(mem);
        } else if opcode == 0xE9 {
            self.jp_hl();
        } else if opcode == 0xEA {
            self.ld_nn_a(mem);
        } else if opcode == 0xEE {
            self.xor_a_n(mem);
        } else if opcode == 0xEF {
            self.rst(mem, 0x28);
        } else {
            let pc = self.registers.read_r16(Reg16::PC);
            self.registers.write_r16(Reg16::PC, pc.wrapping_add(1));
        }
    }

    /// Opcodes 0xF0-0xFF; the invalid bytes among them advance PC by one.
    fn execute_f(&mut self, opcode: u8, mem: &mut Memory)
        requires
            cpu_wf(*old(self)),
            mem_wf(*old(mem)),
            0xF0 <= opcode,
        ensures
            cpu_wf(*final(self)),
            mem_wf(*final(mem)),
            final(self).cycles == old(self).cycles,
            final(self).halted == old(self).halted || opcode == 0x76,
            final(self).halt_bug == old(self).halt_bug || opcode == 0x76,
            opcode != 0xF3 && opcode != 0xFB ==> final(self).ei_pending == old(self).ei_pending,
            opcode == 0xFB ==> final(self).ei_pending,
            opcode != 0xF3 && opcode != 0xD9 ==> final(self).registers.ime == old(
                self,
            ).registers.ime,
            spec_is_cond_branch(opcode) ==> final(self).registers.af == old(self).registers.af,
            spec_execute_post(*old(self), *old(mem), *final(self), *final(mem), opcode),
    {
        if opcode < 0xF8 {
            self.execute_f_lo(opcode, mem);
        } else {
            self.execute_f_hi(opcode, mem);
        }
    }

    /// Opcodes 0xF0-0xF7.
    #[verifier::rlimit(100)]
    #[verifier::spinoff_prover]
    fn execute_f_lo(&mut self, opcode: u8, mem: &mut Memory)
        requires
            cpu_wf(*old(self)),
            mem_wf(*old(mem)),
            0xF0 <= opcode < 0xF8,
        ensures
            cpu_wf(*final(self)),
            mem_wf(*final(mem)),
            final(self).cycles == old(self).cycles,
            final(self).halted == old(self).halted || opcode == 0x76,
            final(self).halt_bug == old(self).halt_bug || opcode == 0x76,
            opcode != 0xF3 && opcode != 0xFB ==> final(self).ei_pending == old(self).ei_pending,
            opcode == 0xFB ==> final(self).ei_pending,
            opcode != 0xF3 && opcode != 0xD9 ==> final(self).registers.ime == old(
                self,
            ).registers.ime,
            spec_is_cond_branch(opcode) ==> final(self).registers.af == old(self).registers.af,
            spec_execute_post(*old(self), *old(mem), *final(self), *final(mem), opcode),
    {
        proof {
            reveal(spec_execute_post_rowf);
        }
        if opcode == 0xF0 {
            self.ldh_a_n(mem);
        } else if opcode == 0xF1 {
            self.pop(mem, Reg16::AF);
        } else if opcode == 0xF2 {
            self.ldh_a_c(mem);
        } else if opcode == 0xF3 {
            self.di();
        } else if opcode == 0xF5 {
            self.push(mem, Reg16::AF);
        } else if opcode == 0xF6 {
            self.or_a_n(mem);
        } else if opcode == 0xF7 {
            self.rst(mem, 0x30);
        } else {
            let pc = self.registers.read_r16(Reg16::PC);
            self.registers.write_r16(Reg16::PC, pc.wrapping_add(1));
        }
    }

    /// Opcodes 0xF8-0xFF; the invalid bytes among them advance PC by one.
    fn execute_f_hi(&mut self, opcode: u8, mem: &mut Memory)
        requires
            cpu_wf(*old(self)),
            mem_wf(*old(mem)),
            0xF8 <= opcode,
        ensures
            cpu_wf(*final(self)),
            mem_wf(*final(mem)),
            final(self).cycles == old(self).cycles,
            final(self).halted == old(self).halted || opcode == 0x76,
            final(self).halt_bug == old(self).halt_bug || opcode == 0x76,
            opcode != 0xF3 && opcode != 0xFB ==> final(self).ei_pending == old(self).ei_pending,
            opcode == 0xFB ==> final(self).ei_pending,
            opcode != 0xF3 && opcode != 0xD9 ==> final(self).registers.ime == old(
                self,
            ).registers.ime,
            spec_is_cond_branch(opcode) ==> final(self).registers.af == old(self).registers.af,
            spec_execute_post(*old(self), *old(mem), *final(self), *final(mem), opcode),
    {
        if opcode < 0xFC {
            self.execute_f8(opcode, mem);
        } else {
            self.execute_fc(opcode, mem);
        }
    }

    /// Opcodes 0xF8-0xFB.
    fn execute_f8(&mut self, opcode: u8, mem: &mut Memory)
        requires
            cpu_wf(*old(self)),
            mem_wf(*old(mem)),
            0xF8 <= opcode < 0xFC,
        ensures
            cpu_wf(*final(self)),
            mem_wf(*final(mem)),
            final(self).cycles == old(self).cycles,
            final(self).halted == old(self).halted || opcode == 0x76,
            final(self).halt_bug == old(self).halt_bug || opcode == 0x76,
            opcode != 0xF3 && opcode != 0xFB ==> final(self).ei_pending == old(self).ei_pending,
            opcode == 0xFB ==> final(self).ei_pending,
            opcode != 0xF3 && opcode != 0xD9 ==> final(self).registers.ime == old(
                self,
            ).registers.ime,
            spec_is_cond_branch(opcode) ==> final(self).registers.af == old(self).registers.af,
            spec_execute_post(*old(self), *old(mem), *final(self), *final(mem), opcode),
    {
        if opcode < 0xFA {
            self.execute_f8_pair(opcode, mem);
        } else {
            self.execute_fa_pair(opcode, mem);
        }
    }

    /// Opcodes 0xF8-0xF9.
    #[verifier::rlimit(100)]
    #[verifier::spinoff_prover]
    fn execute_f8_pair(&mut self, opcode: u8, mem: &mut Memory)
        requires
            cpu_wf(*old(self)),
            mem_wf(*old(mem)),
            0xF8 <= opcode < 0xFA,
        ensures
            cpu_wf(*final(self)),
            mem_wf(*final(mem)),
            final(self).cycles == old(self).cycles,
            final(self).halted == old(self).halted || opcode == 0x76,
            final(self).halt_bug == old(self).halt_bug || opcode == 0x76,
            opcode != 0xF3 && opcode != 0xFB ==> final(self).ei_pending == old(self).ei_pending,
            opcode == 0xFB ==> final(self).ei_pending,
            opcode != 0xF3 && opcode != 0xD9 ==> final(self).registers.ime == old(
                self,
            ).registers.ime,
            spec_is_cond_branch(opcode) ==> final(self).registers.af == old(self).registers.af,
            spec_execute_post(*old(self), *old(mem), *final(self), *final(mem), opcode),
    {
        proof {
            reveal(spec_execute_post_rowf);
        }
        if opcode == 0xF8 {
            self.ld_sp_e(mem);
        } else if opcode == 0xF9 {
            self.ld_sp_hl(mem);
        } else {
            let pc = self.registers.read_r16(Reg16::PC);
            self.registers.write_r16(Reg16::PC, pc.wrapping_add(1));
        }
    }

    /// Opcodes 0xFA-0xFB.
    #[verifier::rlimit(100)]
    #[verifier::spinoff_prover]
    fn execute_fa_pair(&mut self, opcode: u8, mem: &mut Memory)
        requires
            cpu_wf(*old(self)),
            mem_wf(*old(mem)),
            0xFA <= opcode < 0xFC,
        ensures
            cpu_wf(*final(self)),
            mem_wf(*final(mem)),
            final(self).cycles == old(self).cycles,
            final(self).halted == old(self).halted || opcode == 0x76,
            final(self).halt_bug == old(self).halt_bug || opcode == 0x76,
            opcode != 0xF3 && opcode != 0xFB ==> final(self).ei_pending == old(self).ei_pending,
            opcode == 0xFB ==> final(self).ei_pending,
            opcode != 0xF3 && opcode != 0xD9 ==> final(self).registers.ime == old(
                self,
            ).registers.ime,
            spec_is_cond_branch(opcode) ==> final(self).registers.af == old(self).registers.af,
            spec_execute_post(*old(self), *old(mem), *final(self), *final(mem), opcode),
    {
        proof {
            reveal(spec_execute_post_rowf);
        }
        if opcode == 0xFA {
            let addr = mem.read_16(self.registers.read_r16(Reg16::PC).wrapping_add(1));
            let value = mem.read_8(addr);
            self.registers.write_r8(Reg8::A, value);
        } else if opcode == 0xFB {
            self.ei();
        } else {
            let pc = self.registers.read_r16(Reg16::PC);
            self.registers.write_r16(Reg16::PC, pc.wrapping_add(1));
        }
    }

    /// Opcodes 0xFC-0xFF; the invalid bytes among them advance PC by one.
    #[verifier::rlimit(100)]
    #[verifier::spinoff_prover]
    fn execute_fc(&mut self, opcode: u8, mem: &mut Memory)
        requires
            cpu_wf(*old(self)),
            mem_wf(*old(mem)),
            0xFC <= opcode,
        ensures
            cpu_wf(*final(self)),
            mem_wf(*final(mem)),
            final(self).cycles == old(self).cycles,
            final(self).halted == old(self).halted || opcode == 0x76,
            final(self).halt_bug == old(self).halt_bug || opcode == 0x76,
            opcode != 0xF3 && opcode != 0xFB ==> final(self).ei_pending == old(self).ei_pending,
            opcode == 0xFB ==> final(self).ei_pending,
            opcode != 0xF3 && opcode != 0xD9 ==> final(self).registers.ime == old(
                self,
            ).registers.ime,
            spec_is_cond_branch(opcode) ==> final(self).registers.af == old(self).registers.af,
            spec_execute_post(*old(self), *old(mem), *final(self), *final(mem), opcode),
    {
        proof {
            reveal(spec_execute_post_rowf);
        }
        if opcode == 0xFE {
            self.cp_a_n(mem);
        } else if opcode == 0xFF {
            self.rst(mem, 0x38);
        } else {
            let pc = self.registers.read_r16(Reg16::PC);
            self.registers.write_r16(Reg16::PC, pc.wrapping_add(1));
        }
    }

    /// The register-to-register load quadrant 0x40-0x7F, with HALT at
    /// 0x76.
    #[verifier::rlimit(100)]
    #[verifier::spinoff_prover]
    fn execute_ld(&mut self, opcode: u8, mem: &mut Memory)
        requires
            cpu_wf(*old(self)),
            mem_wf(*old(mem)),
            0x40 <= opcode < 0x80,
        ensures
            cpu_wf(*final(self)),
            mem_wf(*final(mem)),
            final(self).cycles == old(self).cycles,
            final(self).halted == old(self).halted || opcode == 0x76,
            final(self).halt_bug == old(self).halt_bug || opcode == 0x76,
            opcode != 0xF3 && opcode != 0xFB ==> final(self).ei_pending == old(self).ei_pending,
            opcode == 0xFB ==> final(self).ei_pending,
            opcode != 0xF3 && opcode != 0xD9 ==> final(self).registers.ime == old(
                self,
            ).registers.ime,
            spec_is_cond_branch(opcode) ==> final(self).registers.af == old(self).registers.af,
            spec_execute_post(*old(self), *old(mem), *final(self), *final(mem), opcode),
    {
        proof {
            reveal(spec_execute_post_ld);
        }
        if opcode == 0x76 {
            self.halt(mem);
        } else if 0x40 <= opcode && opcode < 0x80 {
            let dest = Operand::from_index((opcode / 8) % 8);
            let src = Operand::from_index(opcode % 8);
            self.ld_operand(mem, dest, src);
        }
    }

    /// The arithmetic/logic quadrant 0x80-0xBF over the eight-operand
    /// families.
    #[verifier::rlimit(100)]
    #[verifier::spinoff_prover]
    fn execute_alu(&mut self, opcode: u8, mem: &mut Memory)
        requires
            cpu_wf(*old(self)),
            mem_wf(*old(mem)),
            0x80 <= opcode < 0xC0,
        ensures
            cpu_wf(*final(self)),
            mem_wf(*final(mem)),
            final(self).cycles == old(self).cycles,
            final(self).halted == old(self).halted || opcode == 0x76,
            final(self).halt_bug == old(self).halt_bug || opcode == 0x76,
            opcode != 0xF3 && opcode != 0xFB ==> final(self).ei_pending == old(self).ei_pending,
            opcode == 0xFB ==> final(self).ei_pending,
            opcode != 0xF3 && opcode != 0xD9 ==> final(self).registers.ime == old(
                self,
            ).registers.ime,
            spec_is_cond_branch(opcode) ==> final(self).registers.af == old(self).registers.af,
            spec_execute_post(*old(self), *old(mem), *final(self), *final(mem), opcode),
    {
        proof {
            reveal(spec_execute_post_alu);
        }
        if 0x80 <= opcode && opcode < 0x88 {
            self.add_a_r(mem, Operand::from_index(opcode % 8));
        } else if 0x88 <= opcode && opcode < 0x90 {
            self.adc_a_r(mem, Operand::from_index(opcode % 8));
        } else if 0x90 <= opcode && opcode < 0x98 {
            self.sub_a_r(mem, Operand::from_index(opcode % 8));
        } else if 0x98 <= opcode && opcode < 0xA0 {
            self.sbc_a_r(mem, Operand::from_index(opcode % 8));
        } else if 0xA0 <= opcode && opcode < 0xA8 {
            self.and_a_r(mem, Operand::from_index(opcode % 8));
        } else if 0xA8 <= opcode && opcode < 0xB0 {
            self.xor_a_r(mem, Operand::from_index(opcode % 8));
        } else if 0xB0 <= opcode && opcode < 0xB8 {
            self.or_a_r(mem, Operand::from_index(opcode % 8));
        } else if 0xB8 <= opcode && opcode < 0xC0 {
            self.cp_a_r(mem, Operand::from_index(opcode % 8));
        }
    }

    /// After an instruction: advance PC by the opcode's tabulated length
    /// (unless the opcode wrote PC itself, or the HALT bug latch eats one
    /// advance), and charge the tabulated duration to the cycle counter:
    /// the CB table for CB prefixes, and twelve T-cycles on top of the
    /// base value for a taken conditional branch.
    pub fn handle_post_instruction(&mut self, mem: &mut Memory, opcode: u8, _length: u64) -> (r:
        u32)
        requires
            cpu_wf(*old(self)),
            mem_wf(*old(mem)),
        ensures
            cpu_wf(*final(self)),
            *final(mem) == *old(mem),
            *final(self) == spec_post_instruction(*old(self), *old(mem), opcode),
            r as int == spec_instr_duration(*old(self), *old(mem), opcode),
            4 <= r <= 24,
    {
        let pc = self.registers.read_r16(Reg16::PC);
        let cb = mem.read_8(pc.wrapping_add(1));
        if !is_pc_modifying(opcode) {
            if self.halt_bug {
                self.halt_bug = false;
            } else {
                let len = opcode_length(opcode);
                self.registers.write_r16(Reg16::PC, pc.wrapping_add(len as u16));
            }
        }
        let dur: u8 = if opcode == 0xCB {
            cb_duration(cb)
        } else {
            opcode_duration(opcode) + branch_surcharge(opcode, self.registers.read_r8(Reg8::F))
        };
        self.cycles = self.cycles.wrapping_add(dur as u64);
        dur as u32
    }

    /// Run one step: a halted CPU with nothing pending just consumes four
    /// T-cycles;
    /// otherwise fetch, execute and account one instruction, and apply a
    /// pending EI at the end.  Returns the T-cycles consumed.
    pub fn step(&mut self, mem: &mut Memory) -> (r: u32)
        requires
            cpu_wf(*old(self)),
            mem_wf(*old(mem)),
        ensures
            cpu_wf(*final(self)),
            mem_wf(*final(mem)),
            4 <= r <= 24,
            ({
                let stay_halted = old(self).halted && !spec_irq_pending5(
                    spec_mem_read(*old(mem), 0xFFFF),
                    spec_mem_read(*old(mem), 0xFF0F),
                );
                let opcode0 = spec_mem_read(*old(mem), old(self).registers.pc);
                &&& (stay_halted ==> r == 4 && *final(self) == (Cpu {
                    cycles: vstd::wrapping::u64_specs::wrapping_add(old(self).cycles, 4),
                    ..*old(self)
                }) && *final(mem) == *old(mem))
                &&& final(self).cycles == vstd::wrapping::u64_specs::wrapping_add(
                    old(self).cycles,
                    r as u64,
                )
                &&& (!stay_halted && old(self).ei_pending ==> final(self).ei_pending == false)
                &&& (!stay_halted && opcode0 != 0xCB ==> r == spec_opcode_duration(opcode0)
                    + spec_branch_surcharge(opcode0, spec_r8(old(self).registers, Reg8::F)))
                &&& (!stay_halted && opcode0 == 0xCB ==> r == 8 || r == 16)
                &&& (!stay_halted ==> exists|c1: Cpu|
                    {
                        &&& #[trigger] spec_execute_post(
                            spec_halt_cleared(*old(self)),
                            *old(mem),
                            c1,
                            *final(mem),
                            opcode0,
                        )
                        &&& *final(self) == spec_step_finish(
                            c1,
                            *final(mem),
                            opcode0,
                            old(self).ei_pending,
                        )
                    })
                &&& (!stay_halted && opcode0 == 0xFB && !old(self).ei_pending ==> final(self).ei_pending && final(self).registers.ime == old(self).registers.ime)
                &&& (!stay_halted && old(self).ei_pending && opcode0 != 0xF3 ==> final(self).registers.ime == 1 && final(self).ei_pending == false)
            }),
    {
        if self.halted {
            let ie = mem.read_8(0xFFFF);
            let if_reg = mem.read_8(0xFF0F);
            if irq_pending5(ie, if_reg) {
                self.halted = false;
            } else {
                self.cycles = self.cycles.wrapping_add(4);
                return 4;
            }
        }
        let ei_was_pending = self.ei_pending;
        let pc = self.registers.read_r16(Reg16::PC);
        let opcode = mem.read_8(pc);
        let ghost c_start = *self;
        self.execute(opcode, mem);
        let ghost c1 = *self;
        let cycles = self.handle_post_instruction(mem, opcode, 0);
        if ei_was_pending && self.ei_pending {
            self.registers.write_ime(1);
            self.ei_pending = false;
        }
        proof {
            assert(c_start == spec_halt_cleared(*old(self)));
            assert(spec_execute_post(spec_halt_cleared(*old(self)), *old(mem), c1, *mem, opcode));
        }
        cycles
    }

    /// Service interrupt line `interrupt`: clear IME and the IF bit, drop
    /// any pending EI and halt, push PC and jump to the vector, charging
    /// twenty T-cycles.
    #[verifier::rlimit(100)]
    #[verifier::spinoff_prover]
    fn service_interrupt(&mut self, mem: &mut Memory, interrupt: u8)
        requires
            cpu_wf(*old(self)),
            mem_wf(*old(mem)),
            interrupt < 5,
            crate::ppu::spec_bit(spec_mem_read(*old(mem), 0xFF0F), interrupt) == 1,
        ensures
            cpu_wf(*final(self)),
            mem_wf(*final(mem)),
            *final(self) == spec_service_cpu(*old(self), interrupt as int),
            spec_service_mem_post(
                *old(mem),
                *final(mem),
                spec_mem_read(*old(mem), 0xFF0F),
                interrupt as int,
                old(self).registers.sp,
                old(self).registers.pc,
            ),
    {
        self.halted = false;
        self.registers.write_ime(0);
        self.ei_pending = false;
        let if_reg = mem.read_8(0xFF0F);
        let p = pow2_u8(interrupt);
        proof {
            assert(if_reg >= p) by (nonlinear_arith)
                requires
                    (if_reg / p) % 2 == 1,
                    p >= 1,
            ;
        }
        mem.write_8(0xFF0F, if_reg - p);
        let ghost mif = *mem;
        let pc = self.registers.read_r16(Reg16::PC);
        let sp = self.registers.read_r16(Reg16::SP);
        let new_sp = sp.wrapping_sub(2);
        self.registers.write_r16(Reg16::SP, new_sp);
        mem.write_16(new_sp, pc);
        let vector: u16 = 0x40 + (interrupt as u16) * 8;
        self.registers.write_r16(Reg16::PC, vector);
        self.cycles = self.cycles.wrapping_add(20);
        proof {
            reveal(spec_write_post);
            reveal(spec_write16_post);
            assert(spec_write_post(
                *old(mem),
                mif,
                0xFF0F,
                (spec_mem_read(*old(mem), 0xFF0F) - crate::ppu::spec_pow2(interrupt)) as u8,
            ));
        }
    }

    /// Sample the peripheral request latches into IF, then service at most
    /// one interrupt: the lowest pending line, only when IME is set; a
    /// halted CPU wakes on any pending line even with IME clear.
    #[verifier::rlimit(100)]
    #[verifier::spinoff_prover]
    pub fn handle_interrupts(&mut self, mem: &mut Memory)
        requires
            cpu_wf(*old(self)),
            mem_wf(*old(mem)),
        ensures
            cpu_wf(*final(self)),
            mem_wf(*final(mem)),
            ({
                let ie = spec_mem_read(*old(mem), 0xFFFF);
                let iff = spec_synced_if(*old(mem));
                let i = spec_lowest_irq(ie, iff);
                let serviced = old(self).registers.ime != 0 && !(old(self).registers.ime == 0
                    && !old(self).halted) && i < 5;
                &&& (exists|msync: Memory|
                    #[trigger] spec_sync_post(*old(mem), msync) && if serviced {
                        spec_service_mem_post(
                            msync,
                            *final(mem),
                            iff,
                            i,
                            old(self).registers.sp,
                            old(self).registers.pc,
                        )
                    } else {
                        *final(mem) == msync
                    })
                &&& (serviced ==> *final(self) == spec_service_cpu(*old(self), i))
                &&& (!serviced ==> *final(self) == (Cpu {
                    halted: old(self).halted && !(!(old(self).registers.ime == 0 && !old(
                        self,
                    ).halted) && spec_irq_pending5(ie, iff)),
                    ..*old(self)
                }))
            }),
    {
        proof {
            reveal(spec_mem_read);
        }
        self.sync_latches(mem);
        proof {
            assert(spec_mem_read(*mem, 0xFF0F) == spec_synced_if(*old(mem)));
            assert(spec_mem_read(*mem, 0xFFFF) == spec_mem_read(*old(mem), 0xFFFF));
        }
        let ghost msync = *mem;
        if self.registers.read_ime() == 0 && !self.halted {
            return ;
        }
        let ie = mem.read_8(0xFFFF);
        let if_reg = mem.read_8(0xFF0F);
        let pending = irq_pending5(ie, if_reg);
        if self.halted && pending {
            self.halted = false;
        }
        if self.registers.read_ime() == 0 {
            return ;
        }
        if !pending {
            return ;
        }
        let i = lowest_irq(ie, if_reg);
        if i < 5 {
            self.service_interrupt(mem, i);
        }
    }

    /// Sample and clear all five peripheral request latches, merging the
    /// raised ones into IF.
    #[verifier::rlimit(100)]
    #[verifier::spinoff_prover]
    fn sync_latches(&mut self, mem: &mut Memory)
        requires
            cpu_wf(*old(self)),
            mem_wf(*old(mem)),
        ensures
            *final(self) == *old(self),
            mem_wf(*final(mem)),
            spec_sync_post(*old(mem), *final(mem)),
    {
        proof {
            reveal(spec_mem_read);
            reveal(spec_write_post);
        }
        let vblank = self.sync_latch_vblank(mem);
        let stat = self.sync_latch_stat(mem);
        let timer = self.sync_latch_timer(mem);
        let serial = self.sync_latch_serial(mem);
        let joypad = self.sync_latch_joypad(mem);
        if vblank || stat || timer || serial || joypad {
            let cur = mem.read_8(0xFF0F);
            let merged = merged_if(cur, vblank, stat, timer, serial, joypad);
            mem.write_8(0xFF0F, merged);
        }
    }

    /// Read and clear the PPU's VBlank latch.
    fn sync_latch_vblank(&mut self, mem: &mut Memory) -> (r: bool)
        ensures
            *final(self) == *old(self),
            r == old(mem).ppu.vblank_interrupt,
            *final(mem) == (Memory {
                ppu: (crate::ppu::Ppu { vblank_interrupt: false, ..old(mem).ppu }),
                ..*old(mem)
            }),
    {
        let r = mem.ppu.vblank_interrupt;
        mem.ppu.vblank_interrupt = false;
        r
    }

    /// Read and clear the PPU's STAT latch.
    fn sync_latch_stat(&mut self, mem: &mut Memory) -> (r: bool)
        ensures
            *final(self) == *old(self),
            r == old(mem).ppu.stat_interrupt,
            *final(mem) == (Memory {
                ppu: (crate::ppu::Ppu { stat_interrupt: false, ..old(mem).ppu }),
                ..*old(mem)
            }),
    {
        let r = mem.ppu.stat_interrupt;
        mem.ppu.stat_interrupt = false;
        r
    }

    /// Read and clear the timer's interrupt latch.
    fn sync_latch_timer(&mut self, mem: &mut Memory) -> (r: bool)
        ensures
            *final(self) == *old(self),
            r == old(mem).timer.interrupt_pending,
            *final(mem) == (Memory {
                timer: (crate::timer::Timer { interrupt_pending: false, ..old(mem).timer }),
                ..*old(mem)
            }),
    {
        let r = mem.timer.interrupt_pending;
        mem.timer.interrupt_pending = false;
        r
    }

    /// Read and clear the serial port's interrupt latch.
    fn sync_latch_serial(&mut self, mem: &mut Memory) -> (r: bool)
        ensures
            *final(self) == *old(self),
            r == old(mem).serial.interrupt_pending,
            *final(mem) == (Memory {
                serial: (crate::serial::Serial {
                    interrupt_pending: false,
                    ..old(mem).serial
                }),
                ..*old(mem)
            }),
    {
        let r = mem.serial.interrupt_pending;
        mem.serial.interrupt_pending = false;
        r
    }

    /// Read and clear the joypad's interrupt latch.
    fn sync_latch_joypad(&mut self, mem: &mut Memory) -> (r: bool)
        ensures
            *final(self) == *old(self),
            r == old(mem).joypad.interrupt_requested,
            *final(mem) == (Memory {
                joypad: (crate::joypad::Joypad {
                    interrupt_requested: false,
                    ..old(mem).joypad
                }),
                ..*old(mem)
            }),
    {
        let r = mem.joypad.interrupt_requested;
        mem.joypad.clear_interrupt();
        r
    }
}

} // verus!

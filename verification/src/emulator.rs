//! The frame loop and the host-facing surface: build an emulator around a
//! cartridge image, apply the documented post-boot state, run whole frames,
//! and exchange framebuffer pixels, button events and captured serial bytes
//! with the host.

use vstd::prelude::*;

use crate::cpu::{Cpu, cpu_wf, Registers};
use crate::joypad::{JoypadButton, spec_p1_value, spec_pressed, spec_with_button};
use crate::memory::{Memory, mem_wf, spec_io_reset};

verus! {

/// One T-cycle budget of a whole frame: 154 scanlines of 456 T-cycles.
pub open spec fn frame_cycles() -> int {
    70224
}

/// Whether a cycle counter advanced by `n` T-cycles, wrapping at the
/// 64-bit boundary.
pub open spec fn spec_cycles_advanced(c0: u64, c1: u64, n: int) -> bool {
    c1 == ((c0 + n) % 0x1_0000_0000_0000_0000) as u64
}

/// Adding onto a wrapped sum is the wrapped sum of the whole.
proof fn lemma_wrap_chain(base: int, prior: u64, d: u64)
    by (nonlinear_arith)
    requires
        0 <= base,
        prior == ((base) % 0x1_0000_0000_0000_0000) as u64,
    ensures
        vstd::wrapping::u64_specs::wrapping_add(prior, d) == ((base + d)
            % 0x1_0000_0000_0000_0000) as u64,
{
}

pub struct Emulator {
    pub cpu: Cpu,
    pub mem: Memory,
}

/// The emulator invariant: both halves keep their own invariants.
pub open spec fn emu_wf(e: Emulator) -> bool {
    cpu_wf(e.cpu) && mem_wf(e.mem)
}

impl Emulator {
    /// Build an emulator around a cartridge image (padded or truncated to
    /// the fixed ROM capacity).
    pub fn new(rom_bytes: Vec<u8>) -> (e: Emulator)
        ensures
            emu_wf(e),
            e.cpu == (Cpu {
                registers: Registers { af: 0, bc: 0, de: 0, hl: 0, sp: 0, pc: 0, ime: 0 },
                cycles: 0,
                ei_pending: false,
                halted: false,
                halt_bug: false,
            }),
            forall|i: int|
                0 <= i < crate::memory::rom_capacity() ==> e.mem.rom.buffer@[i] == if i
                    < rom_bytes@.len() {
                    rom_bytes@[i]
                } else {
                    0u8
                },
            crate::ppu::spec_fresh_ppu(e.mem.ppu),
    {
        Emulator { cpu: Cpu::new(), mem: Memory::new(rom_bytes) }
    }

    /// Apply the canonical post-boot state: the 256-byte I/O reset table
    /// (with peripheral side effects suppressed) and the documented DMG
    /// register values.
    pub fn init_post_boot(&mut self)
        requires
            emu_wf(*old(self)),
        ensures
            emu_wf(*final(self)),
            final(self).cpu == (Cpu {
                registers: Registers {
                    af: 0x01B0,
                    bc: 0x0013,
                    de: 0x00D8,
                    hl: 0x014D,
                    sp: 0xFFFE,
                    pc: 0x0100,
                    ime: 1,
                },
                ..old(self).cpu
            }),
            forall|a: int|
                0xFF00 <= a < 0x10000 ==> final(self).mem.main_memory@[a] == spec_io_reset(
                    (a - 0xFF00) as u8,
                ),
    {
        self.mem.init_post_boot_state();
        self.cpu.registers.write_r16(crate::cpu::Reg16::AF, 0x01B0);
        self.cpu.registers.write_r16(crate::cpu::Reg16::BC, 0x0013);
        self.cpu.registers.write_r16(crate::cpu::Reg16::DE, 0x00D8);
        self.cpu.registers.write_r16(crate::cpu::Reg16::HL, 0x014D);
        self.cpu.registers.write_r16(crate::cpu::Reg16::SP, 0xFFFE);
        self.cpu.registers.write_r16(crate::cpu::Reg16::PC, 0x0100);
        self.cpu.registers.write_ime(1);
    }

    /// Run until at least one frame's worth of T-cycles has elapsed: each
    /// step executes one instruction, then the PPU, timer and any pending
    /// OAM-DMA advance by the cycles it consumed, then at most one
    /// interrupt is dispatched.
    #[verifier::rlimit(100)]
    #[verifier::spinoff_prover]
    pub fn step_frame(&mut self)
        requires
            emu_wf(*old(self)),
        ensures
            emu_wf(*final(self)),
            exists|n: int|
                n >= 70224 && #[trigger] spec_cycles_advanced(
                    old(self).cpu.cycles,
                    final(self).cpu.cycles,
                    n,
                ),
    {
        let mut cycles: u32 = 0;
        let ghost mut total: int = 0;
        while cycles < 70224
            invariant
                emu_wf(*self),
                cycles <= 70224 + 24,
                total >= cycles,
                spec_cycles_advanced(old(self).cpu.cycles, self.cpu.cycles, total),
            decreases 70224 + 24 - cycles,
        {
            let ghost before_step = self.cpu.cycles;
            let c = self.cpu.step(&mut self.mem);
            proof {
                lemma_wrap_chain(old(self).cpu.cycles + total, before_step, c as u64);
                total = total + c;
            }
            cycles = cycles + c;
            self.mem.ppu.step(c);
            self.mem.timer.tick(c as u16);
            self.mem.tick_dma(c);
            let ghost before_irq = self.cpu.cycles;
            self.cpu.handle_interrupts(&mut self.mem);
            proof {
                if !(self.cpu.cycles == before_irq) {
                    lemma_wrap_chain(old(self).cpu.cycles + total, before_irq, 20);
                    total = total + 20;
                }
            }
        }
    }

    /// The 160x144 RGB24 framebuffer, row-major from the top-left corner.
    pub fn framebuffer(&self) -> (r: &Vec<u8>)
        requires
            emu_wf(*self),
        ensures
            r@ == self.mem.ppu.framebuffer@,
            r@.len() == 69120,
    {
        self.mem.ppu.get_framebuffer()
    }

    /// Press a joypad button.
    pub fn press(&mut self, button: JoypadButton)
        requires
            emu_wf(*old(self)),
        ensures
            emu_wf(*final(self)),
            ({
                let j0 = old(self).mem.joypad;
                let pressed = spec_with_button(j0, button, true);
                &&& *final(self) == (Emulator {
                    mem: Memory { joypad: final(self).mem.joypad, ..old(self).mem },
                    ..*old(self)
                })
                &&& final(self).mem.joypad == (crate::joypad::Joypad {
                    register: spec_p1_value(pressed, j0.register) as u8,
                    interrupt_requested: j0.interrupt_requested || (!spec_pressed(j0, button)
                        && crate::joypad::spec_group_selected(j0.register, button)),
                    ..pressed
                })
            }),
    {
        self.mem.joypad.press(button);
    }

    /// Release a joypad button.
    pub fn release(&mut self, button: JoypadButton)
        requires
            emu_wf(*old(self)),
        ensures
            emu_wf(*final(self)),
            ({
                let j0 = old(self).mem.joypad;
                let released = spec_with_button(j0, button, false);
                &&& *final(self) == (Emulator {
                    mem: Memory { joypad: final(self).mem.joypad, ..old(self).mem },
                    ..*old(self)
                })
                &&& final(self).mem.joypad == (crate::joypad::Joypad {
                    register: spec_p1_value(released, j0.register) as u8,
                    ..released
                })
            }),
    {
        self.mem.joypad.release(button);
    }

    /// Take the serial bytes captured since the last call.
    pub fn drain_serial(&mut self) -> (r: Vec<u8>)
        requires
            emu_wf(*old(self)),
        ensures
            emu_wf(*final(self)),
            r@ == old(self).mem.serial.output_buffer@,
            final(self).mem.serial.output_buffer@.len() == 0,
            *final(self) == (Emulator {
                mem: Memory { serial: final(self).mem.serial, ..old(self).mem },
                ..*old(self)
            }),
            final(self).mem.serial == (crate::serial::Serial {
                output_buffer: final(self).mem.serial.output_buffer,
                ..old(self).mem.serial
            }),
    {
        let mut out: Vec<u8> = Vec::new();
        let mut i: usize = 0;
        while i < self.mem.serial.output_buffer.len()
            invariant
                emu_wf(*self),
                *self == *old(self),
                i <= self.mem.serial.output_buffer@.len(),
                out@ == self.mem.serial.output_buffer@.subrange(0, i as int),
            decreases self.mem.serial.output_buffer@.len() - i,
        {
            let b = self.mem.serial.output_buffer[i];
            out.push(b);
            i = i + 1;
        }
        proof {
            assert(out@ =~= old(self).mem.serial.output_buffer@);
        }
        self.mem.serial.clear_output();
        out
    }
}

} // verus!

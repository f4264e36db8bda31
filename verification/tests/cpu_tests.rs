use gbemu::cpu::{Cpu, Reg8, Reg16};
use gbemu::memory::Memory;

fn rom_with(program: &[u8]) -> Vec<u8> {
    let mut rom = vec![0u8; 0x4000];
    for (i, &b) in program.iter().enumerate() {
        rom[0x100 + i] = b;
    }
    rom
}

fn cpu_at_entry() -> Cpu {
    let mut cpu = Cpu::new();
    cpu.registers.write_r16(Reg16::PC, 0x0100);
    cpu.registers.write_r16(Reg16::SP, 0xFFFE);
    cpu
}

#[test]
fn test_ei_delay() {
    // EI; NOP; DI: IME is still 0 after EI, 1 after NOP, 0 after DI.
    let mut mem = Memory::new(rom_with(&[0xFB, 0x00, 0xF3]));
    let mut cpu = cpu_at_entry();
    cpu.step(&mut mem);
    assert_eq!(cpu.registers.read_ime(), 0);
    cpu.step(&mut mem);
    assert_eq!(cpu.registers.read_ime(), 1);
    cpu.step(&mut mem);
    assert_eq!(cpu.registers.read_ime(), 0);
    assert!(!cpu.ei_pending);
}

#[test]
fn test_push_pop_af_masks_low_nibble() {
    // PUSH AF; POP AF restores AF with F's low nibble masked to zero.
    let mut mem = Memory::new(rom_with(&[0xF5, 0xF1]));
    let mut cpu = cpu_at_entry();
    cpu.registers.write_r16(Reg16::SP, 0xD000);
    cpu.registers.write_r16(Reg16::AF, 0x12F0);
    cpu.step(&mut mem);
    cpu.step(&mut mem);
    assert_eq!(cpu.registers.read_r16(Reg16::AF), 0x12F0);
    assert_eq!(cpu.registers.read_r16(Reg16::SP), 0xD000);
}

#[test]
fn test_push_pop_bc_round_trip() {
    let mut mem = Memory::new(rom_with(&[0xC5, 0xC1]));
    let mut cpu = cpu_at_entry();
    cpu.registers.write_r16(Reg16::SP, 0xD000);
    cpu.registers.write_r16(Reg16::BC, 0xBEEF);
    cpu.step(&mut mem);
    assert_eq!(cpu.registers.read_r16(Reg16::SP), 0xCFFE);
    cpu.step(&mut mem);
    assert_eq!(cpu.registers.read_r16(Reg16::BC), 0xBEEF);
    assert_eq!(cpu.registers.read_r16(Reg16::SP), 0xD000);
}

#[test]
fn test_add_sub_round_trip() {
    // ADD A,n then SUB A,n leaves A unchanged; Z tracks whether A is zero.
    let mut mem = Memory::new(rom_with(&[0xC6, 0x05, 0xD6, 0x05]));
    let mut cpu = cpu_at_entry();
    cpu.registers.write_r8(Reg8::A, 7);
    cpu.step(&mut mem);
    assert_eq!(cpu.registers.read_r8(Reg8::A), 12);
    cpu.step(&mut mem);
    assert_eq!(cpu.registers.read_r8(Reg8::A), 7);
    assert_eq!(cpu.registers.read_r8(Reg8::F) & 0x80, 0); // Z clear: A != 0

    let mut mem2 = Memory::new(rom_with(&[0xC6, 0x05, 0xD6, 0x05]));
    let mut cpu2 = cpu_at_entry();
    cpu2.registers.write_r8(Reg8::A, 0);
    cpu2.step(&mut mem2);
    cpu2.step(&mut mem2);
    assert_eq!(cpu2.registers.read_r8(Reg8::A), 0);
    assert_eq!(cpu2.registers.read_r8(Reg8::F) & 0x80, 0x80); // Z set
}

#[test]
fn test_add_carry_and_half_carry_flags() {
    // 0x8F + 0x91 = 0x120: carry and half-carry both set, Z clear.
    let mut mem = Memory::new(rom_with(&[0xC6, 0x91]));
    let mut cpu = cpu_at_entry();
    cpu.registers.write_r8(Reg8::A, 0x8F);
    cpu.step(&mut mem);
    assert_eq!(cpu.registers.read_r8(Reg8::A), 0x20);
    let f = cpu.registers.read_r8(Reg8::F);
    assert_eq!(f & 0x10, 0x10); // C
    assert_eq!(f & 0x20, 0x20); // H
    assert_eq!(f & 0x80, 0x00); // Z
    assert_eq!(f & 0x0F, 0); // low nibble always zero
}

#[test]
fn test_cycles_match_tabulated_durations() {
    // NOP: 4, LD BC,nn: 12, JP nn: 16.
    let mut mem = Memory::new(rom_with(&[0x00, 0x01, 0x34, 0x12, 0xC3, 0x00, 0x01]));
    let mut cpu = cpu_at_entry();
    assert_eq!(cpu.step(&mut mem), 4);
    assert_eq!(cpu.step(&mut mem), 12);
    assert_eq!(cpu.step(&mut mem), 16);
    assert_eq!(cpu.cycles, 32);
}

#[test]
fn test_daa_after_addition() {
    // 0x15 + 0x27 = 0x3C; DAA adjusts to 0x42.
    let mut mem = Memory::new(rom_with(&[0xC6, 0x27, 0x27]));
    let mut cpu = cpu_at_entry();
    cpu.registers.write_r8(Reg8::A, 0x15);
    cpu.step(&mut mem);
    assert_eq!(cpu.registers.read_r8(Reg8::A), 0x3C);
    cpu.step(&mut mem);
    assert_eq!(cpu.registers.read_r8(Reg8::A), 0x42);
}

#[test]
fn test_interrupt_dispatch() {
    // With IME set, IE bit 2 enabled and the timer latch up, dispatch
    // services exactly the timer interrupt: IF bit cleared, PC at 0x50,
    // the old PC pushed, and 20 cycles charged.
    let mut mem = Memory::new(rom_with(&[]));
    let mut cpu = cpu_at_entry();
    cpu.registers.write_ime(1);
    cpu.registers.write_r16(Reg16::PC, 0x1234);
    cpu.registers.write_r16(Reg16::SP, 0xD000);
    mem.write_8(0xFFFF, 0x04);
    mem.timer.interrupt_pending = true;
    let cycles_before = cpu.cycles;
    cpu.handle_interrupts(&mut mem);
    assert_eq!(cpu.registers.read_r16(Reg16::PC), 0x0050);
    assert_eq!(cpu.registers.read_ime(), 0);
    assert_eq!(mem.read_8(0xFF0F) & 0x04, 0);
    assert_eq!(mem.read_16(0xCFFE), 0x1234);
    assert_eq!(cpu.cycles, cycles_before + 20);
    assert!(!mem.timer.interrupt_pending);
}

#[test]
fn test_interrupt_priority_vblank_first() {
    // With VBlank and timer both pending, only VBlank (bit 0) is serviced.
    let mut mem = Memory::new(rom_with(&[]));
    let mut cpu = cpu_at_entry();
    cpu.registers.write_ime(1);
    cpu.registers.write_r16(Reg16::SP, 0xD000);
    mem.write_8(0xFFFF, 0x05);
    mem.write_8(0xFF0F, 0x05);
    cpu.handle_interrupts(&mut mem);
    assert_eq!(cpu.registers.read_r16(Reg16::PC), 0x0040);
    let iff = mem.read_8(0xFF0F);
    assert_eq!(iff & 0x01, 0); // VBlank bit cleared
    assert_eq!(iff & 0x04, 0x04); // timer bit still pending
}

#[test]
fn test_halt_wakes_on_pending_interrupt() {
    let mut mem = Memory::new(rom_with(&[0x76, 0x00]));
    let mut cpu = cpu_at_entry();
    cpu.registers.write_ime(1);
    cpu.step(&mut mem);
    assert!(cpu.halted);
    assert_eq!(cpu.step(&mut mem), 4); // stays halted, burning 4 cycles
    mem.write_8(0xFFFF, 0x04);
    mem.write_8(0xFF0F, 0x04);
    cpu.step(&mut mem);
    assert!(!cpu.halted);
}

#[test]
fn test_pop_af_clears_low_nibble() {
    // POP AF from a stack byte with a dirty low nibble still leaves F's
    // low nibble zero.
    let mut mem = Memory::new(rom_with(&[0xF1]));
    let mut cpu = cpu_at_entry();
    cpu.registers.write_r16(Reg16::SP, 0xD000);
    mem.write_16(0xD000, 0x3FFF);
    cpu.step(&mut mem);
    assert_eq!(cpu.registers.read_r16(Reg16::AF), 0x3FF0);
    assert_eq!(cpu.registers.read_r8(Reg8::F) & 0x0F, 0);
}

#[test]
fn test_cb_rotate_and_bit() {
    // RLC B: 0x80 rotates to 0x01 with carry; BIT 7,B then sets Z.
    let mut mem = Memory::new(rom_with(&[0xCB, 0x00, 0xCB, 0x78]));
    let mut cpu = cpu_at_entry();
    cpu.registers.write_r8(Reg8::B, 0x80);
    assert_eq!(cpu.step(&mut mem), 8);
    assert_eq!(cpu.registers.read_r8(Reg8::B), 0x01);
    assert_eq!(cpu.registers.read_r8(Reg8::F) & 0x10, 0x10);
    cpu.step(&mut mem);
    assert_eq!(cpu.registers.read_r8(Reg8::F) & 0x80, 0x80); // bit 7 clear
}

#[test]
fn test_jr_backwards() {
    // JR -2 loops back onto itself.
    let mut mem = Memory::new(rom_with(&[0x18, 0xFE]));
    let mut cpu = cpu_at_entry();
    cpu.step(&mut mem);
    assert_eq!(cpu.registers.read_r16(Reg16::PC), 0x0100);
}

#[test]
fn test_conditional_jumps() {
    // JR NZ taken with Z clear, then JP Z not taken with Z clear.
    let mut mem = Memory::new(rom_with(&[
        0x20, 0x02, // JR NZ, +2 (taken: Z clear after reset A to 1)
        0x00, 0x00, // skipped
        0xCA, 0x00, 0x02, // JP Z, 0x0200 (not taken)
        0x00,
    ]));
    let mut cpu = cpu_at_entry();
    cpu.registers.write_r8(Reg8::A, 1);
    cpu.step(&mut mem);
    assert_eq!(cpu.registers.read_r16(Reg16::PC), 0x0104);
    cpu.step(&mut mem);
    assert_eq!(cpu.registers.read_r16(Reg16::PC), 0x0107);
}

#[test]
fn test_call_and_ret() {
    let mut mem = Memory::new(rom_with(&[0xCD, 0x10, 0x01])); // CALL 0x0110
    let mut cpu = cpu_at_entry();
    cpu.registers.write_r16(Reg16::SP, 0xD000);
    cpu.step(&mut mem);
    assert_eq!(cpu.registers.read_r16(Reg16::PC), 0x0110);
    assert_eq!(cpu.registers.read_r16(Reg16::SP), 0xCFFE);
    assert_eq!(mem.read_16(0xCFFE), 0x0103);
    // A RET at 0x0110 returns to the pushed address.
    mem.write_8(0x2000, 0); // ROM writes only reach the bank selector
    let mut rom2 = vec![0u8; 0x4000];
    rom2[0x110] = 0xC9;
    mem.set_rom(rom2);
    cpu.step(&mut mem);
    assert_eq!(cpu.registers.read_r16(Reg16::PC), 0x0103);
    assert_eq!(cpu.registers.read_r16(Reg16::SP), 0xD000);
}

#[test]
fn test_unknown_opcode_is_skipped() {
    // An invalid opcode advances PC by one and burns the tabulated four
    // cycles without other effects.
    let mut mem = Memory::new(rom_with(&[0xD3, 0x00]));
    let mut cpu = cpu_at_entry();
    assert_eq!(cpu.step(&mut mem), 4);
    assert_eq!(cpu.registers.read_r16(Reg16::PC), 0x0101);
}

#[test]
fn test_halt_bug_keeps_pc() {
    // HALT with IME clear and an interrupt pending does not halt: it sets
    // the one-shot latch, which eats that step's PC advance, so PC stays
    // on the opcode byte and the latch is already spent.
    let mut mem = Memory::new(rom_with(&[0x76, 0x3C, 0x00])); // HALT; INC A
    let mut cpu = cpu_at_entry();
    mem.write_8(0xFFFF, 0x04);
    mem.write_8(0xFF0F, 0x04);
    assert_eq!(cpu.step(&mut mem), 4);
    assert!(!cpu.halted);
    assert!(!cpu.halt_bug);
    assert_eq!(cpu.registers.read_r16(Reg16::PC), 0x0100);
}

#[test]
fn test_conditional_branch_cycles() {
    // A conditional branch charges its not-taken base duration, plus
    // twelve T-cycles when taken: RET cc 8/20, JR cc 8/20, JP cc 12/24,
    // CALL cc 12/24.
    let cases: &[(u8, u32, u32)] = &[
        (0xC0, 8, 20),  // RET NZ
        (0x20, 8, 20),  // JR NZ
        (0xC2, 12, 24), // JP NZ
        (0xC4, 12, 24), // CALL NZ
    ];
    for &(op, not_taken, taken) in cases {
        let mut mem = Memory::new(rom_with(&[op, 0x00, 0x00]));
        let mut cpu = cpu_at_entry();
        cpu.registers.write_r16(Reg16::SP, 0xD000);
        cpu.registers.write_r8(Reg8::F, 0x80); // Z set: NZ not taken
        assert_eq!(cpu.step(&mut mem), not_taken);

        let mut mem2 = Memory::new(rom_with(&[op, 0x00, 0x00]));
        let mut cpu2 = cpu_at_entry();
        cpu2.registers.write_r16(Reg16::SP, 0xD000);
        cpu2.registers.write_r8(Reg8::F, 0x00); // Z clear: NZ taken
        assert_eq!(cpu2.step(&mut mem2), taken);
    }
}

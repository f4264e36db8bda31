use gbemu::emulator::Emulator;
use gbemu::joypad::JoypadButton;

#[test]
fn test_post_boot_register_state() {
    let mut em = Emulator::new(vec![0u8; 0x8000]);
    em.init_post_boot();
    assert_eq!(em.cpu.registers.read_r16(gbemu::cpu::Reg16::AF), 0x01B0);
    assert_eq!(em.cpu.registers.read_r16(gbemu::cpu::Reg16::BC), 0x0013);
    assert_eq!(em.cpu.registers.read_r16(gbemu::cpu::Reg16::DE), 0x00D8);
    assert_eq!(em.cpu.registers.read_r16(gbemu::cpu::Reg16::HL), 0x014D);
    assert_eq!(em.cpu.registers.read_r16(gbemu::cpu::Reg16::SP), 0xFFFE);
    assert_eq!(em.cpu.registers.read_r16(gbemu::cpu::Reg16::PC), 0x0100);
    assert_eq!(em.cpu.registers.read_ime(), 1);
}

#[test]
fn test_step_frame_advances_a_frame() {
    let mut em = Emulator::new(vec![0u8; 0x8000]);
    em.init_post_boot();
    let before = em.cpu.cycles;
    em.step_frame();
    assert!(em.cpu.cycles - before >= 70224);
    assert_eq!(em.framebuffer().len(), 160 * 144 * 3);
}

#[test]
fn test_serial_capture_program() {
    // A program that stores a byte to SB and starts a transfer through SC:
    // the byte shows up in drain_serial, and draining empties the buffer.
    let mut rom = vec![0u8; 0x8000];
    let program: &[u8] = &[
        0x3E, 0x47, // LD A, 'G'
        0xE0, 0x01, // LDH (0x01), A
        0x3E, 0x81, // LD A, 0x81
        0xE0, 0x02, // LDH (0x02), A
        0x18, 0xFE, // JR -2 (spin)
    ];
    for (i, &b) in program.iter().enumerate() {
        rom[0x100 + i] = b;
    }
    let mut em = Emulator::new(rom);
    em.init_post_boot();
    em.step_frame();
    let out = em.drain_serial();
    assert_eq!(out, vec![0x47]);
    assert_eq!(em.drain_serial(), Vec::<u8>::new());
}

#[test]
fn test_button_press_reaches_the_bus() {
    let mut em = Emulator::new(vec![0u8; 0x8000]);
    em.init_post_boot();
    em.mem.write_8(0xFF00, 0x20); // select the action buttons
    em.press(JoypadButton::A);
    assert_eq!(em.mem.read_8(0xFF00), 0xEE);
    em.release(JoypadButton::A);
    assert_eq!(em.mem.read_8(0xFF00), 0xEF);
}

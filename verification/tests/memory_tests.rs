use gbemu::memory::Memory;

fn blank_rom() -> Vec<u8> {
    vec![0u8; 0x8000]
}

#[test]
fn test_oam_dma_copies_and_locks() {
    // Pre-fill 0xC000..0xC09F with 0x01..0xA0, trigger DMA from 0xC0, and
    // the bytes appear in OAM at once; a CPU write to OAM during the DMA
    // window is ignored.
    let mut mem = Memory::new(blank_rom());
    for i in 0..160u16 {
        mem.write_8(0xC000 + i, (i + 1) as u8);
    }
    mem.write_8(0xFF46, 0xC0);
    assert_eq!(mem.read_8(0xFE00), 0x01);
    assert_eq!(mem.read_8(0xFE9F), 0xA0);
    mem.write_8(0xFE10, 0x77);
    assert_eq!(mem.read_8(0xFE10), 0x11);
    mem.tick_dma(640);
    mem.write_8(0xFE10, 0x77);
    assert_eq!(mem.read_8(0xFE10), 0x77);
}

#[test]
fn test_rom_banking() {
    // The bank selector takes the five low bits of a 0x2000-0x3FFF write;
    // zero acts as one.
    let mut rom = vec![0u8; 0x2FFFF];
    rom[0x4000] = 0x11; // bank 1
    rom[0x8000] = 0x22; // bank 2
    rom[0xC000] = 0x33; // bank 3
    let mut mem = Memory::new(rom);
    assert_eq!(mem.read_8(0x4000), 0x11);
    mem.write_8(0x2000, 2);
    assert_eq!(mem.read_8(0x4000), 0x22);
    mem.write_8(0x2000, 0x23); // five low bits: bank 3
    assert_eq!(mem.read_8(0x4000), 0x33);
    mem.write_8(0x2000, 0); // zero remaps to one
    assert_eq!(mem.read_8(0x4000), 0x11);
}

#[test]
fn test_out_of_range_bank_reads_ff() {
    let mut mem = Memory::new(vec![0u8; 0x8000]);
    mem.write_8(0x2000, 0x1F); // bank 31: beyond the buffer
    assert_eq!(mem.read_8(0x7FFF), 0xFF);
}

#[test]
fn test_div_write_then_read_is_zero() {
    let mut mem = Memory::new(blank_rom());
    mem.timer.tick(1000);
    mem.write_8(0xFF04, 0xAB);
    assert_eq!(mem.read_8(0xFF04), 0);
}

#[test]
fn test_io_write_read_masks() {
    // Write then read of writable I/O registers returns the value masked
    // by the register's write mask, ORed with its fixed read bits.
    let mut mem = Memory::new(blank_rom());
    mem.write_8(0xFF05, 0x5A);
    assert_eq!(mem.read_8(0xFF05), 0x5A); // TIMA
    mem.write_8(0xFF06, 0xA5);
    assert_eq!(mem.read_8(0xFF06), 0xA5); // TMA
    mem.write_8(0xFF07, 0xFD);
    assert_eq!(mem.read_8(0xFF07), 0xF8 | 0x05); // TAC: 3 writable bits
    mem.write_8(0xFF02, 0x01);
    assert_eq!(mem.read_8(0xFF02), 0x7F); // SC reads with 0x7E set
    mem.write_8(0xFF42, 0x13);
    assert_eq!(mem.read_8(0xFF42), 0x13); // SCY
    mem.write_8(0xFF47, 0xE4);
    assert_eq!(mem.read_8(0xFF47), 0xE4); // BGP
    mem.write_8(0xFF44, 0x77);
    assert_eq!(mem.read_8(0xFF44), 0x00); // LY is read-only
    mem.write_8(0xFF80, 0x99);
    assert_eq!(mem.read_8(0xFF80), 0x99); // HRAM
    mem.write_8(0xFFFF, 0x1F);
    assert_eq!(mem.read_8(0xFFFF), 0x1F); // IE
}

#[test]
fn test_unmapped_io_reads_ff_after_boot() {
    let mut mem = Memory::new(blank_rom());
    mem.init_post_boot_state();
    assert_eq!(mem.read_8(0xFF03), 0xFF);
    assert_eq!(mem.read_8(0xFF7F), 0xFF);
    assert_eq!(mem.read_8(0xFF50), 0x01); // boot ROM disabled
    assert_eq!(mem.read_8(0xFF0F), 0xE1); // IF post-boot value
}

#[test]
fn test_post_boot_table_visible_through_peripherals() {
    // The reset table reaches the peripheral registers themselves, so the
    // documented post-boot values read back through the bus.
    let mut mem = Memory::new(blank_rom());
    mem.ppu.lcdc = 0x00; // disturb a register first
    mem.ppu.bgp = 0x00;
    mem.timer.tick(999);
    mem.init_post_boot_state();
    assert_eq!(mem.read_8(0xFF40), 0x91); // LCDC
    assert_eq!(mem.read_8(0xFF47), 0xFC); // BGP
    assert_eq!(mem.read_8(0xFF42), 0x00); // SCY
    assert_eq!(mem.read_8(0xFF43), 0x00); // SCX
    assert_eq!(mem.read_8(0xFF41), 0x86); // STAT: table 0x85, live mode bits kept
    assert_eq!(mem.read_8(0xFF04), 0x00); // DIV
    assert_eq!(mem.read_8(0xFF05), 0x00); // TIMA
    assert_eq!(mem.read_8(0xFF07), 0xF8); // TAC
    assert_eq!(mem.read_8(0xFF01), 0x00); // SB
    assert_eq!(mem.read_8(0xFF02), 0x7E); // SC
    assert_eq!(mem.read_8(0xFFFF), 0x00); // IE
    assert_eq!(mem.read_8(0xFF00), 0xCF); // P1 shadow synced
}

#[test]
fn test_vram_write_gated_in_drawing_mode() {
    let mut mem = Memory::new(blank_rom());
    // Fresh PPU is in OAM scan (mode 2): VRAM writes land.
    mem.write_8(0x8000, 0x5A);
    assert_eq!(mem.read_8(0x8000), 0x5A);
    // Force drawing mode (STAT low bits are not CPU-writable).
    mem.ppu.stat = (mem.ppu.stat & 0xFC) | 3;
    mem.write_8(0x8000, 0xA5);
    assert_eq!(mem.read_8(0x8000), 0x5A);
}

#[test]
fn test_echo_and_wram_write_read() {
    let mut mem = Memory::new(blank_rom());
    mem.write_8(0xC123, 0x42);
    assert_eq!(mem.read_8(0xC123), 0x42);
    mem.write_8(0xE123, 0x55);
    assert_eq!(mem.read_8(0xE123), 0x55);
}

#[test]
fn test_read_16_little_endian() {
    let mut mem = Memory::new(blank_rom());
    mem.write_16(0xC000, 0xBEEF);
    assert_eq!(mem.read_8(0xC000), 0xEF);
    assert_eq!(mem.read_8(0xC001), 0xBE);
    assert_eq!(mem.read_16(0xC000), 0xBEEF);
}

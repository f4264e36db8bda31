//! The memory bus: a 64 KiB address space decoding into cartridge ROM (with
//! a five-bit bank selector), VRAM and OAM through the PPU's access gates,
//! working and high RAM, and the memory-mapped peripheral registers.  The
//! bus owns the timer, serial port, PPU and joypad, and drives OAM-DMA.

use vstd::prelude::*;

use crate::joypad::{spec_p1_value, Joypad, joypad_wf};
use crate::ppu::{spec_mode, spec_ppu_read, spec_ppu_write, Ppu, ppu_wf};
use crate::serial::{
    spec_serial_output_after_write, spec_serial_read, spec_serial_regs_after_write, Serial,
    serial_wf,
};
use crate::timer::{spec_timer_read, spec_timer_write, Timer, timer_wf};

verus! {

/// The cartridge ROM image, padded or truncated to a fixed capacity.
pub struct Rom {
    pub buffer: Vec<u8>,
}

pub struct Memory {
    /// The flat 64 KiB space backing WRAM, HRAM, IF, IE and unmapped areas.
    pub main_memory: Vec<u8>,
    pub rom: Rom,
    pub rom_loaded: bool,
    /// The five-bit ROM bank selector; 0 is remapped to 1.
    pub current_rom_bank: u8,
    pub timer: Timer,
    pub serial: Serial,
    pub ppu: Ppu,
    pub joypad: Joypad,
    /// OAM-DMA state: active flag, T-cycles left of the bus lockout, and the
    /// source address of the 160-byte copy.
    pub dma_active: bool,
    pub dma_cycles_remaining: u32,
    pub dma_source: u16,
    /// Set only while loading the post-boot I/O defaults, to store them
    /// without triggering peripheral side effects.
    pub suppress_io_side_effects: bool,
}

/// The ROM buffer's fixed capacity.
pub open spec fn rom_capacity() -> int {
    0x2FFFF
}

/// The bus invariant: buffer sizes are fixed and every owned peripheral
/// satisfies its own invariant.
pub open spec fn mem_wf(m: Memory) -> bool {
    &&& m.main_memory@.len() == 0x10000
    &&& m.rom.buffer@.len() == rom_capacity()
    &&& timer_wf(m.timer)
    &&& serial_wf(m.serial)
    &&& ppu_wf(m.ppu)
    &&& joypad_wf(m.joypad)
}

/// The ROM bank that addresses 0x4000-0x7FFF read through (0 acts as 1).
pub open spec fn spec_effective_bank(m: Memory) -> int {
    if m.current_rom_bank == 0 {
        1
    } else {
        m.current_rom_bank as int
    }
}

/// What a bus read returns at each address, per the address decode table;
/// out-of-range banked ROM reads return 0xFF.
#[verifier::opaque]
pub open spec fn spec_mem_read(m: Memory, address: u16) -> u8 {
    if address == 0xFF00 {
        m.joypad.register
    } else if 0xFF04 <= address <= 0xFF07 {
        spec_timer_read(m.timer, address)
    } else if 0xFF01 <= address <= 0xFF02 {
        spec_serial_read(m.serial, address)
    } else if 0xFF40 <= address <= 0xFF4B {
        spec_ppu_read(m.ppu, address)
    } else if 0x8000 <= address <= 0x9FFF {
        m.ppu.vram@[address - 0x8000]
    } else if 0xFE00 <= address <= 0xFE9F {
        m.ppu.oam@[address - 0xFE00]
    } else if m.rom_loaded && address < 0x4000 {
        m.rom.buffer@[address as int]
    } else if m.rom_loaded && 0x4000 <= address < 0x8000 {
        let offset = spec_effective_bank(m) * 0x4000 + address - 0x4000;
        if offset < rom_capacity() {
            m.rom.buffer@[offset]
        } else {
            0xFF
        }
    } else {
        m.main_memory@[address as int]
    }
}

/// A 16-bit little-endian bus read, the high byte at the wrapped successor
/// address.
#[verifier::opaque]
pub open spec fn spec_mem_read16(m: Memory, address: u16) -> u16 {
    (spec_mem_read(m, ((address + 1) % 0x10000) as u16) * 256 + spec_mem_read(m, address)) as u16
}

/// How a bus write at `addr` relates the old state `m0` to the new state
/// `m1`.  With side effects suppressed, writes at or above 0xFF00 store
/// raw bytes; otherwise the write is dispatched per the decode table: VRAM
/// writes are dropped during drawing mode, OAM writes during active DMA,
/// a write to 0xFF46 starts OAM-DMA with an immediate 160-byte copy, and
/// ROM-space writes only reach the bank selector.
#[verifier::opaque]
pub open spec fn spec_write_post(m0: Memory, m1: Memory, address: u16, value: u8) -> bool {
    if m0.suppress_io_side_effects && address >= 0xFF00 {
        &&& m1 == (Memory {
            main_memory: m1.main_memory,
            timer: crate::timer::spec_timer_raw_load(m0.timer, address, value),
            serial: m1.serial,
            ppu: crate::ppu::spec_ppu_raw_load(m0.ppu, address, value),
            ..m0
        })
        &&& m1.main_memory@ == m0.main_memory@.update(address as int, value)
        &&& (m1.serial.sb, m1.serial.sc) == crate::serial::spec_serial_raw_regs(
            m0.serial,
            address,
            value,
        )
        &&& m1.serial.output_buffer == m0.serial.output_buffer
        &&& m1.serial.interrupt_pending == m0.serial.interrupt_pending
    } else if address == 0xFF00 {
        &&& m1 == (Memory { joypad: m1.joypad, ..m0 })
        &&& m1.joypad == (Joypad {
            register: spec_p1_value(m0.joypad, value) as u8,
            ..m0.joypad
        })
    } else if 0xFF04 <= address <= 0xFF07 {
        m1 == (Memory { timer: spec_timer_write(m0.timer, address, value), ..m0 })
    } else if 0xFF01 <= address <= 0xFF02 {
        &&& m1 == (Memory { serial: m1.serial, ..m0 })
        &&& (m1.serial.sb, m1.serial.sc) == spec_serial_regs_after_write(
            m0.serial,
            address,
            value,
        )
        &&& m1.serial.output_buffer@ == spec_serial_output_after_write(m0.serial, address, value)
        &&& m1.serial.interrupt_pending == m0.serial.interrupt_pending
    } else if address == 0xFF46 {
        &&& m1 == (Memory {
            ppu: m1.ppu,
            dma_active: true,
            dma_cycles_remaining: 640,
            dma_source: (value * 256) as u16,
            ..m0
        })
        &&& m1.ppu == (Ppu { oam: m1.ppu.oam, ..m0.ppu })
        &&& m1.ppu.oam@.len() == 0xA0
        &&& (forall|i: int|
            0 <= i < 160 ==> m1.ppu.oam@[i] == spec_mem_read(m0, (value * 256 + i) as u16))
        &&& (forall|i: int| 160 <= i < 0xA0 ==> m1.ppu.oam@[i] == m0.ppu.oam@[i])
    } else if 0xFF40 <= address <= 0xFF4B {
        m1 == (Memory { ppu: spec_ppu_write(m0.ppu, address, value), ..m0 })
    } else if 0x8000 <= address <= 0x9FFF {
        if spec_mode(m0.ppu.stat) == 3 {
            m1 == m0
        } else {
            &&& m1 == (Memory { ppu: m1.ppu, ..m0 })
            &&& m1.ppu == (Ppu { vram: m1.ppu.vram, ..m0.ppu })
            &&& m1.ppu.vram@ == m0.ppu.vram@.update(address - 0x8000, value)
        }
    } else if 0xFE00 <= address <= 0xFE9F {
        if m0.dma_active {
            m1 == m0
        } else {
            &&& m1 == (Memory { ppu: m1.ppu, ..m0 })
            &&& m1.ppu == (Ppu { oam: m1.ppu.oam, ..m0.ppu })
            &&& m1.ppu.oam@ == m0.ppu.oam@.update(address - 0xFE00, value)
        }
    } else if address < 0x8000 {
        if 0x2000 <= address <= 0x3FFF {
            m1 == (Memory {
                current_rom_bank: if value % 32 == 0 {
                    1u8
                } else {
                    (value % 32) as u8
                },
                ..m0
            })
        } else {
            m1 == m0
        }
    } else {
        &&& m1 == (Memory { main_memory: m1.main_memory, ..m0 })
        &&& m1.main_memory@ == m0.main_memory@.update(address as int, value)
    }
}

/// How a 16-bit bus write relates old to new state: the low byte lands at
/// the address and the high byte at its wrapped successor, in that order.
#[verifier::opaque]
pub open spec fn spec_write16_post(m0: Memory, m1: Memory, address: u16, value: u16) -> bool {
    exists|mid: Memory|
        #[trigger] spec_write_post(m0, mid, address, (value % 256) as u8) && spec_write_post(
            mid,
            m1,
            ((address + 1) % 0x10000) as u16,
            (value / 256) as u8,
        )
}

/// The canonical post-boot value of I/O address 0xFF00 + `off`: the
/// documented DMG register defaults, 0xFF elsewhere.
pub open spec fn spec_io_reset(off: u8) -> u8 {
    if off == 0x00 {
        0xCF
    } else if off == 0x01 {
        0x00
    } else if off == 0x02 {
        0x7E
    } else if off == 0x04 {
        0x00
    } else if off == 0x05 {
        0x00
    } else if off == 0x06 {
        0x00
    } else if off == 0x07 {
        0x00
    } else if off == 0x0F {
        0xE1
    } else if off == 0x10 {
        0x80
    } else if off == 0x11 {
        0xBF
    } else if off == 0x12 {
        0xF3
    } else if off == 0x14 {
        0xBF
    } else if off == 0x16 {
        0x3F
    } else if off == 0x17 {
        0x00
    } else if off == 0x19 {
        0xBF
    } else if off == 0x1A {
        0x7F
    } else if off == 0x1B {
        0xFF
    } else if off == 0x1C {
        0x9F
    } else if off == 0x1E {
        0xBF
    } else if off == 0x20 {
        0xFF
    } else if off == 0x21 {
        0x00
    } else if off == 0x22 {
        0x00
    } else if off == 0x23 {
        0xBF
    } else if off == 0x24 {
        0x77
    } else if off == 0x25 {
        0xF3
    } else if off == 0x26 {
        0xF1
    } else if off == 0x40 {
        0x91
    } else if off == 0x41 {
        0x85
    } else if off == 0x42 {
        0x00
    } else if off == 0x43 {
        0x00
    } else if off == 0x44 {
        0x00
    } else if off == 0x45 {
        0x00
    } else if off == 0x47 {
        0xFC
    } else if off == 0x48 {
        0xFF
    } else if off == 0x49 {
        0xFF
    } else if off == 0x4A {
        0x00
    } else if off == 0x4B {
        0x00
    } else if off == 0x50 {
        0x01
    } else if off == 0xFF {
        0x00
    } else {
        0xFF
    }
}

/// The canonical post-boot I/O byte for offset `off` into 0xFF00-0xFFFF.
fn io_reset_value(off: u8) -> (r: u8)
    ensures
        r == spec_io_reset(off),
{
    if off == 0x00 {
        0xCF
    } else if off == 0x01 {
        0x00
    } else if off == 0x02 {
        0x7E
    } else if off == 0x04 {
        0x00
    } else if off == 0x05 {
        0x00
    } else if off == 0x06 {
        0x00
    } else if off == 0x07 {
        0x00
    } else if off == 0x0F {
        0xE1
    } else if off == 0x10 {
        0x80
    } else if off == 0x11 {
        0xBF
    } else if off == 0x12 {
        0xF3
    } else if off == 0x14 {
        0xBF
    } else if off == 0x16 {
        0x3F
    } else if off == 0x17 {
        0x00
    } else if off == 0x19 {
        0xBF
    } else if off == 0x1A {
        0x7F
    } else if off == 0x1B {
        0xFF
    } else if off == 0x1C {
        0x9F
    } else if off == 0x1E {
        0xBF
    } else if off == 0x20 {
        0xFF
    } else if off == 0x21 {
        0x00
    } else if off == 0x22 {
        0x00
    } else if off == 0x23 {
        0xBF
    } else if off == 0x24 {
        0x77
    } else if off == 0x25 {
        0xF3
    } else if off == 0x26 {
        0xF1
    } else if off == 0x40 {
        0x91
    } else if off == 0x41 {
        0x85
    } else if off == 0x42 {
        0x00
    } else if off == 0x43 {
        0x00
    } else if off == 0x44 {
        0x00
    } else if off == 0x45 {
        0x00
    } else if off == 0x47 {
        0xFC
    } else if off == 0x48 {
        0xFF
    } else if off == 0x49 {
        0xFF
    } else if off == 0x4A {
        0x00
    } else if off == 0x4B {
        0x00
    } else if off == 0x50 {
        0x01
    } else if off == 0xFF {
        0x00
    } else {
        0xFF
    }
}

/// A buffer of the ROM capacity holding the given image, zero-padded or
/// truncated.
fn make_rom_buffer(image: &Vec<u8>) -> (r: Vec<u8>)
    ensures
        r@.len() == rom_capacity(),
        forall|i: int|
            0 <= i < rom_capacity() ==> r@[i] == if i < image@.len() {
                image@[i]
            } else {
                0u8
            },
{
    let mut buffer: Vec<u8> = Vec::new();
    let mut i: usize = 0;
    while i < 0x2FFFF
        invariant
            i <= 0x2FFFF,
            buffer@.len() == i,
            forall|k: int|
                0 <= k < i ==> buffer@[k] == if k < image@.len() {
                    image@[k]
                } else {
                    0u8
                },
        decreases 0x2FFFF - i,
    {
        if i < image.len() {
            let b = image[i];
            buffer.push(b);
        } else {
            buffer.push(0);
        }
        i = i + 1;
    }
    buffer
}

impl Memory {
    /// Build a bus around the given cartridge image, with all peripherals
    /// in their reset state.
    pub fn new(rom_buffer: Vec<u8>) -> (m: Memory)
        ensures
            mem_wf(m),
            m.rom_loaded,
            m.current_rom_bank == 1,
            !m.dma_active,
            !m.suppress_io_side_effects,
            m.timer == (Timer {
                counter: 0,
                tima: 0,
                tma: 0,
                tac: 0,
                reload_delay: 0,
                interrupt_pending: false,
            }),
            forall|i: int| 0 <= i < 0x10000 ==> m.main_memory@[i] == 0,
            forall|i: int|
                0 <= i < rom_capacity() ==> m.rom.buffer@[i] == if i < rom_buffer@.len() {
                    rom_buffer@[i]
                } else {
                    0u8
                },
            m.joypad.register == 0xCF,
            m.serial.output_buffer@.len() == 0,
            m.serial.sb == 0 && m.serial.sc == 0 && !m.serial.interrupt_pending,
            crate::ppu::spec_fresh_ppu(m.ppu),
    {
        let m = Memory {
            main_memory: make_zero_main(),
            rom: Rom { buffer: make_rom_buffer(&rom_buffer) },
            rom_loaded: true,
            current_rom_bank: 1,
            timer: Timer::new(),
            serial: Serial::new(),
            ppu: Ppu::new(),
            joypad: Joypad::new(),
            dma_active: false,
            dma_cycles_remaining: 0,
            dma_source: 0,
            suppress_io_side_effects: false,
        };
        m
    }

    /// Read one byte from the bus.
    pub fn read_8(&self, address: u16) -> (r: u8)
        requires
            mem_wf(*self),
        ensures
            r == spec_mem_read(*self, address),
    {
        proof {
            reveal(spec_mem_read);
        }
        if address == 0xFF00 {
            self.joypad.read()
        } else if 0xFF04 <= address && address <= 0xFF07 {
            self.timer.read(address)
        } else if 0xFF01 <= address && address <= 0xFF02 {
            self.serial.read(address)
        } else if 0xFF40 <= address && address <= 0xFF4B {
            self.ppu.read(address)
        } else if 0x8000 <= address && address <= 0x9FFF {
            self.ppu.vram[(address - 0x8000) as usize]
        } else if 0xFE00 <= address && address <= 0xFE9F {
            self.ppu.oam[(address - 0xFE00) as usize]
        } else if self.rom_loaded && address < 0x4000 {
            self.rom.buffer[address as usize]
        } else if self.rom_loaded && 0x4000 <= address && address < 0x8000 {
            let bank: usize = if self.current_rom_bank == 0 {
                1
            } else {
                self.current_rom_bank as usize
            };
            let offset: usize = bank * 0x4000 + (address as usize - 0x4000);
            if offset < 0x2FFFF {
                self.rom.buffer[offset]
            } else {
                0xFF
            }
        } else {
            self.main_memory[address as usize]
        }
    }

    /// Read a 16-bit little-endian value; the address wraps at the top of
    /// the space.
    pub fn read_16(&self, address: u16) -> (r: u16)
        requires
            mem_wf(*self),
        ensures
            r == spec_mem_read16(*self, address),
    {
        proof {
            reveal(spec_mem_read16);
        }
        let lo = self.read_8(address);
        let hi = self.read_8(address.wrapping_add(1));
        (hi as u16) * 256 + lo as u16
    }

    /// A write into 0x0000-0x7FFF: only the bank selector at 0x2000-0x3FFF
    /// has an effect, taking the value's low five bits (0 acts as 1).
    fn write_to_rom_register(&mut self, address: u16, value: u8)
        requires
            address < 0x8000,
        ensures
            *final(self) == (Memory {
                current_rom_bank: final(self).current_rom_bank,
                ..*old(self)
            }),
            final(self).current_rom_bank == if 0x2000 <= address <= 0x3FFF {
                if value % 32 == 0 {
                    1u8
                } else {
                    (value % 32) as u8
                }
            } else {
                old(self).current_rom_bank
            },
    {
        if 0x2000 <= address && address <= 0x3FFF {
            let mut bank: u8 = value % 32;
            if bank == 0 {
                bank = 1;
            }
            self.current_rom_bank = bank;
        }
    }

    /// Start OAM-DMA: copy 160 bytes from `value`*256 into OAM at once and
    /// lock external OAM writes out for 640 T-cycles.
    fn start_dma(&mut self, value: u8)
        requires
            mem_wf(*old(self)),
        ensures
            mem_wf(*final(self)),
            *final(self) == (Memory {
                ppu: final(self).ppu,
                dma_active: true,
                dma_cycles_remaining: 640,
                dma_source: (value * 256) as u16,
                ..*old(self)
            }),
            final(self).ppu == (Ppu { oam: final(self).ppu.oam, ..old(self).ppu }),
            final(self).ppu.oam@.len() == 0xA0,
            forall|i: int|
                0 <= i < 160 ==> final(self).ppu.oam@[i] == spec_mem_read(
                    *old(self),
                    (value * 256 + i) as u16,
                ),
            forall|i: int| 160 <= i < 0xA0 ==> final(self).ppu.oam@[i] == old(self).ppu.oam@[i],
    {
        proof {
            reveal(spec_mem_read);
        }
        let source: u16 = (value as u16) * 256;
        let mut i: usize = 0;
        while i < 160
            invariant
                mem_wf(*old(self)),
                i <= 160,
                source == value * 256,
                *self == (Memory { ppu: self.ppu, ..*old(self) }),
                self.ppu == (Ppu { oam: self.ppu.oam, ..old(self).ppu }),
                self.ppu.oam@.len() == 0xA0,
                forall|k: int|
                    0 <= k < i ==> self.ppu.oam@[k] == spec_mem_read(
                        *old(self),
                        (value * 256 + k) as u16,
                    ),
                forall|k: int| i <= k < 0xA0 ==> self.ppu.oam@[k] == old(self).ppu.oam@[k],
            decreases 160 - i,
        {
            let b = self.read_8(source + i as u16);
            proof {
                reveal(spec_mem_read);
                assert(spec_mem_read(*self, (value * 256 + i) as u16) == spec_mem_read(
                    *old(self),
                    (value * 256 + i) as u16,
                ));
            }
            self.ppu.oam[i] = b;
            i = i + 1;
        }
        self.dma_active = true;
        self.dma_cycles_remaining = 640;
        self.dma_source = source;
    }

    /// Write one byte to the bus.
    pub fn write_8(&mut self, address: u16, value: u8)
        requires
            mem_wf(*old(self)),
        ensures
            mem_wf(*final(self)),
            spec_write_post(*old(self), *final(self), address, value),
    {
        proof {
            reveal(spec_write_post);
        }
        if self.suppress_io_side_effects && address >= 0xFF00 {
            self.main_memory[address as usize] = value;
            if 0xFF04 <= address && address <= 0xFF07 {
                self.timer.raw_load(address, value);
            } else if 0xFF01 <= address && address <= 0xFF02 {
                self.serial.raw_load(address, value);
            } else if 0xFF40 <= address && address <= 0xFF4B {
                self.ppu.raw_load(address, value);
            }
        } else if address == 0xFF00 {
            self.joypad.write(value);
        } else if 0xFF04 <= address && address <= 0xFF07 {
            self.timer.write(address, value);
        } else if 0xFF01 <= address && address <= 0xFF02 {
            self.serial.write(address, value);
        } else if address == 0xFF46 {
            self.start_dma(value);
        } else if 0xFF40 <= address && address <= 0xFF4B {
            self.ppu.write(address, value);
        } else if 0x8000 <= address && address <= 0x9FFF {
            if self.ppu.stat % 4 != 3 {
                self.ppu.vram[(address - 0x8000) as usize] = value;
            }
        } else if 0xFE00 <= address && address <= 0xFE9F {
            if !self.dma_active {
                self.ppu.oam[(address - 0xFE00) as usize] = value;
            }
        } else if address < 0x8000 {
            self.write_to_rom_register(address, value);
        } else {
            self.main_memory[address as usize] = value;
        }
    }

    /// Write a 16-bit value: the low byte first, the high byte at the
    /// wrapped successor address.
    pub fn write_16(&mut self, address: u16, value: u16)
        requires
            mem_wf(*old(self)),
        ensures
            mem_wf(*final(self)),
            spec_write16_post(*old(self), *final(self), address, value),
    {
        proof {
            reveal(spec_write16_post);
        }
        self.write_8(address, (value % 256) as u8);
        let ghost mid = *self;
        self.write_8(address.wrapping_add(1), (value / 256) as u8);
        proof {
            assert(spec_write_post(*old(self), mid, address, (value % 256) as u8));
        }
    }

    /// Replace the cartridge image (padded or truncated to capacity) and
    /// reset the bank selector.
    pub fn set_rom(&mut self, rom: Vec<u8>)
        ensures
            *final(self) == (Memory {
                rom: final(self).rom,
                rom_loaded: true,
                current_rom_bank: 1,
                ..*old(self)
            }),
            final(self).rom.buffer@.len() == rom_capacity(),
            forall|i: int|
                0 <= i < rom_capacity() ==> final(self).rom.buffer@[i] == if i < rom@.len() {
                    rom@[i]
                } else {
                    0u8
                },
    {
        self.rom = Rom { buffer: make_rom_buffer(&rom) };
        self.rom_loaded = true;
        self.current_rom_bank = 1;
    }

    /// Mark the ROM present and reset the bank selector.
    pub fn init_rom_bank(&mut self)
        ensures
            *final(self) == (Memory { rom_loaded: true, current_rom_bank: 1, ..*old(self) }),
    {
        self.rom_loaded = true;
        self.current_rom_bank = 1;
    }

    /// Progress any pending OAM-DMA by the given number of T-cycles.
    pub fn tick_dma(&mut self, cycles: u32)
        ensures
            *final(self) == (Memory {
                dma_active: final(self).dma_active,
                dma_cycles_remaining: final(self).dma_cycles_remaining,
                ..*old(self)
            }),
            final(self).dma_active == (old(self).dma_active && cycles < old(
                self,
            ).dma_cycles_remaining),
            final(self).dma_cycles_remaining == if old(self).dma_active && cycles < old(
                self,
            ).dma_cycles_remaining {
                old(self).dma_cycles_remaining - cycles
            } else {
                0int
            },
    {
        if self.dma_active {
            if cycles < self.dma_cycles_remaining {
                self.dma_cycles_remaining = self.dma_cycles_remaining - cycles;
            } else {
                self.dma_cycles_remaining = 0;
                self.dma_active = false;
            }
        } else {
            self.dma_cycles_remaining = 0;
        }
    }

    /// Load the canonical 256-byte post-boot I/O table into 0xFF00-0xFFFF
    /// with peripheral side effects suppressed (each table byte reaches the
    /// owning peripheral's register as a raw load), then synchronize the
    /// joypad's register shadow from 0xFF00.
    #[verifier::rlimit(100)]
    #[verifier::spinoff_prover]
    pub fn init_post_boot_state(&mut self)
        requires
            mem_wf(*old(self)),
        ensures
            mem_wf(*final(self)),
            *final(self) == (Memory {
                main_memory: final(self).main_memory,
                joypad: final(self).joypad,
                timer: final(self).timer,
                serial: final(self).serial,
                ppu: final(self).ppu,
                suppress_io_side_effects: false,
                ..*old(self)
            }),
            final(self).main_memory@.len() == 0x10000,
            forall|a: int| 0 <= a < 0xFF00 ==> final(self).main_memory@[a] == old(
                self,
            ).main_memory@[a],
            forall|a: int|
                0xFF00 <= a < 0x10000 ==> final(self).main_memory@[a] == spec_io_reset(
                    (a - 0xFF00) as u8,
                ),
            final(self).joypad == (Joypad {
                register: spec_p1_value(old(self).joypad, 0xCF) as u8,
                ..old(self).joypad
            }),
            final(self).timer == (Timer { counter: 0, tima: 0, tma: 0, tac: 0, ..old(self).timer }),
            final(self).serial == (Serial {
                sb: 0,
                sc: 0,
                output_buffer: final(self).serial.output_buffer,
                ..old(self).serial
            }),
            final(self).serial.output_buffer == old(self).serial.output_buffer,
            final(self).ppu == (Ppu {
                lcdc: 0x91,
                lcd_was_enabled: true,
                stat: (0x84 + old(self).ppu.stat % 4) as u8,
                scy: 0,
                scx: 0,
                lyc: 0,
                bgp: 0xFC,
                obp0: 0xFF,
                obp1: 0xFF,
                wy: 0,
                wx: 0,
                ..old(self).ppu
            }),
    {
        proof {
            reveal(spec_write_post);
        }
        self.suppress_io_side_effects = true;
        let mut off: u16 = 0;
        while off < 256
            invariant
                mem_wf(*self),
                off <= 256,
                self.suppress_io_side_effects,
                *self == (Memory {
                    main_memory: self.main_memory,
                    timer: self.timer,
                    serial: self.serial,
                    ppu: self.ppu,
                    suppress_io_side_effects: true,
                    ..*old(self)
                }),
                self.main_memory@.len() == 0x10000,
                forall|a: int| 0 <= a < 0xFF00 ==> self.main_memory@[a] == old(
                    self,
                ).main_memory@[a],
                forall|a: int|
                    0xFF00 <= a < 0xFF00 + off ==> self.main_memory@[a] == spec_io_reset(
                        (a - 0xFF00) as u8,
                    ),
                forall|a: int| 0xFF00 + off <= a < 0x10000 ==> self.main_memory@[a] == old(
                    self,
                ).main_memory@[a],
                self.timer == (Timer {
                    counter: if off > 0x04 {
                        0u16
                    } else {
                        old(self).timer.counter
                    },
                    tima: if off > 0x05 {
                        0u8
                    } else {
                        old(self).timer.tima
                    },
                    tma: if off > 0x06 {
                        0u8
                    } else {
                        old(self).timer.tma
                    },
                    tac: if off > 0x07 {
                        0u8
                    } else {
                        old(self).timer.tac
                    },
                    ..old(self).timer
                }),
                self.serial == (Serial {
                    sb: if off > 0x01 {
                        0u8
                    } else {
                        old(self).serial.sb
                    },
                    sc: if off > 0x02 {
                        0u8
                    } else {
                        old(self).serial.sc
                    },
                    output_buffer: self.serial.output_buffer,
                    ..old(self).serial
                }),
                self.serial.output_buffer == old(self).serial.output_buffer,
                self.ppu == (Ppu {
                    lcdc: if off > 0x40 {
                        0x91u8
                    } else {
                        old(self).ppu.lcdc
                    },
                    lcd_was_enabled: if off > 0x40 {
                        true
                    } else {
                        old(self).ppu.lcd_was_enabled
                    },
                    stat: if off > 0x41 {
                        (0x84 + old(self).ppu.stat % 4) as u8
                    } else {
                        old(self).ppu.stat
                    },
                    scy: if off > 0x42 {
                        0u8
                    } else {
                        old(self).ppu.scy
                    },
                    scx: if off > 0x43 {
                        0u8
                    } else {
                        old(self).ppu.scx
                    },
                    lyc: if off > 0x45 {
                        0u8
                    } else {
                        old(self).ppu.lyc
                    },
                    bgp: if off > 0x47 {
                        0xFCu8
                    } else {
                        old(self).ppu.bgp
                    },
                    obp0: if off > 0x48 {
                        0xFFu8
                    } else {
                        old(self).ppu.obp0
                    },
                    obp1: if off > 0x49 {
                        0xFFu8
                    } else {
                        old(self).ppu.obp1
                    },
                    wy: if off > 0x4A {
                        0u8
                    } else {
                        old(self).ppu.wy
                    },
                    wx: if off > 0x4B {
                        0u8
                    } else {
                        old(self).ppu.wx
                    },
                    ..old(self).ppu
                }),
            decreases 256 - off,
        {
            let v = io_reset_value(off as u8);
            proof {
                reveal(spec_write_post);
            }
            self.write_8(0xFF00 + off, v);
            off = off + 1;
        }
        self.suppress_io_side_effects = false;
        let p1 = self.main_memory[0xFF00];
        proof {
            assert(p1 == spec_io_reset(0));
        }
        self.joypad.set_register_raw(p1);
    }
}

/// A zeroed 64 KiB main memory.
fn make_zero_main() -> (r: Vec<u8>)
    ensures
        r@.len() == 0x10000,
        forall|i: int| 0 <= i < 0x10000 ==> r@[i] == 0,
{
    let mut v: Vec<u8> = Vec::new();
    let mut i: usize = 0;
    while i < 0x10000
        invariant
            i <= 0x10000,
            v@.len() == i,
            forall|k: int| 0 <= k < i ==> v@[k] == 0,
        decreases 0x10000 - i,
    {
        v.push(0);
        i = i + 1;
    }
    v
}

} // verus!

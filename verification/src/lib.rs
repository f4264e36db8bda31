//! A cycle-driven Game Boy (DMG) emulator core: a Sharp LR35902-class CPU,
//! a scanline-based PPU, an interval timer, a serial capture port, a joypad
//! latch, and the memory bus that mediates between them.

pub mod cpu;
pub mod emulator;
pub mod joypad;
pub mod laws;
pub mod memory;
pub mod ppu;
pub mod serial;
pub mod timer;

use vstd::prelude::*;

verus! {

/// The four DMG grey shades, lightest first, as RGB triples.
pub fn shade_rgb(shade: u8) -> (r: (u8, u8, u8))
    requires
        shade < 4,
    ensures
        r == spec_shade_rgb(shade),
{
    if shade == 0 {
        (0x9B, 0xBC, 0x0F)
    } else if shade == 1 {
        (0x8B, 0xAC, 0x0F)
    } else if shade == 2 {
        (0x30, 0x62, 0x30)
    } else {
        (0x0F, 0x38, 0x0F)
    }
}

/// The RGB triple a 2-bit shade index denotes.
pub open spec fn spec_shade_rgb(shade: u8) -> (u8, u8, u8) {
    if shade == 0 {
        (0x9B, 0xBC, 0x0F)
    } else if shade == 1 {
        (0x8B, 0xAC, 0x0F)
    } else if shade == 2 {
        (0x30, 0x62, 0x30)
    } else {
        (0x0F, 0x38, 0x0F)
    }
}

} // verus!

//! The serial link: SB/SC registers and a capture buffer for outgoing bytes.
//! No real transfer is modelled: a write to SC with the start bit set appends
//! SB to the capture buffer (0x00 and 0x55 idle/sync bytes excepted), the
//! start bit stays set, and no interrupt is raised, so programs polling for a
//! link partner proceed without a deadlock while test programs that print
//! through the port are captured in full.

use vstd::prelude::*;

verus! {

/// Relies on String::push: appends the given character to the end of the
/// string.
pub assume_specification[ String::push ](s: &mut String, ch: char)
    ensures
        final(s)@ == old(s)@.push(ch),
;

pub struct Serial {
    /// Serial transfer data (SB, 0xFF01).
    pub sb: u8,
    /// Serial transfer control (SC, 0xFF02): bit 7 start, bit 0 clock source.
    pub sc: u8,
    /// Kept for the bus interface; never raised, as no transfer completes.
    pub interrupt_pending: bool,
    /// Captured outgoing bytes, oldest first.
    pub output_buffer: Vec<u8>,
}

/// The serial invariant: SC only ever holds its two writable bits.
pub open spec fn serial_wf(s: Serial) -> bool {
    s.sc == (s.sc / 128) * 128 + s.sc % 2
}

/// What a read of a serial register returns: SC reads with bits 1-6 set.
pub open spec fn spec_serial_read(s: Serial, address: u16) -> u8 {
    if address == 0xFF01 {
        s.sb
    } else if address == 0xFF02 {
        ((s.sc / 128) * 128 + 0x7E + s.sc % 2) as u8
    } else {
        0xFF
    }
}

/// SC after a write: only bits 7 and 0 are stored.
pub open spec fn spec_sc_stored(value: u8) -> u8 {
    ((value / 128) * 128 + value % 2) as u8
}

/// Whether an SC write starts a transfer (bit 7 of the written value).
pub open spec fn spec_sc_starts_transfer(value: u8) -> bool {
    value / 128 == 1
}

/// Whether a byte written to SB is captured when a transfer starts: the
/// 0x00 and 0x55 idle/sync bytes are not.
pub open spec fn spec_serial_captures(sb: u8) -> bool {
    sb != 0x00 && sb != 0x55
}

/// The capture buffer after a register write.
pub open spec fn spec_serial_output_after_write(s: Serial, address: u16, value: u8) -> Seq<u8> {
    if address == 0xFF02 && spec_sc_starts_transfer(value) && spec_serial_captures(s.sb) {
        s.output_buffer@.push(s.sb)
    } else {
        s.output_buffer@
    }
}

/// The SB/SC register pair after a register write: SB stores the value
/// written to it, SC stores its two writable bits; a transfer start changes
/// neither SB nor the start bit.
pub open spec fn spec_serial_regs_after_write(s: Serial, address: u16, value: u8) -> (u8, u8) {
    if address == 0xFF01 {
        (value, s.sc)
    } else if address == 0xFF02 {
        (s.sb, spec_sc_stored(value))
    } else {
        (s.sb, s.sc)
    }
}

/// The SB/SC pair after a raw register load from the post-boot reset
/// table: SC keeps only its two writable bits and no transfer starts.
pub open spec fn spec_serial_raw_regs(s: Serial, address: u16, value: u8) -> (u8, u8) {
    if address == 0xFF01 {
        (value, s.sc)
    } else if address == 0xFF02 {
        (s.sb, spec_sc_stored(value))
    } else {
        (s.sb, s.sc)
    }
}

impl Serial {
    pub fn new() -> (s: Serial)
        ensures
            s.sb == 0,
            s.sc == 0,
            !s.interrupt_pending,
            s.output_buffer@ == Seq::<u8>::empty(),
            serial_wf(s),
    {
        Serial { sb: 0, sc: 0, interrupt_pending: false, output_buffer: Vec::new() }
    }

    /// What a read of 0xFF01-0xFF02 returns.
    pub fn read(&self, address: u16) -> (r: u8)
        requires
            serial_wf(*self),
        ensures
            r == spec_serial_read(*self, address),
    {
        if address == 0xFF01 {
            self.sb
        } else if address == 0xFF02 {
            (self.sc / 128) * 128 + 0x7E + self.sc % 2
        } else {
            0xFF
        }
    }

    /// Write one of 0xFF01-0xFF02.  An SC write with the start bit set
    /// captures the current SB byte (except 0x00 and 0x55); the start bit is
    /// left set and no interrupt is raised.
    pub fn write(&mut self, address: u16, value: u8)
        requires
            serial_wf(*old(self)),
        ensures
            (final(self).sb, final(self).sc) == spec_serial_regs_after_write(
                *old(self),
                address,
                value,
            ),
            final(self).output_buffer@ == spec_serial_output_after_write(
                *old(self),
                address,
                value,
            ),
            final(self).interrupt_pending == old(self).interrupt_pending,
            serial_wf(*final(self)),
    {
        if address == 0xFF01 {
            self.sb = value;
        } else if address == 0xFF02 {
            self.sc = (value / 128) * 128 + value % 2;
            proof {
                assert(((value / 128) * 128 + value % 2) / 128 == value / 128 && ((value / 128)
                    * 128 + value % 2) % 2 == value % 2) by (nonlinear_arith);
            }
            if value / 128 == 1 {
                self.start_transfer();
            }
        }
    }

    /// Capture the current SB byte into the output buffer, excepting the
    /// 0x00 and 0x55 idle/sync bytes.
    fn start_transfer(&mut self)
        ensures
            final(self).output_buffer@ == if spec_serial_captures(old(self).sb) {
                old(self).output_buffer@.push(old(self).sb)
            } else {
                old(self).output_buffer@
            },
            final(self).sb == old(self).sb,
            final(self).sc == old(self).sc,
            final(self).interrupt_pending == old(self).interrupt_pending,
    {
        if self.sb != 0x00 && self.sb != 0x55 {
            let b = self.sb;
            self.output_buffer.push(b);
        }
    }

    /// Load a register value raw, without starting a transfer, as the
    /// post-boot reset table is applied.
    pub fn raw_load(&mut self, address: u16, value: u8)
        requires
            serial_wf(*old(self)),
        ensures
            (final(self).sb, final(self).sc) == spec_serial_raw_regs(*old(self), address, value),
            final(self).output_buffer == old(self).output_buffer,
            final(self).interrupt_pending == old(self).interrupt_pending,
            serial_wf(*final(self)),
    {
        if address == 0xFF01 {
            self.sb = value;
        } else if address == 0xFF02 {
            self.sc = (value / 128) * 128 + value % 2;
            proof {
                assert(((value / 128) * 128 + value % 2) / 128 == value / 128 && ((value / 128)
                    * 128 + value % 2) % 2 == value % 2) by (nonlinear_arith);
            }
        }
    }

    /// Drop the interrupt latch; kept for interface symmetry with the other
    /// peripherals (this port never raises it).
    pub fn clear_interrupt(&mut self)
        ensures
            *final(self) == (Serial { interrupt_pending: false, ..*old(self) }),
    {
        self.interrupt_pending = false;
    }

    /// Pop the oldest captured byte, if any.
    pub fn get_output(&mut self) -> (r: Option<u8>)
        ensures
            old(self).output_buffer@.len() == 0 ==> r is None && *final(self) == *old(self),
            old(self).output_buffer@.len() > 0 ==> r == Some(old(self).output_buffer@[0])
                && final(self).output_buffer@ == old(self).output_buffer@.remove(0)
                && final(self).sb == old(self).sb
                && final(self).sc == old(self).sc
                && final(self).interrupt_pending == old(self).interrupt_pending,
    {
        if self.output_buffer.len() > 0 {
            let b = self.output_buffer.remove(0);
            Some(b)
        } else {
            None
        }
    }

    /// The captured output as text: each byte below 0x80 is its ASCII
    /// character; any other byte becomes the replacement character.
    pub fn get_output_string(&self) -> (r: String)
        ensures
            r@.len() == self.output_buffer@.len(),
            forall|i: int|
                0 <= i < self.output_buffer@.len() ==> r@[i] == if self.output_buffer@[i] < 0x80 {
                    self.output_buffer@[i] as char
                } else {
                    '\u{FFFD}'
                },
    {
        let mut out = String::new();
        let mut i: usize = 0;
        while i < self.output_buffer.len()
            invariant
                i <= self.output_buffer@.len(),
                out@.len() == i,
                forall|k: int|
                    0 <= k < i ==> out@[k] == if self.output_buffer@[k] < 0x80 {
                        self.output_buffer@[k] as char
                    } else {
                        '\u{FFFD}'
                    },
            decreases self.output_buffer@.len() - i,
        {
            let b = self.output_buffer[i];
            if b < 0x80 {
                out.push(b as char);
            } else {
                out.push('\u{FFFD}');
            }
            i = i + 1;
        }
        out
    }

    /// Forget all captured output.
    pub fn clear_output(&mut self)
        ensures
            final(self).output_buffer@ == Seq::<u8>::empty(),
            final(self).sb == old(self).sb,
            final(self).sc == old(self).sc,
            final(self).interrupt_pending == old(self).interrupt_pending,
    {
        self.output_buffer.clear()
    }
}

/// Writing SB or SC and reading the same register returns the written value
/// masked by the register's writable bits (all of SB; bits 7 and 0 of SC),
/// ORed with SC's fixed read bits 1-6.
pub proof fn lemma_serial_write_then_read(s: Serial, address: u16, value: u8)
    requires
        address == 0xFF01 || address == 0xFF02,
    ensures
        address == 0xFF01 ==> spec_serial_read(
            Serial {
                sb: spec_serial_regs_after_write(s, address, value).0,
                sc: spec_serial_regs_after_write(s, address, value).1,
                ..s
            },
            address,
        ) == value,
        address == 0xFF02 ==> spec_serial_read(
            Serial {
                sb: spec_serial_regs_after_write(s, address, value).0,
                sc: spec_serial_regs_after_write(s, address, value).1,
                ..s
            },
            address,
        ) == spec_sc_stored(value) + 0x7E,
{
    assert(spec_sc_stored(value) / 128 == value / 128 && spec_sc_stored(value) % 2 == value % 2)
        by (nonlinear_arith);
}

} // verus!

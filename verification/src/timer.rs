//! The interval timer: a 16-bit internal counter whose upper byte is DIV,
//! and a TIMA counter that increments on the falling edge of a selected
//! counter bit ANDed with the TAC enable bit.  A TIMA overflow starts a
//! four-T-cycle delay; at its expiry TIMA is reloaded from TMA and the
//! timer interrupt latch is raised.

use vstd::prelude::*;

verus! {

pub struct Timer {
    /// 16-bit internal counter; advances once per T-cycle; DIV is its upper byte.
    pub counter: u16,
    /// Timer counter (TIMA, 0xFF05).
    pub tima: u8,
    /// Timer modulo (TMA, 0xFF06): reloaded into TIMA after an overflow delay.
    pub tma: u8,
    /// Timer control (TAC, 0xFF07): bit 2 enable, bits 0-1 frequency select.
    pub tac: u8,
    /// T-cycles left of the post-overflow reload delay; 0 when no reload is pending.
    pub reload_delay: u8,
    /// Raised when the reload delay expires; cleared by interrupt dispatch.
    pub interrupt_pending: bool,
}

/// The timer's invariant: TAC holds three bits and the reload delay never
/// exceeds the four T-cycles an overflow starts.
pub open spec fn timer_wf(t: Timer) -> bool {
    t.tac < 8 && t.reload_delay <= 4
}

/// The counter bit whose falling edge (ANDed with the enable bit) increments
/// TIMA: TAC selects bit 9, 3, 5 or 7.
pub open spec fn spec_timer_bit(counter: u16, tac: u8) -> bool {
    if tac % 4 == 0 {
        (counter / 512) % 2 == 1
    } else if tac % 4 == 1 {
        (counter / 8) % 2 == 1
    } else if tac % 4 == 2 {
        (counter / 32) % 2 == 1
    } else {
        (counter / 128) % 2 == 1
    }
}

/// Whether TAC bit 2 enables the timer.
pub open spec fn spec_timer_enabled(tac: u8) -> bool {
    (tac / 4) % 2 == 1
}

/// The signal whose falling edge increments TIMA: the selected counter bit
/// ANDed with the enable bit.
pub open spec fn spec_timer_signal(counter: u16, tac: u8) -> bool {
    spec_timer_enabled(tac) && spec_timer_bit(counter, tac)
}

/// One TIMA increment: an overflow leaves TIMA at zero and starts the
/// four-T-cycle reload delay.
pub open spec fn spec_tima_increment(t: Timer) -> Timer {
    if t.tima == 0xFF {
        Timer { tima: 0, reload_delay: 4, ..t }
    } else {
        Timer { tima: (t.tima + 1) as u8, ..t }
    }
}

/// The timer after one T-cycle: the reload delay (if running) counts down and
/// reloads TIMA from TMA at expiry, then the counter advances and a falling
/// edge of the timer signal increments TIMA.
pub open spec fn spec_timer_cycle(t: Timer) -> Timer {
    let t1 = if t.reload_delay > 0 {
        if t.reload_delay == 1 {
            Timer { reload_delay: 0, tima: t.tma, interrupt_pending: true, ..t }
        } else {
            Timer { reload_delay: (t.reload_delay - 1) as u8, ..t }
        }
    } else {
        t
    };
    let old_signal = spec_timer_signal(t1.counter, t1.tac);
    let new_counter = if t1.counter == 0xFFFF { 0u16 } else { (t1.counter + 1) as u16 };
    let t2 = Timer { counter: new_counter, ..t1 };
    if old_signal && !spec_timer_signal(t2.counter, t2.tac) {
        spec_tima_increment(t2)
    } else {
        t2
    }
}

/// The timer after `n` T-cycles.
pub open spec fn spec_timer_cycles(t: Timer, n: nat) -> Timer
    decreases n,
{
    if n == 0 {
        t
    } else {
        spec_timer_cycle(spec_timer_cycles(t, (n - 1) as nat))
    }
}

/// What a read of a timer register returns: DIV is the counter's upper byte,
/// TAC reads with its upper five bits set, and any other address reads 0xFF.
pub open spec fn spec_timer_read(t: Timer, address: u16) -> u8 {
    if address == 0xFF04 {
        (t.counter / 256) as u8
    } else if address == 0xFF05 {
        t.tima
    } else if address == 0xFF06 {
        t.tma
    } else if address == 0xFF07 {
        (0xF8 + t.tac) as u8
    } else {
        0xFF
    }
}

/// The timer after a register write.  A DIV write zeroes the counter, which
/// itself fires a falling edge when the timer signal was high.  A TIMA write
/// cancels a pending reload.  A TAC write that drops the enable bit while the
/// selected counter bit is high also fires a falling edge.
pub open spec fn spec_timer_write(t: Timer, address: u16, value: u8) -> Timer {
    if address == 0xFF04 {
        let was_high = spec_timer_signal(t.counter, t.tac);
        let t1 = Timer { counter: 0, ..t };
        if was_high {
            spec_tima_increment(t1)
        } else {
            t1
        }
    } else if address == 0xFF05 {
        Timer { tima: value, reload_delay: 0, ..t }
    } else if address == 0xFF06 {
        Timer { tma: value, ..t }
    } else if address == 0xFF07 {
        let new_tac = value % 8;
        let was_high = spec_timer_signal(t.counter, t.tac);
        let t1 = Timer { tac: new_tac, ..t };
        if was_high && !spec_timer_signal(t1.counter, t1.tac) {
            spec_tima_increment(t1)
        } else {
            t1
        }
    } else {
        t
    }
}

/// The timer after a raw register load from the post-boot reset table:
/// the stored value is adopted with the register's own storage masking but
/// no side effects (no DIV falling edge, no reload cancel).  The loaded
/// DIV byte becomes the counter's upper byte.
pub open spec fn spec_timer_raw_load(t: Timer, address: u16, value: u8) -> Timer {
    if address == 0xFF04 {
        Timer { counter: (value * 256) as u16, ..t }
    } else if address == 0xFF05 {
        Timer { tima: value, ..t }
    } else if address == 0xFF06 {
        Timer { tma: value, ..t }
    } else if address == 0xFF07 {
        Timer { tac: (value % 8) as u8, ..t }
    } else {
        t
    }
}

impl Timer {
    /// A timer with everything at zero.  The internal counter starts at
    /// zero rather than the hardware's documented post-boot 0xABCC: the
    /// post-boot flow loads DIV's reset value of zero anyway, so the two
    /// choices agree from that point on.
    pub fn new() -> (t: Timer)
        ensures
            t == (Timer {
                counter: 0,
                tima: 0,
                tma: 0,
                tac: 0,
                reload_delay: 0,
                interrupt_pending: false,
            }),
            timer_wf(t),
    {
        Timer {
            counter: 0,
            tima: 0,
            tma: 0,
            tac: 0,
            reload_delay: 0,
            interrupt_pending: false,
        }
    }

    /// The current level of the increment signal (selected counter bit AND enable).
    fn signal(&self) -> (b: bool)
        ensures
            b == spec_timer_signal(self.counter, self.tac),
    {
        let sel = self.tac % 4;
        let enabled = (self.tac / 4) % 2 == 1;
        let bit = if sel == 0 {
            (self.counter / 512) % 2 == 1
        } else if sel == 1 {
            (self.counter / 8) % 2 == 1
        } else if sel == 2 {
            (self.counter / 32) % 2 == 1
        } else {
            (self.counter / 128) % 2 == 1
        };
        enabled && bit
    }

    /// Increment TIMA; on overflow leave it at zero and start the reload delay.
    fn increment_tima(&mut self)
        ensures
            *final(self) == spec_tima_increment(*old(self)),
    {
        if self.tima == 0xFF {
            self.tima = 0;
            self.reload_delay = 4;
        } else {
            self.tima = self.tima + 1;
        }
    }

    /// Advance the timer by one T-cycle.
    fn cycle(&mut self)
        ensures
            *final(self) == spec_timer_cycle(*old(self)),
    {
        if self.reload_delay > 0 {
            if self.reload_delay == 1 {
                self.reload_delay = 0;
                self.tima = self.tma;
                self.interrupt_pending = true;
            } else {
                self.reload_delay = self.reload_delay - 1;
            }
        }
        let old_signal = self.signal();
        self.counter = if self.counter == 0xFFFF { 0 } else { self.counter + 1 };
        if old_signal && !self.signal() {
            self.increment_tima();
        }
    }

    /// Advance the timer by the given number of T-cycles.
    pub fn tick(&mut self, cycles: u16)
        requires
            timer_wf(*old(self)),
        ensures
            *final(self) == spec_timer_cycles(*old(self), cycles as nat),
            timer_wf(*final(self)),
    {
        proof {
            lemma_timer_cycles_wf(*old(self), cycles as nat);
        }
        let mut i: u16 = 0;
        while i < cycles
            invariant
                i <= cycles,
                *self == spec_timer_cycles(*old(self), i as nat),
            decreases cycles - i,
        {
            self.cycle();
            i = i + 1;
            proof {
                lemma_timer_cycles_peel(*old(self), i as nat);
            }
        }
    }

    /// What a read of 0xFF04-0xFF07 returns.
    pub fn read(&self, address: u16) -> (r: u8)
        requires
            timer_wf(*self),
        ensures
            r == spec_timer_read(*self, address),
    {
        if address == 0xFF04 {
            (self.counter / 256) as u8
        } else if address == 0xFF05 {
            self.tima
        } else if address == 0xFF06 {
            self.tma
        } else if address == 0xFF07 {
            0xF8 + self.tac
        } else {
            0xFF
        }
    }

    /// Write one of 0xFF04-0xFF07.
    pub fn write(&mut self, address: u16, value: u8)
        requires
            timer_wf(*old(self)),
        ensures
            *final(self) == spec_timer_write(*old(self), address, value),
            timer_wf(*final(self)),
    {
        if address == 0xFF04 {
            let was_high = self.signal();
            self.counter = 0;
            if was_high {
                self.increment_tima();
            }
        } else if address == 0xFF05 {
            self.tima = value;
            self.reload_delay = 0;
        } else if address == 0xFF06 {
            self.tma = value;
        } else if address == 0xFF07 {
            let was_high = self.signal();
            self.tac = value % 8;
            let now_high = self.signal();
            if was_high && !now_high {
                self.increment_tima();
            }
        }
    }

    /// Load a register value raw, without write side effects, as the
    /// post-boot reset table is applied.
    pub fn raw_load(&mut self, address: u16, value: u8)
        requires
            timer_wf(*old(self)),
        ensures
            *final(self) == spec_timer_raw_load(*old(self), address, value),
            timer_wf(*final(self)),
    {
        if address == 0xFF04 {
            self.counter = (value as u16) * 256;
        } else if address == 0xFF05 {
            self.tima = value;
        } else if address == 0xFF06 {
            self.tma = value;
        } else if address == 0xFF07 {
            self.tac = value % 8;
        }
    }

    /// Drop the interrupt latch once the interrupt has been dispatched.
    pub fn clear_interrupt(&mut self)
        ensures
            *final(self) == (Timer { interrupt_pending: false, ..*old(self) }),
    {
        self.interrupt_pending = false;
    }
}

/// A well-formed timer stays well-formed through any run of T-cycles.
pub proof fn lemma_timer_cycles_wf(t: Timer, n: nat)
    requires
        timer_wf(t),
    ensures
        timer_wf(spec_timer_cycles(t, n)),
    decreases n,
{
    if n > 0 {
        lemma_timer_cycles_wf(t, (n - 1) as nat);
    }
}

/// Peeling a run of T-cycles at its end: `n` cycles are `n - 1` cycles
/// followed by one more.
pub proof fn lemma_timer_cycles_peel(t: Timer, n: nat)
    requires
        n > 0,
    ensures
        spec_timer_cycles(t, n) == spec_timer_cycle(spec_timer_cycles(t, (n - 1) as nat)),
{
}

/// A DIV write zeroes the internal counter, so an immediate DIV read
/// returns zero.
pub proof fn lemma_div_write_then_read(t: Timer, value: u8)
    ensures
        spec_timer_read(spec_timer_write(t, 0xFF04, value), 0xFF04) == 0,
{
}

/// Writing TIMA, TMA or TAC and reading the same register returns the value
/// masked by the register's writable bits, ORed with the bits that read
/// fixed (TAC's upper five).
pub proof fn lemma_timer_write_then_read(t: Timer, address: u16, value: u8)
    requires
        0xFF05 <= address <= 0xFF07,
    ensures
        address == 0xFF05 ==> spec_timer_read(spec_timer_write(t, address, value), address)
            == value,
        address == 0xFF06 ==> spec_timer_read(spec_timer_write(t, address, value), address)
            == value,
        address == 0xFF07 ==> spec_timer_read(spec_timer_write(t, address, value), address)
            == 0xF8 + (value % 8),
{
}

} // verus!

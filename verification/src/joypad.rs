//! The joypad latch: eight pressed/released flags and the multiplexed P1
//! register.  Bits 6-7 of P1 always read as 1; bits 4-5 select a button
//! group (active low: bit 4 low selects the action buttons, bit 5 low the
//! directions); bits 0-3 read 0 for each pressed button of a selected group.
//! A press raises the interrupt latch only when its group is selected and
//! the button goes from released to pressed.

use vstd::prelude::*;

verus! {

#[derive(Debug, Clone, Copy, PartialEq, Eq)]
pub enum JoypadButton {
    Right,
    Left,
    Up,
    Down,
    A,
    B,
    Select,
    Start,
}

pub struct Joypad {
    pub right: bool,
    pub left: bool,
    pub up: bool,
    pub down: bool,
    pub a: bool,
    pub b: bool,
    pub select: bool,
    pub start: bool,
    /// The P1 register (0xFF00), kept consistent with the flags above.
    pub register: u8,
    /// Raised on a release-to-press transition of a selected button.
    pub interrupt_requested: bool,
}

/// Whether a button belongs to the direction group (the others form the
/// action-button group).
pub open spec fn spec_is_direction(button: JoypadButton) -> bool {
    button is Right || button is Left || button is Up || button is Down
}

/// Whether the given button is currently pressed.
pub open spec fn spec_pressed(j: Joypad, button: JoypadButton) -> bool {
    match button {
        JoypadButton::Right => j.right,
        JoypadButton::Left => j.left,
        JoypadButton::Up => j.up,
        JoypadButton::Down => j.down,
        JoypadButton::A => j.a,
        JoypadButton::B => j.b,
        JoypadButton::Select => j.select,
        JoypadButton::Start => j.start,
    }
}

/// The action-button group is selected when P1 bit 4 is low.
pub open spec fn spec_buttons_selected(p1: u8) -> bool {
    (p1 / 16) % 2 == 0
}

/// The direction group is selected when P1 bit 5 is low.
pub open spec fn spec_directions_selected(p1: u8) -> bool {
    (p1 / 32) % 2 == 0
}

/// Whether the group a button belongs to is selected by the given P1 value.
pub open spec fn spec_group_selected(p1: u8, button: JoypadButton) -> bool {
    if spec_is_direction(button) {
        spec_directions_selected(p1)
    } else {
        spec_buttons_selected(p1)
    }
}

/// One bit of P1's low nibble: 0 exactly when a pressed button of a selected
/// group drives the line low.
pub open spec fn spec_p1_line(low: bool) -> int {
    if low {
        0
    } else {
        1
    }
}

/// P1's low nibble for the given flags and select bits, as a value in 0..16.
/// Line 0 is Right or A, line 1 Left or B, line 2 Up or Select, line 3 Down
/// or Start; both groups may drive a line at once.
pub open spec fn spec_p1_nibble(j: Joypad, p1: u8) -> int {
    let dirs = spec_directions_selected(p1);
    let btns = spec_buttons_selected(p1);
    spec_p1_line(dirs && j.down || btns && j.start) * 8 + spec_p1_line(
        dirs && j.up || btns && j.select,
    ) * 4 + spec_p1_line(dirs && j.left || btns && j.b) * 2 + spec_p1_line(
        dirs && j.right || btns && j.a,
    )
}

/// The full P1 value for the given flags and select bits: bits 6-7 set, the
/// select bits kept, the low nibble computed from the selected groups.
pub open spec fn spec_p1_value(j: Joypad, select_bits: u8) -> int {
    0xC0 + ((select_bits / 16) % 4) * 16 + spec_p1_nibble(j, select_bits)
}

/// The joypad invariant: the stored register always equals the value its own
/// select bits and the pressed flags dictate.
pub open spec fn joypad_wf(j: Joypad) -> bool {
    j.register == spec_p1_value(j, j.register)
}

/// The pressed flags after pressing or releasing one button.
pub open spec fn spec_with_button(j: Joypad, button: JoypadButton, pressed: bool) -> Joypad {
    match button {
        JoypadButton::Right => Joypad { right: pressed, ..j },
        JoypadButton::Left => Joypad { left: pressed, ..j },
        JoypadButton::Up => Joypad { up: pressed, ..j },
        JoypadButton::Down => Joypad { down: pressed, ..j },
        JoypadButton::A => Joypad { a: pressed, ..j },
        JoypadButton::B => Joypad { b: pressed, ..j },
        JoypadButton::Select => Joypad { select: pressed, ..j },
        JoypadButton::Start => Joypad { start: pressed, ..j },
    }
}

impl Joypad {
    pub fn new() -> (j: Joypad)
        ensures
            j.register == 0xCF,
            !j.interrupt_requested,
            forall|button: JoypadButton| !spec_pressed(j, button),
            joypad_wf(j),
    {
        Joypad {
            right: false,
            left: false,
            up: false,
            down: false,
            a: false,
            b: false,
            select: false,
            start: false,
            register: 0xCF,
            interrupt_requested: false,
        }
    }

    /// Recompute the register's low nibble from the pressed flags and its
    /// current select bits.
    fn update_register(&mut self)
        ensures
            *final(self) == (Joypad {
                register: spec_p1_value(*old(self), old(self).register) as u8,
                ..*old(self)
            }),
            joypad_wf(*final(self)),
    {
        let dirs = (self.register / 32) % 2 == 0;
        let btns = (self.register / 16) % 2 == 0;
        let line3: u8 = if dirs && self.down || btns && self.start { 0 } else { 1 };
        let line2: u8 = if dirs && self.up || btns && self.select { 0 } else { 1 };
        let line1: u8 = if dirs && self.left || btns && self.b { 0 } else { 1 };
        let line0: u8 = if dirs && self.right || btns && self.a { 0 } else { 1 };
        let select_bits = (self.register / 16) % 4;
        let nibble: u8 = line3 * 8 + line2 * 4 + line1 * 2 + line0;
        self.register = 0xC0 + select_bits * 16 + nibble;
        proof {
            lemma_p1_select_bits(old(self).register, select_bits, nibble);
        }
    }

    /// Press a button: raise the interrupt latch when its group is selected
    /// and it was released, then refresh the register.
    pub fn press(&mut self, button: JoypadButton)
        requires
            joypad_wf(*old(self)),
        ensures
            ({
                let pressed = spec_with_button(*old(self), button, true);
                *final(self) == (Joypad {
                    register: spec_p1_value(pressed, old(self).register) as u8,
                    interrupt_requested: old(self).interrupt_requested || (!spec_pressed(
                        *old(self),
                        button,
                    ) && spec_group_selected(old(self).register, button)),
                    ..pressed
                })
            }),
            joypad_wf(*final(self)),
    {
        let was_pressed = self.is_pressed(button);
        self.set_button(button, true);
        if !was_pressed {
            let is_direction = matches!(
                button,
                JoypadButton::Up | JoypadButton::Down | JoypadButton::Left | JoypadButton::Right
            );
            let selected = if is_direction {
                (self.register / 32) % 2 == 0
            } else {
                (self.register / 16) % 2 == 0
            };
            if selected {
                self.interrupt_requested = true;
            }
        }
        self.update_register();
    }

    /// Release a button and refresh the register.
    pub fn release(&mut self, button: JoypadButton)
        requires
            joypad_wf(*old(self)),
        ensures
            ({
                let released = spec_with_button(*old(self), button, false);
                *final(self) == (Joypad {
                    register: spec_p1_value(released, old(self).register) as u8,
                    ..released
                })
            }),
            joypad_wf(*final(self)),
    {
        self.set_button(button, false);
        self.update_register();
    }

    /// Release a button and refresh the register.
    pub fn release_button(&mut self, button: JoypadButton)
        requires
            joypad_wf(*old(self)),
        ensures
            ({
                let released = spec_with_button(*old(self), button, false);
                *final(self) == (Joypad {
                    register: spec_p1_value(released, old(self).register) as u8,
                    ..released
                })
            }),
            joypad_wf(*final(self)),
    {
        self.set_button(button, false);
        self.update_register();
    }

    /// Press a button (alias of `press`).
    pub fn press_button(&mut self, button: JoypadButton)
        requires
            joypad_wf(*old(self)),
        ensures
            ({
                let pressed = spec_with_button(*old(self), button, true);
                *final(self) == (Joypad {
                    register: spec_p1_value(pressed, old(self).register) as u8,
                    interrupt_requested: old(self).interrupt_requested || (!spec_pressed(
                        *old(self),
                        button,
                    ) && spec_group_selected(old(self).register, button)),
                    ..pressed
                })
            }),
            joypad_wf(*final(self)),
    {
        self.press(button);
    }

    /// Set one pressed flag.
    fn set_button(&mut self, button: JoypadButton, pressed: bool)
        ensures
            *final(self) == spec_with_button(*old(self), button, pressed),
    {
        match button {
            JoypadButton::Right => self.right = pressed,
            JoypadButton::Left => self.left = pressed,
            JoypadButton::Up => self.up = pressed,
            JoypadButton::Down => self.down = pressed,
            JoypadButton::A => self.a = pressed,
            JoypadButton::B => self.b = pressed,
            JoypadButton::Select => self.select = pressed,
            JoypadButton::Start => self.start = pressed,
        }
    }

    /// Whether the given button is pressed.
    pub fn is_pressed(&self, button: JoypadButton) -> (r: bool)
        ensures
            r == spec_pressed(*self, button),
    {
        match button {
            JoypadButton::Right => self.right,
            JoypadButton::Left => self.left,
            JoypadButton::Up => self.up,
            JoypadButton::Down => self.down,
            JoypadButton::A => self.a,
            JoypadButton::B => self.b,
            JoypadButton::Select => self.select,
            JoypadButton::Start => self.start,
        }
    }

    /// Read P1.
    pub fn read(&self) -> (r: u8)
        ensures
            r == self.register,
    {
        self.register
    }

    /// Write P1: only the group-select bits 4-5 are taken from the value;
    /// the low nibble is recomputed and bits 6-7 read as 1.
    pub fn write(&mut self, value: u8)
        requires
            joypad_wf(*old(self)),
        ensures
            final(self).register == spec_p1_value(*old(self), value) as u8,
            *final(self) == (Joypad { register: final(self).register, ..*old(self) }),
            joypad_wf(*final(self)),
    {
        let select_bits = (value / 16) % 4;
        self.register = 0xC0 + select_bits * 16;
        proof {
            lemma_p1_select_bits(value, select_bits, 0);
        }
        self.update_register();
    }

    /// Overwrite P1's select bits directly, as the post-boot reset table
    /// does, then recompute the low nibble.
    pub fn set_register_raw(&mut self, value: u8)
        requires
            joypad_wf(*old(self)),
        ensures
            final(self).register == spec_p1_value(*old(self), value) as u8,
            *final(self) == (Joypad { register: final(self).register, ..*old(self) }),
            joypad_wf(*final(self)),
    {
        self.write(value);
    }

    /// Drop the interrupt latch once the interrupt has been dispatched.
    pub fn clear_interrupt(&mut self)
        ensures
            *final(self) == (Joypad { interrupt_requested: false, ..*old(self) }),
    {
        self.interrupt_requested = false;
    }

    /// The currently pressed buttons, in a fixed order.
    pub fn get_pressed_buttons(&self) -> (r: Vec<JoypadButton>)
        ensures
            r@ == spec_pressed_seq(*self),
    {
        let mut out: Vec<JoypadButton> = Vec::new();
        if self.right {
            out.push(JoypadButton::Right);
        }
        if self.left {
            out.push(JoypadButton::Left);
        }
        if self.up {
            out.push(JoypadButton::Up);
        }
        if self.down {
            out.push(JoypadButton::Down);
        }
        if self.a {
            out.push(JoypadButton::A);
        }
        if self.b {
            out.push(JoypadButton::B);
        }
        if self.select {
            out.push(JoypadButton::Select);
        }
        if self.start {
            out.push(JoypadButton::Start);
        }
        out
    }
}

/// The sequence `get_pressed_buttons` returns: each pressed button once, in
/// the fixed order Right, Left, Up, Down, A, B, Select, Start.
pub open spec fn spec_pressed_seq(j: Joypad) -> Seq<JoypadButton> {
    let s0 = Seq::<JoypadButton>::empty();
    let s1 = if j.right { s0.push(JoypadButton::Right) } else { s0 };
    let s2 = if j.left { s1.push(JoypadButton::Left) } else { s1 };
    let s3 = if j.up { s2.push(JoypadButton::Up) } else { s2 };
    let s4 = if j.down { s3.push(JoypadButton::Down) } else { s3 };
    let s5 = if j.a { s4.push(JoypadButton::A) } else { s4 };
    let s6 = if j.b { s5.push(JoypadButton::B) } else { s5 };
    let s7 = if j.select { s6.push(JoypadButton::Select) } else { s6 };
    if j.start { s7.push(JoypadButton::Start) } else { s7 }
}

/// How the select bits of a freshly composed P1 value relate to the value it
/// was composed from: bits 4-5 carry over and bits 6-7 read as set.
proof fn lemma_p1_select_bits(from: u8, select_bits: u8, nibble: u8)
    requires
        select_bits == (from / 16) % 4,
        nibble < 16,
    ensures
        ((0xC0 + select_bits * 16 + nibble) / 16) % 4 == select_bits,
        ((0xC0 + select_bits * 16 + nibble) / 32) % 2 == (from / 32) % 2,
        ((0xC0 + select_bits * 16 + nibble) / 16) % 2 == (from / 16) % 2,
{
    assert(((0xC0 + select_bits * 16 + nibble) / 16) % 4 == select_bits && ((0xC0 + select_bits
        * 16 + nibble) / 32) % 2 == (from / 32) % 2 && ((0xC0 + select_bits * 16 + nibble) / 16) % 2
        == (from / 16) % 2) by (nonlinear_arith)
        requires
            select_bits == (from / 16) % 4,
            nibble < 16,
    ;
}

/// Writing P1 and reading it back returns the written select bits masked to
/// bits 4-5, ORed with the fixed bits 6-7 and the low nibble the selected
/// groups drive; with every button released the low nibble reads 0xF.
pub proof fn lemma_p1_write_then_read(j: Joypad, value: u8)
    requires
        !j.right && !j.left && !j.up && !j.down && !j.a && !j.b && !j.select && !j.start,
    ensures
        spec_p1_value(j, value) == 0xC0 + ((value / 16) % 4) * 16 + 0x0F,
{
}

} // verus!

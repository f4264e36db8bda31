use gbemu::joypad::{Joypad, JoypadButton};

#[test]
fn test_joypad_initial_state() {
    let joypad = Joypad::new();
    assert_eq!(joypad.read(), 0xCF);
    assert!(!joypad.interrupt_requested);
}

#[test]
fn test_press_release_button() {
    let mut joypad = Joypad::new();

    assert!(!joypad.is_pressed(JoypadButton::A));
    joypad.press(JoypadButton::A);
    assert!(joypad.is_pressed(JoypadButton::A));
    assert!(joypad.interrupt_requested);

    joypad.release(JoypadButton::A);
    assert!(!joypad.is_pressed(JoypadButton::A));
}

#[test]
fn test_direction_keys() {
    let mut joypad = Joypad::new();

    // Select the direction group (bit 5 low, bit 4 high); bits 6-7 read 1.
    joypad.write(0x10);
    assert_eq!(joypad.read(), 0xDF); // All released

    joypad.press(JoypadButton::Right);
    assert_eq!(joypad.read(), 0xDE); // Right pressed (bit 0 = 0)

    joypad.press(JoypadButton::Left);
    assert_eq!(joypad.read(), 0xDC); // Right + Left pressed

    joypad.press(JoypadButton::Up);
    assert_eq!(joypad.read(), 0xD8); // Right + Left + Up pressed

    joypad.press(JoypadButton::Down);
    assert_eq!(joypad.read(), 0xD0); // All directions pressed
}

#[test]
fn test_button_keys() {
    let mut joypad = Joypad::new();

    // Select the action-button group (bit 4 low, bit 5 high).
    joypad.write(0x20);
    assert_eq!(joypad.read(), 0xEF); // All released

    joypad.press(JoypadButton::A);
    assert_eq!(joypad.read(), 0xEE); // A pressed (bit 0 = 0)

    joypad.press(JoypadButton::B);
    assert_eq!(joypad.read(), 0xEC); // A + B pressed

    joypad.press(JoypadButton::Select);
    assert_eq!(joypad.read(), 0xE8); // A + B + Select pressed

    joypad.press(JoypadButton::Start);
    assert_eq!(joypad.read(), 0xE0); // All buttons pressed
}

#[test]
fn test_get_pressed_buttons() {
    let mut joypad = Joypad::new();

    assert_eq!(joypad.get_pressed_buttons().len(), 0);

    joypad.press(JoypadButton::A);
    joypad.press(JoypadButton::Start);

    let pressed = joypad.get_pressed_buttons();
    assert_eq!(pressed.len(), 2);
    assert!(pressed.contains(&JoypadButton::A));
    assert!(pressed.contains(&JoypadButton::Start));
}

#[test]
fn test_group_select_scenario() {
    // Write 0x20 (select buttons), press A, read 0xEE; then select the
    // directions and A is no longer visible.
    let mut joypad = Joypad::new();
    joypad.write(0x20);
    joypad.press(JoypadButton::A);
    assert_eq!(joypad.read(), 0xEE);
    joypad.write(0x10);
    assert_eq!(joypad.read(), 0xDF);
}

#[test]
fn test_press_interrupt_only_when_group_selected() {
    let mut joypad = Joypad::new();
    joypad.write(0x20); // buttons selected, directions not
    joypad.press(JoypadButton::Up);
    assert!(!joypad.interrupt_requested);
    joypad.press(JoypadButton::Start);
    assert!(joypad.interrupt_requested);
}

#[test]
fn test_press_interrupt_needs_transition() {
    let mut joypad = Joypad::new();
    joypad.press(JoypadButton::B);
    assert!(joypad.interrupt_requested);
    joypad.clear_interrupt();
    joypad.press(JoypadButton::B); // already pressed: no new transition
    assert!(!joypad.interrupt_requested);
}

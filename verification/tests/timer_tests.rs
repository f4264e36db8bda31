use gbemu::timer::Timer;

#[test]
fn test_div_increment() {
    let mut timer = Timer::new();
    timer.tick(256);
    assert_eq!(timer.read(0xFF04), 1);

    timer.tick(256);
    assert_eq!(timer.read(0xFF04), 2);
}

#[test]
fn test_div_reset() {
    let mut timer = Timer::new();
    timer.tick(512);
    assert_eq!(timer.read(0xFF04), 2);

    timer.write(0xFF04, 0xFF); // Writing any value resets DIV
    assert_eq!(timer.read(0xFF04), 0);
}

#[test]
fn test_tima_increment() {
    let mut timer = Timer::new();
    timer.write(0xFF07, 0x05); // Enable timer, 262144 Hz (16 cycles)
    timer.write(0xFF05, 0);

    timer.tick(16);
    assert_eq!(timer.read(0xFF05), 1);

    timer.tick(16);
    assert_eq!(timer.read(0xFF05), 2);
}

#[test]
fn test_tima_overflow() {
    // The overflow leaves TIMA at 0x00 for four T-cycles; only then is TMA
    // loaded and the interrupt latch raised.
    let mut timer = Timer::new();
    timer.write(0xFF07, 0x05); // Enable timer
    timer.write(0xFF05, 0xFF);
    timer.write(0xFF06, 0x42); // TMA value

    timer.tick(16);
    assert_eq!(timer.read(0xFF05), 0x00);
    assert!(!timer.interrupt_pending);

    timer.tick(4);
    assert_eq!(timer.read(0xFF05), 0x42);
    assert!(timer.interrupt_pending);
}

#[test]
fn test_timer_disabled() {
    let mut timer = Timer::new();
    timer.write(0xFF07, 0x00); // Timer disabled
    timer.write(0xFF05, 0);

    timer.tick(1000);
    assert_eq!(timer.read(0xFF05), 0); // TIMA should not increment
}

#[test]
fn test_tima_write_cancels_reload() {
    let mut timer = Timer::new();
    timer.write(0xFF07, 0x05);
    timer.write(0xFF05, 0xFF);
    timer.write(0xFF06, 0x42);
    timer.tick(16); // overflow: reload delay running
    timer.write(0xFF05, 0x10); // cancels the pending reload
    timer.tick(4);
    assert_eq!(timer.read(0xFF05), 0x10);
    assert!(!timer.interrupt_pending);
}

#[test]
fn test_tac_reads_with_upper_bits() {
    let mut timer = Timer::new();
    timer.write(0xFF07, 0x05);
    assert_eq!(timer.read(0xFF07), 0xF8 | 0x05);
    timer.write(0xFF06, 0x9A);
    assert_eq!(timer.read(0xFF06), 0x9A);
}

#[test]
fn test_div_write_can_tick_tima() {
    // Zeroing the counter while the selected bit is high is itself a
    // falling edge.
    let mut timer = Timer::new();
    timer.write(0xFF07, 0x05); // bit 3 selected
    timer.tick(8); // counter = 8: bit 3 high
    timer.write(0xFF04, 0);
    assert_eq!(timer.read(0xFF05), 1);
}

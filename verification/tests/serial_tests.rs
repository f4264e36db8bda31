use gbemu::serial::Serial;

#[test]
fn test_serial_transfer() {
    let mut serial = Serial::new();

    // Write data to SB
    serial.write(0xFF01, 0x42);
    assert_eq!(serial.read(0xFF01), 0x42);

    // Start a transfer by setting bit 7 of SC: the byte is captured, the
    // start bit stays set, and no interrupt is raised.
    serial.write(0xFF02, 0x81);

    assert_eq!(serial.read(0xFF01), 0x42);
    assert_eq!(serial.read(0xFF02) & 0x80, 0x80);
    assert!(!serial.interrupt_pending);
    assert_eq!(serial.output_buffer.len(), 1);
    assert_eq!(serial.output_buffer[0], 0x42);
}

#[test]
fn test_get_output() {
    let mut serial = Serial::new();

    serial.write(0xFF01, b'H');
    serial.write(0xFF02, 0x81);

    serial.write(0xFF01, b'i');
    serial.write(0xFF02, 0x81);

    assert_eq!(serial.get_output(), Some(b'H'));
    assert_eq!(serial.get_output(), Some(b'i'));
    assert_eq!(serial.get_output(), None);
}

#[test]
fn test_output_string() {
    let mut serial = Serial::new();

    for &byte in b"Hello" {
        serial.write(0xFF01, byte);
        serial.write(0xFF02, 0x81);
    }

    assert_eq!(serial.get_output_string(), "Hello");
}

#[test]
fn test_idle_bytes_not_captured() {
    let mut serial = Serial::new();
    serial.write(0xFF01, 0x00);
    serial.write(0xFF02, 0x81);
    serial.write(0xFF01, 0x55);
    serial.write(0xFF02, 0x81);
    serial.write(0xFF01, 0x41);
    serial.write(0xFF02, 0x81);
    assert_eq!(serial.output_buffer, vec![0x41]);
}

#[test]
fn test_sc_write_mask_round_trip() {
    let mut serial = Serial::new();
    serial.write(0xFF02, 0x7F); // only bit 0 of this value is writable
    assert_eq!(serial.read(0xFF02), 0x7F);
    serial.write(0xFF01, 0xAB);
    assert_eq!(serial.read(0xFF01), 0xAB);
}

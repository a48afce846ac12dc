use yorunix::kernel::drivers::serial::{
    init, init_loopback, write_byte, write_str, PortWrite, COM1,
};

#[test]
fn serial_init_program() {
    let w = init();
    let expected: Vec<(u16, u8)> = vec![
        (0x3F9, 0x00),
        (0x3FB, 0x80),
        (0x3F8, 0x03),
        (0x3F9, 0x00),
        (0x3FB, 0x03),
        (0x3FA, 0xC7),
        (0x3FC, 0x0B),
        (0x3FC, 0x1E),
        (0x3F8, 0xAE),
    ];
    let got: Vec<(u16, u8)> = w.iter().map(|p| (p.port, p.value)).collect();
    assert_eq!(got, expected);
}

#[test]
fn serial_loopback_decision() {
    assert_eq!(
        init_loopback(0xAE),
        Some(PortWrite {
            port: 0x3FC,
            value: 0x0F
        })
    );
    assert_eq!(init_loopback(0xAF), None);
    assert_eq!(init_loopback(0x00), None);
}

#[test]
fn serial_write_byte_waits_for_empty_holding_register() {
    assert_eq!(write_byte(0x00, b'a'), None);
    assert_eq!(write_byte(0xDF, b'a'), None);
    assert_eq!(
        write_byte(0x20, b'a'),
        Some(PortWrite {
            port: COM1,
            value: b'a'
        })
    );
    assert_eq!(
        write_byte(0xFF, b'z'),
        Some(PortWrite {
            port: 0x3F8,
            value: b'z'
        })
    );
}

#[test]
fn serial_write_str_sends_in_order_when_ready() {
    let mut tx = write_str("OK\r\n");
    let mut sent = Vec::new();
    let statuses = [0x00u8, 0x20, 0x01, 0x20, 0x60, 0x00, 0x20, 0x20, 0x20];
    for st in statuses {
        if let Some(w) = tx.on_line_status(st) {
            assert_eq!(w.port, COM1);
            sent.push(w.value);
        }
    }
    assert!(tx.is_done());
    assert_eq!(sent, b"OK\r\n");
    assert_eq!(tx.on_line_status(0x20), None);
}

#[test]
fn serial_empty_text_is_done() {
    let tx = write_str("");
    assert!(tx.is_done());
}

use kurogane_os::serial::{SerialPort, _print};

#[test]
fn serial_port_initializes_once_then_writes() {
    let mut port = SerialPort::new(0x3f8);
    assert_eq!(port.base(), 0x3f8);
    assert!(!port.is_initialized());
    port.init();
    assert!(port.is_initialized());
    _print(&mut port, "serial output\n");
    port.write_bytes(b"more bytes");
    assert!(port.is_initialized());
    assert_eq!(port.base(), 0x3f8);
}

use serial_session::port::{
    classify, list_from_enumeration, PortHandle, RawErrorKind, RawRead, ReadOutcome,
};
use serial_session::session::{ReadError, SessionManager};
use serial_session::{BAUD_RATE, READ_TIMEOUT_MS};

use serialport::SerialPort;

/// A pseudoterminal pair whose slave end stands in for a serial device; the
/// master end stays alive so the slave can be opened by name.
fn pty_device() -> (serialport::TTYPort, String) {
    let (master, slave) = serialport::TTYPort::pair().expect("pseudoterminal pair");
    let name = slave.name().expect("slave device name");
    drop(slave);
    (master, name)
}

#[test]
fn new_session_is_closed() {
    let mut m = SessionManager::new();
    assert!(!m.is_session_open());
    assert!(!m.close());
    assert!(matches!(m.read(), Err(ReadError::NotOpen)));
    assert!(!m.is_session_open());
}

#[test]
fn open_on_missing_device_fails() {
    let mut m = SessionManager::new();
    assert!(!m.open("/dev/this-device-does-not-exist"));
    assert!(!m.is_session_open());
    assert!(!m.close());
}

#[test]
fn port_handle_open_reports_detail() {
    let r = PortHandle::open("/dev/this-device-does-not-exist", BAUD_RATE, READ_TIMEOUT_MS);
    assert!(r.is_err());
}

#[test]
fn open_gives_exclusive_session() {
    let (_master, name) = pty_device();
    let mut m = SessionManager::new();
    assert!(m.open(&name));
    assert!(m.is_session_open());
    assert!(!m.open(&name));
    assert!(m.is_session_open());
    assert!(m.close());
}

#[test]
fn close_twice_yields_true_then_false() {
    let (_master, name) = pty_device();
    let mut m = SessionManager::new();
    assert!(m.open(&name));
    assert!(m.close());
    assert!(!m.close());
}

#[test]
fn open_close_open_cycle() {
    let (_master, name) = pty_device();
    let mut m = SessionManager::new();
    assert!(m.open(&name));
    assert!(m.close());
    assert!(m.open(&name));
    assert!(m.is_session_open());
    assert!(m.close());
}

#[test]
fn read_timeout_is_empty_success() {
    let (_master, name) = pty_device();
    let mut m = SessionManager::new();
    assert!(m.open(&name));
    match m.read() {
        Ok(s) => assert_eq!(s, ""),
        Err(e) => panic!("timeout must not be an error: {:?}", e),
    }
    assert!(m.is_session_open());
    assert!(m.close());
}

#[test]
fn read_returns_written_data() {
    let (mut master, name) = pty_device();
    let mut m = SessionManager::new();
    assert!(m.open(&name));
    std::io::Write::write_all(&mut master, b"hello").expect("write to master end");
    let mut text = String::new();
    for _ in 0..100 {
        match m.read() {
            Ok(s) => text.push_str(&s),
            Err(e) => panic!("read failed: {:?}", e),
        }
        if !text.is_empty() {
            break;
        }
    }
    assert_eq!(text, "hello");
    assert!(m.close());
}

#[test]
fn settle_timeout_outcome() {
    let mut m = SessionManager::new();
    let r = m.settle_read(ReadOutcome::TimedOut, Vec::new());
    match r {
        Ok(s) => assert_eq!(s, ""),
        Err(e) => panic!("timeout must not be an error: {:?}", e),
    }
}

#[test]
fn settle_data_outcome_decodes_text() {
    let mut m = SessionManager::new();
    let mut buf = b"hi there".to_vec();
    buf.extend_from_slice(&[0u8; 8]);
    let r = m.settle_read(ReadOutcome::Data(2), buf);
    match r {
        Ok(s) => assert_eq!(s, "hi"),
        Err(e) => panic!("valid bytes must decode: {:?}", e),
    }
}

#[test]
fn settle_data_outcome_rejects_invalid_utf8() {
    let mut m = SessionManager::new();
    let buf = vec![0xffu8, 0xfe, 0x80, 0x00];
    let r = m.settle_read(ReadOutcome::Data(3), buf);
    assert!(matches!(r, Err(ReadError::DecodeFailure)));
}

#[test]
fn settle_io_failure_keeps_session_open() {
    let (_master, name) = pty_device();
    let mut m = SessionManager::new();
    assert!(m.open(&name));
    let r = m.settle_read(ReadOutcome::IoFailure(String::from("interrupted")), Vec::new());
    match r {
        Err(ReadError::ReadFailure(detail)) => assert_eq!(detail, "interrupted"),
        other => panic!("expected a read failure, got {:?}", other),
    }
    assert!(m.is_session_open());
    assert!(m.close());
}

#[test]
fn disconnect_heals_session_state() {
    let (_master, name) = pty_device();
    let mut m = SessionManager::new();
    assert!(m.open(&name));
    let r = m.settle_read(ReadOutcome::Disconnected, Vec::new());
    assert!(matches!(r, Err(ReadError::PortDisconnected)));
    assert!(!m.is_session_open());
    assert!(matches!(m.read(), Err(ReadError::NotOpen)));
    assert!(m.open(&name));
    assert!(m.close());
}

#[test]
fn scenario_session_lifecycle() {
    let (_master, name) = pty_device();
    let mut m = SessionManager::new();
    assert!(m.open(&name));
    assert!(!m.open(&name));
    match m.settle_read(ReadOutcome::TimedOut, Vec::new()) {
        Ok(s) => assert_eq!(s, ""),
        Err(e) => panic!("timeout must not be an error: {:?}", e),
    }
    let r = m.settle_read(ReadOutcome::Disconnected, Vec::new());
    assert!(matches!(r, Err(ReadError::PortDisconnected)));
    assert!(!m.close());
}

#[test]
fn classify_recognizes_timeout_first() {
    let raw = RawRead::Failed(RawErrorKind::TimedOut, Some(22), String::from("timed out"));
    assert!(matches!(classify(raw), ReadOutcome::TimedOut));
}

#[test]
fn classify_recognizes_disconnect_by_kind() {
    let raw = RawRead::Failed(RawErrorKind::NotConnected, None, String::from("gone"));
    assert!(matches!(classify(raw), ReadOutcome::Disconnected));
}

#[test]
fn classify_recognizes_disconnect_by_os_code() {
    let raw = RawRead::Failed(RawErrorKind::Other, Some(22), String::from("invalid"));
    assert!(matches!(classify(raw), ReadOutcome::Disconnected));
}

#[test]
fn classify_passes_other_errors_through() {
    let raw = RawRead::Failed(RawErrorKind::Other, Some(5), String::from("io trouble"));
    match classify(raw) {
        ReadOutcome::IoFailure(msg) => assert_eq!(msg, "io trouble"),
        other => panic!("expected an I/O failure, got {:?}", other),
    }
}

#[test]
fn classify_passes_data_through() {
    assert!(matches!(classify(RawRead::Got(7)), ReadOutcome::Data(7)));
}

#[test]
fn settle_data_outcome_empty_only_without_bytes() {
    let mut m = SessionManager::new();
    match m.settle_read(ReadOutcome::Data(0), Vec::new()) {
        Ok(s) => assert_eq!(s, ""),
        Err(e) => panic!("zero bytes must decode to empty text: {:?}", e),
    }
    match m.settle_read(ReadOutcome::Data(1), b"x".to_vec()) {
        Ok(s) => assert_eq!(s, "x"),
        Err(e) => panic!("one valid byte must decode: {:?}", e),
    }
}

#[test]
fn list_from_enumeration_passes_names_through() {
    let names = list_from_enumeration(Ok(vec![
        String::from("/dev/ttyUSB0"),
        String::from("/dev/ttyACM0"),
    ]));
    assert_eq!(names, vec!["/dev/ttyUSB0", "/dev/ttyACM0"]);
}

#[test]
fn list_from_enumeration_swallows_failure() {
    let names = list_from_enumeration(Err(String::from("device tree unreadable")));
    assert!(names.is_empty());
}

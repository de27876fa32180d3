//! The handle over one open serial device, and the port-list defaulting.
//!
//! `PortHandle` owns one OS serial device, opened exclusively at a fixed baud
//! rate and read timeout. Its read protocol classifies each raw read result
//! into one of four outcomes: data arrived, the wait timed out, the device is
//! gone, or some other I/O error occurred. The classification itself is
//! verified; only the calls into the `serialport` crate are trusted.

use vstd::prelude::*;

verus! {

/// OS error code that signals a vanished device on a read, beside the
/// explicit "not connected" error kind.
pub const DISCONNECT_OS_ERROR: i32 = 22;

/// The error kinds of a raw device read that the read protocol tells apart.
#[derive(Debug)]
pub enum RawErrorKind {
    /// No data arrived within the configured timeout.
    TimedOut,
    /// The OS reported the device as no longer connected.
    NotConnected,
    /// Any other I/O error kind.
    Other,
}

/// What one raw read attempt on the device produced: a byte count, or an
/// error described by its kind, its raw OS error code, and its text.
#[derive(Debug)]
pub enum RawRead {
    Got(usize),
    Failed(RawErrorKind, Option<i32>, String),
}

/// The outcome of one bounded read attempt, after classification.
#[derive(Debug)]
pub enum ReadOutcome {
    /// This many bytes were read and placed at the start of the buffer.
    Data(usize),
    /// No bytes arrived within the timeout; not an error condition.
    TimedOut,
    /// The device is no longer reachable.
    Disconnected,
    /// Any other I/O error, with a description; transient and reportable.
    IoFailure(String),
}

/// How a raw read result is classified into a read outcome: a timeout is
/// recognized first; then a disconnection, by the "not connected" error kind
/// or by the disconnect OS error code; every other error is a plain I/O
/// failure carrying its description.
pub open spec fn classify_spec(raw: RawRead) -> ReadOutcome {
    match raw {
        RawRead::Got(n) => ReadOutcome::Data(n),
        RawRead::Failed(kind, os_code, msg) => if kind is TimedOut {
            ReadOutcome::TimedOut
        } else if kind is NotConnected || os_code == Some(DISCONNECT_OS_ERROR) {
            ReadOutcome::Disconnected
        } else {
            ReadOutcome::IoFailure(msg)
        },
    }
}

/// Classifies one raw read result, exactly as `classify_spec` says.
pub fn classify(raw: RawRead) -> (outcome: ReadOutcome)
    ensures
        outcome == classify_spec(raw),
{
    match raw {
        RawRead::Got(n) => ReadOutcome::Data(n),
        RawRead::Failed(kind, os_code, msg) => {
            match kind {
                RawErrorKind::TimedOut => ReadOutcome::TimedOut,
                RawErrorKind::NotConnected => ReadOutcome::Disconnected,
                RawErrorKind::Other => {
                    let disconnected = match os_code {
                        Some(code) => code == DISCONNECT_OS_ERROR,
                        None => false,
                    };
                    if disconnected {
                        ReadOutcome::Disconnected
                    } else {
                        ReadOutcome::IoFailure(msg)
                    }
                },
            }
        },
    }
}

#[verifier::external_type_specification]
#[verifier::external_body]
pub struct ExTTYPort(serialport::TTYPort);

/// Relies on `serialport::new(name, baud).timeout(..).open_native()`: claims
/// the named device exclusively at the given baud rate and read timeout, or
/// reports the error description when the device cannot be claimed.
#[verifier::external_body]
fn open_device(name: &str, baud: u32, timeout_ms: u64) -> (r: Result<serialport::TTYPort, String>)
{
    let builder = serialport::new(name, baud)
        .timeout(std::time::Duration::from_millis(timeout_ms));
    match builder.open_native() {
        Ok(dev) => Ok(dev),
        Err(e) => Err(e.description),
    }
}

/// Relies on the `std::io::Read` impl of `serialport::TTYPort`: reads at most
/// `buf.len()` bytes into the front of `buf` (the slice's length cannot
/// change), or returns an error whose kind, raw OS code and text are handed
/// back as plain values, each error kind mapped to its own arm.
#[verifier::external_body]
fn read_device(dev: &mut serialport::TTYPort, buf: &mut Vec<u8>) -> (r: RawRead)
    ensures
        final(buf)@.len() == old(buf)@.len(),
        r matches RawRead::Got(n) ==> n <= final(buf)@.len(),
{
    match std::io::Read::read(dev, buf.as_mut_slice()) {
        Ok(n) => RawRead::Got(n),
        Err(e) => RawRead::Failed(
            match e.kind() {
                std::io::ErrorKind::TimedOut => RawErrorKind::TimedOut,
                std::io::ErrorKind::NotConnected => RawErrorKind::NotConnected,
                _ => RawErrorKind::Other,
            },
            e.raw_os_error(),
            format!("{}", e),
        ),
    }
}

/// Why a device could not be claimed; kept for diagnostics even though the
/// session interface reports an open failure only as a boolean.
pub struct OpenError {
    detail: String,
}

impl View for OpenError {
    type V = Seq<char>;

    closed spec fn view(&self) -> Seq<char> {
        self.detail@
    }
}

impl OpenError {
    /// The error description, as the OS or the serial layer reported it.
    pub fn detail(&self) -> (s: &str)
        ensures
            s@ == self@,
    {
        self.detail.as_str()
    }
}

/// Exclusive ownership of one open OS serial device.
pub struct PortHandle {
    dev: serialport::TTYPort,
}

impl PortHandle {
    /// Claims the named device at the given baud rate and read timeout.
    /// Whether this succeeds depends on the device alone (present, free,
    /// permitted); nothing more can be promised of the outcome.
    pub fn open(name: &str, baud: u32, timeout_ms: u64) -> (r: Result<PortHandle, OpenError>) {
        match open_device(name, baud, timeout_ms) {
            Ok(dev) => Ok(PortHandle { dev }),
            Err(detail) => Err(OpenError { detail }),
        }
    }

    /// One bounded read attempt: at most `buf.len()` bytes are placed at the
    /// start of `buf`, and the raw result is classified into a `ReadOutcome`
    /// exactly as `classify_spec` says.
    pub fn read_into(&mut self, buf: &mut Vec<u8>) -> (outcome: ReadOutcome)
        ensures
            final(buf)@.len() == old(buf)@.len(),
            outcome matches ReadOutcome::Data(n) ==> n <= final(buf)@.len(),
    {
        let raw = read_device(&mut self.dev, buf);
        classify(raw)
    }
}

/// The port list the session interface reports for one enumeration outcome:
/// the names that were found, or the empty list when enumeration failed.
/// The failure detail reaches this point for diagnostics but is swallowed
/// here, favoring availability of a port picker over error detail. The
/// enumeration itself reads the OS device tree, so it stays with the host,
/// which hands its outcome in as plain values.
pub fn list_from_enumeration(found: Result<Vec<String>, String>) -> (names: Vec<String>)
    ensures
        match found {
            Ok(ports) => names@ == ports@,
            Err(_) => names@.len() == 0,
        },
{
    match found {
        Ok(ports) => ports,
        Err(_) => Vec::new(),
    }
}

} // verus!

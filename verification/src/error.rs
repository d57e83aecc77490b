//! The error type shared by every transport operation.
use vstd::prelude::*;

verus! {

/// The operating-system error type that socket and device operations report.
#[verifier::external_type_specification]
#[verifier::external_body]
pub struct ExIoError(std::io::Error);

/// The error type of the `serialport` crate. Its fields, `kind` and
/// `description`, are public, so the verifier reads them.
#[verifier::external_type_specification]
pub struct ExSerialError(serialport::Error);

/// The `serialport` crate's classification of its errors.
#[verifier::external_type_specification]
pub struct ExSerialErrorKind(serialport::ErrorKind);

/// The standard library's classification of I/O errors.
#[verifier::external_type_specification]
#[verifier::external_body]
pub struct ExIoErrorKind(std::io::ErrorKind);

/// What kind of failure the serial-port driver reported.
#[derive(Debug, Clone, Copy, PartialEq, Eq)]
pub enum SerialErrorKind {
    /// The device is missing or busy.
    NoDevice,
    /// A parameter was refused.
    InvalidInput,
    /// The driver could not tell.
    Unknown,
    /// An operating-system I/O failure of this kind.
    Io(std::io::ErrorKind),
}

/// A failure reported by the serial-port driver: its kind and the
/// description meant for end users.
#[derive(Debug, Clone)]
pub struct SerialError {
    pub kind: SerialErrorKind,
    pub description: String,
}

/// The kind of the library that stands for a `serialport` error kind.
pub open spec fn serial_kind_of(k: serialport::ErrorKind) -> SerialErrorKind {
    match k {
        serialport::ErrorKind::NoDevice => SerialErrorKind::NoDevice,
        serialport::ErrorKind::InvalidInput => SerialErrorKind::InvalidInput,
        serialport::ErrorKind::Unknown => SerialErrorKind::Unknown,
        serialport::ErrorKind::Io(io) => SerialErrorKind::Io(io),
    }
}

/// The library's copy of a `serialport` error: the same kind and the same
/// description.
pub open spec fn serial_error_of(e: serialport::Error) -> SerialError {
    SerialError { kind: serial_kind_of(e.kind), description: e.description }
}

/// Every failure a transport operation can report.
#[derive(Debug)]
pub enum TransportError {
    /// An operating-system I/O failure.
    Io(std::io::Error),
    /// A failure reported by the serial-port driver.
    Serial(SerialError),
    /// The configuration is invalid or does not fit the transport.
    Config(String),
    /// A connection could not be established or used.
    ConnectionFailed(String),
}

/// The text that `Display` of `std::io::Error` produces.
///
/// Calls `ToString::to_string` on the error. Nothing is stated of the text:
/// for errors that come from the operating system it depends on the platform.
#[verifier::external_body]
pub(crate) fn io_error_text(e: &std::io::Error) -> String {
    e.to_string()
}

/// Whether `d` is a text that `io_error_text` may give back for `e`: the
/// error's own `Display`, of which nothing more is stated.
pub closed spec fn io_error_reply(e: std::io::Error, d: String) -> bool {
    call_ensures(io_error_text, (&e,), d)
}

/// The user-facing text of a configuration error with detail `detail`.
pub open spec fn config_error_text(detail: Seq<char>) -> Seq<char> {
    "Invalid configuration: "@ + detail
}

/// The user-facing text of a connection failure with detail `detail`.
pub open spec fn connection_failed_text(detail: Seq<char>) -> Seq<char> {
    "Connection failed: "@ + detail
}

impl TransportError {
    /// Whether `text` is the user-facing text of the error: the prefix that
    /// names the kind, then the detail. The detail of `Io` is the operating
    /// system's text, of which nothing is stated.
    pub open spec fn describes(&self, text: Seq<char>) -> bool {
        match *self {
            TransportError::Io(_) => text.len() >= 10 && text.take(10) == "IO error: "@,
            TransportError::Serial(e) => text == "Serial port error: "@ + e.description@,
            TransportError::Config(m) => text == config_error_text(m@),
            TransportError::ConnectionFailed(m) => text == connection_failed_text(m@),
        }
    }
    /// The user-facing text of the error: a prefix that names its kind,
    /// followed by the detail it carries.
    pub fn to_string(&self) -> (text: String)
        ensures
            self.describes(text@),
            *self matches TransportError::Io(e) ==> exists|d: String|
                io_error_reply(e, d) && text@ == "IO error: "@ + d@,
    {
        proof {
            reveal_strlit("IO error: ");
        }
        match self {
            TransportError::Io(e) => {
                let prefix = String::from_str("IO error: ");
                let detail = io_error_text(e);
                let text = prefix.concat(detail.as_str());
                assert(text@.take(10) =~= "IO error: "@);
                assert(io_error_reply(*e, detail));
                assert(text@ == "IO error: "@ + detail@);
                text
            },
            TransportError::Serial(e) => String::from_str("Serial port error: ").concat(
                e.description.as_str(),
            ),
            TransportError::Config(m) => String::from_str("Invalid configuration: ").concat(m.as_str()),
            TransportError::ConnectionFailed(m) => String::from_str("Connection failed: ").concat(
                m.as_str(),
            ),
        }
    }
}

impl From<std::io::Error> for TransportError {
    fn from(e: std::io::Error) -> (r: TransportError) {
        TransportError::Io(e)
    }
}

impl vstd::std_specs::convert::FromSpecImpl<std::io::Error> for TransportError {
    open spec fn obeys_from_spec() -> bool {
        true
    }

    open spec fn from_spec(v: std::io::Error) -> TransportError {
        TransportError::Io(v)
    }
}

impl From<serialport::Error> for TransportError {
    fn from(e: serialport::Error) -> (r: TransportError) {
        let kind = match e.kind {
            serialport::ErrorKind::NoDevice => SerialErrorKind::NoDevice,
            serialport::ErrorKind::InvalidInput => SerialErrorKind::InvalidInput,
            serialport::ErrorKind::Unknown => SerialErrorKind::Unknown,
            serialport::ErrorKind::Io(io) => SerialErrorKind::Io(io),
        };
        TransportError::Serial(SerialError { kind, description: e.description })
    }
}

impl vstd::std_specs::convert::FromSpecImpl<serialport::Error> for TransportError {
    open spec fn obeys_from_spec() -> bool {
        true
    }

    open spec fn from_spec(v: serialport::Error) -> TransportError {
        TransportError::Serial(serial_error_of(v))
    }
}

} // verus!

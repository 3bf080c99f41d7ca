//! Protocol errors and their mapping to reply codes and I/O error values.

use vstd::prelude::*;
use vstd::string::StringExecFns;

use crate::reply::Reply;
use crate::text::spec_decimal;
use crate::text::u8_string;

verus! {

/// The kind of an operating-system I/O error, mirrored as plain data so the
/// classification rules can be stated and checked.  The embedding executable
/// converts from and to `std::io::ErrorKind`; a kind it does not recognise
/// becomes `Other`.
#[derive(Debug, Clone, Copy, PartialEq, Eq, Structural)]
pub enum IoErrorKind {
    NotFound,
    PermissionDenied,
    ConnectionRefused,
    ConnectionReset,
    ConnectionAborted,
    NotConnected,
    AddrInUse,
    AddrNotAvailable,
    NetworkUnreachable,
    HostUnreachable,
    BrokenPipe,
    AlreadyExists,
    WouldBlock,
    InvalidInput,
    InvalidData,
    TimedOut,
    WriteZero,
    Interrupted,
    Unsupported,
    UnexpectedEof,
    OutOfMemory,
    Other,
}

/// Everything that can go wrong while serving one connection's request
/// exchange.
#[derive(Debug, Clone, PartialEq, Eq, Structural)]
pub enum SocksError {
    InvalidVersion(u8),
    InvalidReservedByte(u8),
    UnsupportedAddressType(u8),
    UnsupportedCommand(u8),
    EmptyDomainName,
    InvalidDomainNameEncoding,
    DnsResolutionFailed,
    NoAddressesResolved,
    ConnectionFailed(IoErrorKind),
    InvalidData,
    IoError(IoErrorKind),
}

/// A plain-data stand-in for `std::io::Error`: the kind plus a message.
#[derive(Debug, Clone)]
pub struct IoErrorData {
    pub kind: IoErrorKind,
    pub message: String,
}

/// The reply code for a failure to open the outbound connection, by the
/// kind of the system error.
pub open spec fn spec_connect_error_reply_code(kind: IoErrorKind) -> u8 {
    match kind {
        IoErrorKind::ConnectionRefused => 0x05,
        IoErrorKind::TimedOut => 0x04,
        IoErrorKind::AddrNotAvailable => 0x04,
        IoErrorKind::NetworkUnreachable => 0x03,
        IoErrorKind::PermissionDenied => 0x02,
        _ => 0x01,
    }
}

impl SocksError {
    /// The reply code that reports this error to the client.
    pub open spec fn spec_reply_code(self) -> u8 {
        match self {
            SocksError::InvalidVersion(_) => 0x01,
            SocksError::InvalidReservedByte(_) => 0x01,
            SocksError::UnsupportedAddressType(_) => 0x08,
            SocksError::UnsupportedCommand(_) => 0x07,
            SocksError::EmptyDomainName => 0x01,
            SocksError::InvalidDomainNameEncoding => 0x01,
            SocksError::DnsResolutionFailed => 0x04,
            SocksError::NoAddressesResolved => 0x04,
            SocksError::ConnectionFailed(kind) => spec_connect_error_reply_code(kind),
            SocksError::InvalidData => 0x01,
            SocksError::IoError(_) => 0x01,
        }
    }

    pub fn to_reply_code(&self) -> (code: u8)
        ensures
            code == self.spec_reply_code(),
            code <= 0x08,
    {
        match self {
            SocksError::InvalidVersion(_) => Reply::GENERAL_FAILURE,
            SocksError::InvalidReservedByte(_) => Reply::GENERAL_FAILURE,
            SocksError::UnsupportedAddressType(_) => Reply::ADDRESS_TYPE_NOT_SUPPORTED,
            SocksError::UnsupportedCommand(_) => Reply::COMMAND_NOT_SUPPORTED,
            SocksError::EmptyDomainName => Reply::GENERAL_FAILURE,
            SocksError::InvalidDomainNameEncoding => Reply::GENERAL_FAILURE,
            SocksError::DnsResolutionFailed => Reply::HOST_UNREACHABLE,
            SocksError::NoAddressesResolved => Reply::HOST_UNREACHABLE,
            SocksError::ConnectionFailed(kind) => match kind {
                IoErrorKind::ConnectionRefused => Reply::CONNECTION_REFUSED,
                IoErrorKind::TimedOut => Reply::HOST_UNREACHABLE,
                IoErrorKind::AddrNotAvailable => Reply::HOST_UNREACHABLE,
                IoErrorKind::NetworkUnreachable => Reply::NETWORK_UNREACHABLE,
                IoErrorKind::PermissionDenied => Reply::CONNECTION_NOT_ALLOWED,
                _ => Reply::GENERAL_FAILURE,
            },
            SocksError::InvalidData => Reply::GENERAL_FAILURE,
            SocksError::IoError(_) => Reply::GENERAL_FAILURE,
        }
    }

    /// The kind of the I/O error value this error converts to.
    pub open spec fn spec_io_error_kind(self) -> IoErrorKind {
        match self {
            SocksError::DnsResolutionFailed => IoErrorKind::Other,
            SocksError::NoAddressesResolved => IoErrorKind::Other,
            SocksError::ConnectionFailed(kind) => kind,
            SocksError::IoError(kind) => kind,
            _ => IoErrorKind::InvalidData,
        }
    }

    /// The message of the I/O error value this error converts to.
    pub open spec fn spec_io_error_message(self) -> Seq<char> {
        match self {
            SocksError::InvalidVersion(v) => "Invalid SOCKS version: "@ + spec_decimal(v as nat),
            SocksError::InvalidReservedByte(b) => "Invalid reserved byte: "@ + spec_decimal(
                b as nat,
            ),
            SocksError::UnsupportedAddressType(t) => "Unsupported address type: "@ + spec_decimal(
                t as nat,
            ),
            SocksError::UnsupportedCommand(c) => "Unsupported command: "@ + spec_decimal(c as nat),
            SocksError::EmptyDomainName => "Empty domain name"@,
            SocksError::InvalidDomainNameEncoding => "Invalid domain name encoding"@,
            SocksError::DnsResolutionFailed => "DNS resolution failed"@,
            SocksError::NoAddressesResolved => "No addresses resolved for domain"@,
            SocksError::ConnectionFailed(_) => "Connection failed"@,
            SocksError::InvalidData => "Invalid data"@,
            SocksError::IoError(_) => "IO error"@,
        }
    }

    /// The I/O error this protocol error surfaces as, kind and message.
    pub fn to_io_error(&self) -> (err: IoErrorData)
        ensures
            err.kind == self.spec_io_error_kind(),
            err.message@ == self.spec_io_error_message(),
    {
        match self {
            SocksError::InvalidVersion(v) => {
                let mut message = String::from_str("Invalid SOCKS version: ");
                message.append(u8_string(*v).as_str());
                IoErrorData { kind: IoErrorKind::InvalidData, message }
            },
            SocksError::InvalidReservedByte(b) => {
                let mut message = String::from_str("Invalid reserved byte: ");
                message.append(u8_string(*b).as_str());
                IoErrorData { kind: IoErrorKind::InvalidData, message }
            },
            SocksError::UnsupportedAddressType(t) => {
                let mut message = String::from_str("Unsupported address type: ");
                message.append(u8_string(*t).as_str());
                IoErrorData { kind: IoErrorKind::InvalidData, message }
            },
            SocksError::UnsupportedCommand(c) => {
                let mut message = String::from_str("Unsupported command: ");
                message.append(u8_string(*c).as_str());
                IoErrorData { kind: IoErrorKind::InvalidData, message }
            },
            SocksError::EmptyDomainName => IoErrorData {
                kind: IoErrorKind::InvalidData,
                message: String::from_str("Empty domain name"),
            },
            SocksError::InvalidDomainNameEncoding => IoErrorData {
                kind: IoErrorKind::InvalidData,
                message: String::from_str("Invalid domain name encoding"),
            },
            SocksError::DnsResolutionFailed => IoErrorData {
                kind: IoErrorKind::Other,
                message: String::from_str("DNS resolution failed"),
            },
            SocksError::NoAddressesResolved => IoErrorData {
                kind: IoErrorKind::Other,
                message: String::from_str("No addresses resolved for domain"),
            },
            SocksError::ConnectionFailed(kind) => IoErrorData {
                kind: *kind,
                message: String::from_str("Connection failed"),
            },
            SocksError::InvalidData => IoErrorData {
                kind: IoErrorKind::InvalidData,
                message: String::from_str("Invalid data"),
            },
            SocksError::IoError(kind) => IoErrorData {
                kind: *kind,
                message: String::from_str("IO error"),
            },
        }
    }
}

} // verus!

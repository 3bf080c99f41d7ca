//! SOCKS5 reply codes.

use vstd::prelude::*;

verus! {

/// The reply code carried in the second byte of a server reply frame.
#[derive(Debug, Clone, Copy, PartialEq, Eq, Structural)]
pub enum Reply {
    Success,
    GeneralFailure,
    ConnectionNotAllowed,
    NetworkUnreachable,
    HostUnreachable,
    ConnectionRefused,
    TtlExpired,
    CommandNotSupported,
    AddressTypeNotSupported,
}

impl Reply {
    pub const SUCCESS: u8 = 0x00;

    pub const GENERAL_FAILURE: u8 = 0x01;

    pub const CONNECTION_NOT_ALLOWED: u8 = 0x02;

    pub const NETWORK_UNREACHABLE: u8 = 0x03;

    pub const HOST_UNREACHABLE: u8 = 0x04;

    pub const CONNECTION_REFUSED: u8 = 0x05;

    pub const TTL_EXPIRED: u8 = 0x06;

    pub const COMMAND_NOT_SUPPORTED: u8 = 0x07;

    pub const ADDRESS_TYPE_NOT_SUPPORTED: u8 = 0x08;

    /// The wire octet of this reply code.
    pub open spec fn spec_as_u8(self) -> u8 {
        match self {
            Reply::Success => 0x00,
            Reply::GeneralFailure => 0x01,
            Reply::ConnectionNotAllowed => 0x02,
            Reply::NetworkUnreachable => 0x03,
            Reply::HostUnreachable => 0x04,
            Reply::ConnectionRefused => 0x05,
            Reply::TtlExpired => 0x06,
            Reply::CommandNotSupported => 0x07,
            Reply::AddressTypeNotSupported => 0x08,
        }
    }

    /// The reply code a wire octet decodes to, if it is one.
    pub open spec fn spec_from_u8(value: u8) -> Option<Reply> {
        if value == 0x00 {
            Some(Reply::Success)
        } else if value == 0x01 {
            Some(Reply::GeneralFailure)
        } else if value == 0x02 {
            Some(Reply::ConnectionNotAllowed)
        } else if value == 0x03 {
            Some(Reply::NetworkUnreachable)
        } else if value == 0x04 {
            Some(Reply::HostUnreachable)
        } else if value == 0x05 {
            Some(Reply::ConnectionRefused)
        } else if value == 0x06 {
            Some(Reply::TtlExpired)
        } else if value == 0x07 {
            Some(Reply::CommandNotSupported)
        } else if value == 0x08 {
            Some(Reply::AddressTypeNotSupported)
        } else {
            None
        }
    }

    pub fn as_u8(self) -> (r: u8)
        ensures
            r == self.spec_as_u8(),
    {
        match self {
            Reply::Success => 0x00,
            Reply::GeneralFailure => 0x01,
            Reply::ConnectionNotAllowed => 0x02,
            Reply::NetworkUnreachable => 0x03,
            Reply::HostUnreachable => 0x04,
            Reply::ConnectionRefused => 0x05,
            Reply::TtlExpired => 0x06,
            Reply::CommandNotSupported => 0x07,
            Reply::AddressTypeNotSupported => 0x08,
        }
    }

    pub fn from_u8(value: u8) -> (r: Option<Reply>)
        ensures
            r == Reply::spec_from_u8(value),
            r matches Some(rep) ==> rep.spec_as_u8() == value,
            value > 0x08 ==> r is None,
    {
        match value {
            0x00 => Some(Reply::Success),
            0x01 => Some(Reply::GeneralFailure),
            0x02 => Some(Reply::ConnectionNotAllowed),
            0x03 => Some(Reply::NetworkUnreachable),
            0x04 => Some(Reply::HostUnreachable),
            0x05 => Some(Reply::ConnectionRefused),
            0x06 => Some(Reply::TtlExpired),
            0x07 => Some(Reply::CommandNotSupported),
            0x08 => Some(Reply::AddressTypeNotSupported),
            _ => None,
        }
    }

    pub fn is_success(self) -> (r: bool)
        ensures
            r == (self is Success),
    {
        matches!(self, Reply::Success)
    }

    pub fn is_error(self) -> (r: bool)
        ensures
            r == !(self is Success),
    {
        !self.is_success()
    }
}

} // verus!

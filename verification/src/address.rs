//! Destination addresses: the three SOCKS5 address types and the parser for
//! the variable-length address field of a request.

use vstd::prelude::*;

use crate::error::IoErrorKind;
use crate::error::SocksError;

verus! {

/// A concrete IP address held as its wire octets.
#[derive(Debug, Clone, PartialEq, Eq)]
pub enum IpAddress {
    V4(Vec<u8>),
    V6(Vec<u8>),
}

/// The mathematical shape of an [`IpAddress`]: which family, and the octets.
pub enum IpAddressView {
    V4(Seq<u8>),
    V6(Seq<u8>),
}

impl View for IpAddress {
    type V = IpAddressView;

    open spec fn view(&self) -> IpAddressView {
        match self {
            IpAddress::V4(octets) => IpAddressView::V4(octets@),
            IpAddress::V6(octets) => IpAddressView::V6(octets@),
        }
    }
}

impl IpAddressView {
    /// A well-formed value holds exactly the octets of one address.
    pub open spec fn wf(self) -> bool {
        match self {
            IpAddressView::V4(octets) => octets.len() == 4,
            IpAddressView::V6(octets) => octets.len() == 16,
        }
    }

    pub open spec fn octets(self) -> Seq<u8> {
        match self {
            IpAddressView::V4(octets) => octets,
            IpAddressView::V6(octets) => octets,
        }
    }

    /// The address-type octet a reply uses for this address.
    pub open spec fn addr_type(self) -> u8 {
        match self {
            IpAddressView::V4(_) => 0x01,
            IpAddressView::V6(_) => 0x04,
        }
    }
}

impl IpAddress {
    /// A well-formed value holds exactly the octets of one address.
    pub open spec fn wf(&self) -> bool {
        self@.wf()
    }

    pub fn octets(&self) -> (octets: &Vec<u8>)
        ensures
            octets@ == self@.octets(),
    {
        match self {
            IpAddress::V4(octets) => octets,
            IpAddress::V6(octets) => octets,
        }
    }

    pub fn addr_type(&self) -> (atyp: u8)
        ensures
            atyp == self@.addr_type(),
    {
        match self {
            IpAddress::V4(_) => 0x01,
            IpAddress::V6(_) => 0x04,
        }
    }

    pub fn is_v4(&self) -> (r: bool)
        ensures
            r == (self@ is V4),
    {
        matches!(self, IpAddress::V4(_))
    }

    /// The all-zero IPv4 address used in error replies.
    pub fn zero_v4() -> (addr: IpAddress)
        ensures
            addr@.wf(),
            addr@ is V4,
            addr@.octets() == seq![0u8, 0u8, 0u8, 0u8],
    {
        let mut octets: Vec<u8> = Vec::new();
        octets.push(0);
        octets.push(0);
        octets.push(0);
        octets.push(0);
        proof {
            assert(octets@ =~= seq![0u8, 0u8, 0u8, 0u8]);
        }
        IpAddress::V4(octets)
    }
}

/// The destination named by a request: either a literal IP address or a
/// domain name still to be resolved.
#[derive(Debug, Clone, PartialEq, Eq)]
pub enum DestAddr {
    Ip(IpAddress),
    Domain(Vec<u8>),
}

/// The mathematical shape of a [`DestAddr`].
pub enum DestAddrView {
    Ip(IpAddressView),
    Domain(Seq<u8>),
}

impl View for DestAddr {
    type V = DestAddrView;

    open spec fn view(&self) -> DestAddrView {
        match self {
            DestAddr::Ip(addr) => DestAddrView::Ip(addr@),
            DestAddr::Domain(name) => DestAddrView::Domain(name@),
        }
    }
}

impl DestAddrView {
    pub open spec fn wf(self) -> bool {
        match self {
            DestAddrView::Ip(addr) => addr.wf(),
            DestAddrView::Domain(name) => 1 <= name.len() <= 255 && utf8_valid(name),
        }
    }
}

/// Whether a byte sequence is valid UTF-8.
pub uninterp spec fn utf8_valid(bytes: Seq<u8>) -> bool;

/// Relies on core::str::from_utf8: it succeeds exactly on valid UTF-8, and
/// validity depends on the bytes alone.
#[verifier::external_body]
fn is_valid_utf8(bytes: &[u8]) -> (r: bool)
    ensures
        r == utf8_valid(bytes@),
{
    core::str::from_utf8(bytes).is_ok()
}

/// The three address-type tags a request may carry.
#[derive(Debug, Clone, Copy, PartialEq, Eq, Structural)]
pub enum AddressType {
    IPv4,
    DomainName,
    IPv6,
}

impl AddressType {
    pub const IPV4: u8 = 0x01;

    pub const DOMAIN_NAME: u8 = 0x03;

    pub const IPV6: u8 = 0x04;

    pub open spec fn spec_from_u8(value: u8) -> Option<AddressType> {
        if value == 0x01 {
            Some(AddressType::IPv4)
        } else if value == 0x03 {
            Some(AddressType::DomainName)
        } else if value == 0x04 {
            Some(AddressType::IPv6)
        } else {
            None
        }
    }

    pub open spec fn spec_as_u8(self) -> u8 {
        match self {
            AddressType::IPv4 => 0x01,
            AddressType::DomainName => 0x03,
            AddressType::IPv6 => 0x04,
        }
    }

    pub fn from_u8(value: u8) -> (r: Option<AddressType>)
        ensures
            r == AddressType::spec_from_u8(value),
            r matches Some(atyp) ==> atyp.spec_as_u8() == value,
    {
        match value {
            0x01 => Some(AddressType::IPv4),
            0x03 => Some(AddressType::DomainName),
            0x04 => Some(AddressType::IPv6),
            _ => None,
        }
    }

    pub fn as_u8(self) -> (r: u8)
        ensures
            r == self.spec_as_u8(),
    {
        match self {
            AddressType::IPv4 => 0x01,
            AddressType::DomainName => 0x03,
            AddressType::IPv6 => 0x04,
        }
    }
}

/// The outcome the address-field parser owes for `bytes` (the input from the
/// first octet of the address field on) under address type `atyp`: either the
/// destination together with the count of octets consumed, or the error.
pub open spec fn spec_parse_addr(bytes: Seq<u8>, atyp: u8) -> Result<
    (DestAddrView, int),
    SocksError,
> {
    if atyp == 0x01 {
        if bytes.len() < 4 {
            Err(SocksError::IoError(IoErrorKind::UnexpectedEof))
        } else {
            Ok((DestAddrView::Ip(IpAddressView::V4(bytes.subrange(0, 4))), 4))
        }
    } else if atyp == 0x04 {
        if bytes.len() < 16 {
            Err(SocksError::IoError(IoErrorKind::UnexpectedEof))
        } else {
            Ok((DestAddrView::Ip(IpAddressView::V6(bytes.subrange(0, 16))), 16))
        }
    } else if atyp == 0x03 {
        if bytes.len() < 1 {
            Err(SocksError::IoError(IoErrorKind::UnexpectedEof))
        } else if bytes[0] == 0 {
            Err(SocksError::EmptyDomainName)
        } else if bytes.len() < 1 + bytes[0] {
            Err(SocksError::IoError(IoErrorKind::UnexpectedEof))
        } else if !utf8_valid(bytes.subrange(1, 1 + bytes[0])) {
            Err(SocksError::InvalidDomainNameEncoding)
        } else {
            Ok((DestAddrView::Domain(bytes.subrange(1, 1 + bytes[0])), 1 + bytes[0]))
        }
    } else {
        Err(SocksError::UnsupportedAddressType(atyp))
    }
}

/// Copy `bytes[from..to]` into a fresh vector.
pub(crate) fn copy_range(bytes: &[u8], from: usize, to: usize) -> (out: Vec<u8>)
    requires
        from <= to <= bytes@.len(),
    ensures
        out@ == bytes@.subrange(from as int, to as int),
{
    let mut out: Vec<u8> = Vec::new();
    let mut i = from;
    while i < to
        invariant
            from <= i <= to <= bytes@.len(),
            out@ == bytes@.subrange(from as int, i as int),
        decreases to - i,
    {
        out.push(bytes[i]);
        proof {
            assert(out@ =~= bytes@.subrange(from as int, i + 1));
        }
        i = i + 1;
    }
    out
}

impl AddressType {
    /// Parse the variable-length address field that follows the address-type
    /// octet.  `bytes` starts at the first octet of the field; the result
    /// carries the destination and how many octets the field occupied.
    pub fn parse(bytes: &[u8], atyp: u8) -> (r: Result<(DestAddr, usize), SocksError>)
        ensures
            match r {
                Ok((dest, used)) => {
                    &&& spec_parse_addr(bytes@, atyp) matches Ok((dv, du))
                        && dv == dest@ && du == used as int
                    &&& dest@.wf()
                    &&& used <= bytes@.len()
                },
                Err(e) => spec_parse_addr(bytes@, atyp) == Err::<(DestAddrView, int), _>(e),
            },
    {
        match AddressType::from_u8(atyp) {
            Some(AddressType::IPv4) => {
                if bytes.len() < 4 {
                    Err(SocksError::IoError(IoErrorKind::UnexpectedEof))
                } else {
                    Ok((DestAddr::Ip(IpAddress::V4(copy_range(bytes, 0, 4))), 4))
                }
            },
            Some(AddressType::IPv6) => {
                if bytes.len() < 16 {
                    Err(SocksError::IoError(IoErrorKind::UnexpectedEof))
                } else {
                    Ok((DestAddr::Ip(IpAddress::V6(copy_range(bytes, 0, 16))), 16))
                }
            },
            Some(AddressType::DomainName) => {
                if bytes.len() < 1 {
                    return Err(SocksError::IoError(IoErrorKind::UnexpectedEof));
                }
                let len = bytes[0] as usize;
                if len == 0 {
                    return Err(SocksError::EmptyDomainName);
                }
                if bytes.len() < 1 + len {
                    return Err(SocksError::IoError(IoErrorKind::UnexpectedEof));
                }
                let name = copy_range(bytes, 1, 1 + len);
                if !is_valid_utf8(name.as_slice()) {
                    return Err(SocksError::InvalidDomainNameEncoding);
                }
                Ok((DestAddr::Domain(name), 1 + len))
            },
            None => Err(SocksError::UnsupportedAddressType(atyp)),
        }
    }
}

} // verus!

//! The six-field SOCKS5 request: parsing and name-resolution bookkeeping.

use vstd::prelude::*;

use crate::address::AddressType;
use crate::address::DestAddr;
use crate::address::DestAddrView;
use crate::address::IpAddress;
use crate::address::IpAddressView;
use crate::address::spec_parse_addr;
use crate::error::IoErrorKind;
use crate::error::SocksError;
use crate::wire::spec_error_reply_frame;

verus! {

/// A parsed request frame whose destination may still be a domain name.
#[derive(Debug, Clone)]
pub struct RequestFrame {
    pub version: u8,
    pub command: u8,
    pub reserved: u8,
    pub address_type: u8,
    pub dest: DestAddr,
    pub dest_port: u16,
}

/// The mathematical shape of a [`RequestFrame`].
pub struct RequestFrameView {
    pub version: u8,
    pub command: u8,
    pub reserved: u8,
    pub address_type: u8,
    pub dest: DestAddrView,
    pub dest_port: u16,
}

impl View for RequestFrame {
    type V = RequestFrameView;

    open spec fn view(&self) -> RequestFrameView {
        RequestFrameView {
            version: self.version,
            command: self.command,
            reserved: self.reserved,
            address_type: self.address_type,
            dest: self.dest@,
            dest_port: self.dest_port,
        }
    }
}

/// The address-type octet that announces a destination.
pub open spec fn spec_dest_addr_type(dest: DestAddrView) -> u8 {
    match dest {
        DestAddrView::Ip(addr) => addr.addr_type(),
        DestAddrView::Domain(_) => 0x03,
    }
}

impl RequestFrameView {
    /// The invariant of a frame the parser hands out: version and reserved
    /// octets checked, and a destination matching the address-type octet.
    pub open spec fn wf(self) -> bool {
        &&& self.version == 0x05
        &&& self.reserved == 0x00
        &&& self.dest.wf()
        &&& self.address_type == spec_dest_addr_type(self.dest)
    }
}

/// A fully resolved request: the destination is a concrete IP address.
#[derive(Debug, Clone)]
pub struct SocksRequest {
    pub version: u8,
    pub command: u8,
    pub reserved: u8,
    pub address_type: u8,
    pub dest_addr: IpAddress,
    pub dest_port: u16,
}

/// The mathematical shape of a [`SocksRequest`].
pub struct SocksRequestView {
    pub version: u8,
    pub command: u8,
    pub reserved: u8,
    pub address_type: u8,
    pub dest_addr: IpAddressView,
    pub dest_port: u16,
}

impl View for SocksRequest {
    type V = SocksRequestView;

    open spec fn view(&self) -> SocksRequestView {
        SocksRequestView {
            version: self.version,
            command: self.command,
            reserved: self.reserved,
            address_type: self.address_type,
            dest_addr: self.dest_addr@,
            dest_port: self.dest_port,
        }
    }
}

impl SocksRequestView {
    pub open spec fn wf(self) -> bool {
        &&& self.version == 0x05
        &&& self.reserved == 0x00
        &&& self.dest_addr.wf()
    }
}

/// The outcome the request parser owes for input `s`: the frame and the
/// count of octets consumed, or the error.  The fields are read in wire
/// order; the version and reserved octets are judged only after the whole
/// frame has been read, so a truncated frame reports end of input first,
/// and a bad address field reports its own error.
pub open spec fn spec_parse_request(s: Seq<u8>) -> Result<(RequestFrameView, int), SocksError> {
    if s.len() < 4 {
        Err(SocksError::IoError(IoErrorKind::UnexpectedEof))
    } else {
        match spec_parse_addr(s.skip(4), s[3]) {
            Err(e) => Err(e),
            Ok((dest, used)) => {
                if s.len() < 4 + used + 2 {
                    Err(SocksError::IoError(IoErrorKind::UnexpectedEof))
                } else if s[0] != 0x05 {
                    Err(SocksError::InvalidVersion(s[0]))
                } else if s[2] != 0x00 {
                    Err(SocksError::InvalidReservedByte(s[2]))
                } else {
                    Ok(
                        (
                            RequestFrameView {
                                version: s[0],
                                command: s[1],
                                reserved: s[2],
                                address_type: s[3],
                                dest,
                                dest_port: (s[4 + used] * 256 + s[4 + used + 1]) as u16,
                            },
                            4 + used + 2,
                        ),
                    )
                }
            },
        }
    }
}

/// Whether `s` begins with one complete request frame: the four-octet
/// header, a well-delimited address field of a recognised type, and the
/// port.
pub open spec fn spec_request_frame_complete(s: Seq<u8>) -> bool {
    &&& s.len() >= 4
    &&& spec_parse_addr(s.skip(4), s[3]) matches Ok((dest, used)) && s.len() >= 4 + used + 2
}

impl SocksRequest {
    /// Parse a request from the bytes read so far.  An `IoError` with
    /// `UnexpectedEof` means the frame is not complete in `bytes`.
    pub fn parse_request(bytes: &[u8]) -> (r: Result<(RequestFrame, usize), SocksError>)
        ensures
            match r {
                Ok((frame, used)) => {
                    &&& spec_parse_request(bytes@) matches Ok((fv, fu))
                        && fv == frame@ && fu == used as int
                    &&& frame@.wf()
                    &&& used <= bytes@.len()
                },
                Err(e) => spec_parse_request(bytes@) == Err::<(RequestFrameView, int), _>(e),
            },
    {
        if bytes.len() < 4 {
            return Err(SocksError::IoError(IoErrorKind::UnexpectedEof));
        }
        let version = bytes[0];
        let command = bytes[1];
        let reserved = bytes[2];
        let address_type = bytes[3];
        let (_, addr_field) = bytes.split_at(4);
        let (dest, addr_used) = match AddressType::parse(addr_field, address_type) {
            Ok(parsed) => parsed,
            Err(e) => {
                return Err(e);
            },
        };
        if bytes.len() < 4 + addr_used + 2 {
            return Err(SocksError::IoError(IoErrorKind::UnexpectedEof));
        }
        let dest_port = (bytes[4 + addr_used] as u16) * 256 + (bytes[4 + addr_used + 1] as u16);
        if version != 0x05 {
            return Err(SocksError::InvalidVersion(version));
        }
        if reserved != 0x00 {
            return Err(SocksError::InvalidReservedByte(reserved));
        }
        Ok(
            (
                RequestFrame { version, command, reserved, address_type, dest, dest_port },
                4 + addr_used + 2,
            ),
        )
    }
}

/// The resolver's answer as mathematical data: `None` when resolution
/// failed, otherwise the resolved addresses in order.
pub open spec fn spec_lookup_view(lookup: Option<Vec<IpAddress>>) -> Option<Seq<IpAddressView>> {
    match lookup {
        Some(addrs) => Some(addrs@.map_values(|a: IpAddress| a@)),
        None => None,
    }
}

/// The request that finishing `frame` with the resolver's answer owes: a
/// destination already resolved passes through, a domain takes the first
/// resolved address, a failed or empty resolution maps to its error.
pub open spec fn spec_resolved_request(
    frame: RequestFrameView,
    lookup: Option<Seq<IpAddressView>>,
) -> Result<SocksRequestView, SocksError> {
    match frame.dest {
        DestAddrView::Ip(addr) => Ok(
            SocksRequestView {
                version: frame.version,
                command: frame.command,
                reserved: frame.reserved,
                address_type: frame.address_type,
                dest_addr: addr,
                dest_port: frame.dest_port,
            },
        ),
        DestAddrView::Domain(_) => match lookup {
            None => Err(SocksError::DnsResolutionFailed),
            Some(addrs) => {
                if addrs.len() == 0 {
                    Err(SocksError::NoAddressesResolved)
                } else {
                    Ok(
                        SocksRequestView {
                            version: frame.version,
                            command: frame.command,
                            reserved: frame.reserved,
                            address_type: frame.address_type,
                            dest_addr: addrs[0],
                            dest_port: frame.dest_port,
                        },
                    )
                }
            },
        },
    }
}

impl RequestFrame {
    /// The domain name the embedding executable must resolve before the
    /// request can be acted on, if the destination is not already an IP
    /// address.
    pub fn domain(&self) -> (r: Option<&Vec<u8>>)
        ensures
            match r {
                Some(name) => self@.dest == DestAddrView::Domain(name@),
                None => self@.dest is Ip,
            },
    {
        match &self.dest {
            DestAddr::Domain(name) => Some(name),
            DestAddr::Ip(_) => None,
        }
    }

    /// Finish the request with the resolver's answer.  A destination that is
    /// already an IP address needs no answer; for a domain name, `lookup`
    /// is `None` when resolution failed and otherwise the resolved
    /// addresses in the resolver's order, of which the first is taken.
    pub fn resolved_request(self, lookup: Option<Vec<IpAddress>>) -> (r: Result<
        SocksRequest,
        SocksError,
    >)
        requires
            lookup matches Some(addrs) ==> forall|i: int|
                0 <= i < addrs@.len() ==> (#[trigger] addrs@[i])@.wf(),
        ensures
            match r {
                Ok(req) => {
                    &&& spec_resolved_request(self@, spec_lookup_view(lookup)) == Ok::<
                        _,
                        SocksError,
                    >(req@)
                    &&& self@.wf() ==> req@.wf()
                },
                Err(e) => spec_resolved_request(self@, spec_lookup_view(lookup))
                    == Err::<SocksRequestView, _>(e),
            },
    {
        match self.dest {
            DestAddr::Ip(addr) => Ok(
                SocksRequest {
                    version: self.version,
                    command: self.command,
                    reserved: self.reserved,
                    address_type: self.address_type,
                    dest_addr: addr,
                    dest_port: self.dest_port,
                },
            ),
            DestAddr::Domain(_) => match lookup {
                None => Err(SocksError::DnsResolutionFailed),
                Some(mut addrs) => {
                    if addrs.len() == 0 {
                        Err(SocksError::NoAddressesResolved)
                    } else {
                        let first = addrs.remove(0);
                        Ok(
                            SocksRequest {
                                version: self.version,
                                command: self.command,
                                reserved: self.reserved,
                                address_type: self.address_type,
                                dest_addr: first,
                                dest_port: self.dest_port,
                            },
                        )
                    }
                },
            },
        }
    }
}

/// For every request whose address-type octet is unrecognised, the parser
/// reports exactly that, and the reply that reports it to the client is the
/// ten-byte frame with code 0x08 (address type not supported).
pub proof fn lemma_unknown_address_type_refused(s: Seq<u8>)
    requires
        s.len() >= 4,
        s[3] != 0x01,
        s[3] != 0x03,
        s[3] != 0x04,
    ensures
        spec_parse_request(s) == Err::<(RequestFrameView, int), _>(
            SocksError::UnsupportedAddressType(s[3]),
        ),
        SocksError::UnsupportedAddressType(s[3]).spec_reply_code() == 0x08,
        spec_error_reply_frame(0x08).len() == 10,
        spec_error_reply_frame(0x08)[0] == 0x05,
        spec_error_reply_frame(0x08)[1] == 0x08,
{
}

/// For every complete request frame whose version octet is not 0x05 or whose
/// reserved octet is not 0x00, the parser reports an error whose reply code
/// is 0x01 (general failure), and the reply frame begins with 0x05.
pub proof fn lemma_bad_version_or_reserved_refused(s: Seq<u8>)
    requires
        spec_request_frame_complete(s),
        s[0] != 0x05 || s[2] != 0x00,
    ensures
        spec_parse_request(s) matches Err(e) && e.spec_reply_code() == 0x01,
        spec_error_reply_frame(0x01).len() == 10,
        spec_error_reply_frame(0x01)[0] == 0x05,
        spec_error_reply_frame(0x01)[1] == 0x01,
{
}

} // verus!

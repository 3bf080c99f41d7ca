//! Wire primitives: protocol constants and the uniform reply encoder.

use vstd::prelude::*;

use crate::error::SocksError;

verus! {

/// The protocol version octet that opens every frame.
pub const SOCKS5_VERSION: u8 = 0x05;

/// The reserved octet of the request and reply frames.
pub const RESERVED: u8 = 0x00;

/// The port reported in error replies.
pub const ERROR_PORT: u16 = 0;

/// The reply frame for `reply_code`, carrying address `addr` (with
/// address-type octet `atyp`) and `port` in network byte order.
pub open spec fn spec_reply_frame(reply_code: u8, atyp: u8, addr: Seq<u8>, port: u16) -> Seq<u8> {
    seq![SOCKS5_VERSION, reply_code, RESERVED, atyp] + addr + seq![
        (port / 256) as u8,
        (port % 256) as u8,
    ]
}

/// The ten-byte error reply frame: the code with the zero IPv4 address and
/// port zero.
pub open spec fn spec_error_reply_frame(reply_code: u8) -> Seq<u8> {
    spec_reply_frame(reply_code, 0x01, seq![0u8, 0u8, 0u8, 0u8], 0)
}

/// Encode one reply frame.  This is the single point that lays out reply
/// bytes; every reply the server sends is one such frame.
pub fn encode_reply(reply_code: u8, atyp: u8, addr_bytes: &Vec<u8>, port: u16) -> (frame: Vec<u8>)
    ensures
        frame@ == spec_reply_frame(reply_code, atyp, addr_bytes@, port),
        frame@.len() == 6 + addr_bytes@.len(),
{
    let mut frame: Vec<u8> = Vec::new();
    frame.push(SOCKS5_VERSION);
    frame.push(reply_code);
    frame.push(RESERVED);
    frame.push(atyp);
    frame.extend_from_slice(addr_bytes.as_slice());
    frame.push((port / 256) as u8);
    frame.push((port % 256) as u8);
    proof {
        assert(frame@ =~= spec_reply_frame(reply_code, atyp, addr_bytes@, port));
    }
    frame
}

/// Encode the error reply for a failure with no usefully-bound address:
/// the code with the zero IPv4 address and port zero.
pub fn encode_error_reply(reply_code: u8) -> (frame: Vec<u8>)
    ensures
        frame@ == spec_error_reply_frame(reply_code),
        frame@.len() == 10,
        frame@[0] == SOCKS5_VERSION,
        frame@[1] == reply_code,
{
    let mut addr: Vec<u8> = Vec::new();
    addr.push(0);
    addr.push(0);
    addr.push(0);
    addr.push(0);
    proof {
        assert(addr@ =~= seq![0u8, 0u8, 0u8, 0u8]);
    }
    encode_reply(reply_code, 0x01, &addr, ERROR_PORT)
}

/// Encode the error reply that reports `socks_error` to the client.
pub fn encode_socks_error_reply(socks_error: &SocksError) -> (frame: Vec<u8>)
    ensures
        frame@ == spec_error_reply_frame(socks_error.spec_reply_code()),
        frame@.len() == 10,
        frame@[0] == SOCKS5_VERSION,
        frame@[1] == socks_error.spec_reply_code(),
{
    encode_error_reply(socks_error.to_reply_code())
}

/// The two-octet method-selection frame.
pub open spec fn spec_method_selection_frame(method: u8) -> Seq<u8> {
    seq![SOCKS5_VERSION, method]
}

/// Encode the method-selection frame the server sends after the greeting.
pub fn encode_method_selection(method: u8) -> (frame: Vec<u8>)
    ensures
        frame@ == spec_method_selection_frame(method),
{
    let mut frame: Vec<u8> = Vec::new();
    frame.push(SOCKS5_VERSION);
    frame.push(method);
    proof {
        assert(frame@ =~= spec_method_selection_frame(method));
    }
    frame
}

} // verus!

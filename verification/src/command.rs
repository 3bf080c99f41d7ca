//! Commands: the dispatcher, the stub handlers, the CONNECT outcome
//! classification, and the reply packaging.

use vstd::prelude::*;

use crate::address::IpAddress;
use crate::address::IpAddressView;
use crate::error::IoErrorKind;
use crate::error::SocksError;
use crate::error::spec_connect_error_reply_code;
use crate::request::SocksRequest;
use crate::wire::encode_reply;
use crate::wire::spec_error_reply_frame;
use crate::wire::spec_reply_frame;

verus! {

/// A SOCKS5 command tag.
#[derive(Debug, Clone, Copy, PartialEq, Eq, Structural)]
pub enum Command {
    Connect,
    Bind,
    UdpAssociate,
}

impl Command {
    pub const CONNECT: u8 = 0x01;

    pub const BIND: u8 = 0x02;

    pub const UDP_ASSOCIATE: u8 = 0x03;

    pub open spec fn spec_parse_command(command: u8) -> Option<Command> {
        if command == 0x01 {
            Some(Command::Connect)
        } else if command == 0x02 {
            Some(Command::Bind)
        } else if command == 0x03 {
            Some(Command::UdpAssociate)
        } else {
            None
        }
    }

    pub open spec fn spec_as_u8(self) -> u8 {
        match self {
            Command::Connect => 0x01,
            Command::Bind => 0x02,
            Command::UdpAssociate => 0x03,
        }
    }

    pub fn parse_command(command: u8) -> (r: Option<Command>)
        ensures
            r == Command::spec_parse_command(command),
            r matches Some(c) ==> c.spec_as_u8() == command,
    {
        match command {
            0x01 => Some(Command::Connect),
            0x02 => Some(Command::Bind),
            0x03 => Some(Command::UdpAssociate),
            _ => None,
        }
    }

    pub fn as_u8(self) -> (r: u8)
        ensures
            r == self.spec_as_u8(),
    {
        match self {
            Command::Connect => 0x01,
            Command::Bind => 0x02,
            Command::UdpAssociate => 0x03,
        }
    }

    pub fn name(&self) -> (name: &'static str)
        ensures
            self is Connect ==> name@ == "CONNECT"@,
            self is Bind ==> name@ == "BIND"@,
            self is UdpAssociate ==> name@ == "UDP_ASSOCIATE"@,
    {
        match self {
            Command::Connect => "CONNECT",
            Command::Bind => "BIND",
            Command::UdpAssociate => "UDP_ASSOCIATE",
        }
    }
}

/// The outcome a command handler produces: the reply code and the bound
/// endpoint to report.  A successful CONNECT additionally hands its target
/// socket to the driver; the socket lives with the embedding executable, so
/// here success is witnessed by the reply code alone.
#[derive(Debug, Clone)]
pub struct CommandResult {
    pub reply_code: u8,
    pub bind_addr: IpAddress,
    pub bind_port: u16,
}

/// The mathematical shape of a [`CommandResult`].
pub struct CommandResultView {
    pub reply_code: u8,
    pub bind_addr: IpAddressView,
    pub bind_port: u16,
}

impl View for CommandResult {
    type V = CommandResultView;

    open spec fn view(&self) -> CommandResultView {
        CommandResultView {
            reply_code: self.reply_code,
            bind_addr: self.bind_addr@,
            bind_port: self.bind_port,
        }
    }
}

impl CommandResultView {
    pub open spec fn wf(self) -> bool {
        self.bind_addr.wf()
    }
}

/// The error result with the given reply code: the zero IPv4 address and
/// port zero.
pub open spec fn spec_error_result(reply_code: u8) -> CommandResultView {
    CommandResultView {
        reply_code,
        bind_addr: IpAddressView::V4(seq![0u8, 0u8, 0u8, 0u8]),
        bind_port: 0,
    }
}

impl CommandResult {
    /// A success result reporting the bound endpoint `bind_addr:bind_port`.
    pub fn success(bind_addr: IpAddress, bind_port: u16) -> (r: CommandResult)
        ensures
            r@ == (CommandResultView { reply_code: 0x00, bind_addr: bind_addr@, bind_port }),
    {
        CommandResult { reply_code: 0x00, bind_addr, bind_port }
    }

    /// An error result with the given reply code and the zero endpoint.
    pub fn error(reply_code: u8) -> (r: CommandResult)
        ensures
            r@ == spec_error_result(reply_code),
            r@.wf(),
    {
        CommandResult { reply_code, bind_addr: IpAddress::zero_v4(), bind_port: 0 }
    }

    /// The error result that reports `socks_error`.
    pub fn from_socks_error(socks_error: &SocksError) -> (r: CommandResult)
        ensures
            r@ == spec_error_result(socks_error.spec_reply_code()),
            r@.wf(),
    {
        Self::error(socks_error.to_reply_code())
    }

    pub fn is_success(&self) -> (r: bool)
        ensures
            r == (self.reply_code == 0x00),
    {
        self.reply_code == 0x00
    }

    pub fn is_error(&self) -> (r: bool)
        ensures
            r == (self.reply_code != 0x00),
    {
        !self.is_success()
    }

    pub fn reply_code(&self) -> (r: u8)
        ensures
            r == self.reply_code,
    {
        self.reply_code
    }

    /// Encode the reply frame that reports this result, dispatching on the
    /// bound address's family for the address-type octet.  A well-formed
    /// result yields exactly 10 octets for an IPv4 binding and 22 for IPv6.
    pub fn encode_reply(&self) -> (frame: Vec<u8>)
        ensures
            frame@ == spec_reply_frame(
                self.reply_code,
                self@.bind_addr.addr_type(),
                self@.bind_addr.octets(),
                self.bind_port,
            ),
            self@.wf() && self@.bind_addr is V4 ==> frame@.len() == 10,
            self@.wf() && self@.bind_addr is V6 ==> frame@.len() == 22,
            frame@.len() >= 1 && frame@[0] == 0x05,
    {
        let atyp = self.bind_addr.addr_type();
        encode_reply(self.reply_code, atyp, self.bind_addr.octets(), self.bind_port)
    }
}

/// What the driver must do for a dispatched command.
pub enum CommandPlan {
    /// Open an outbound TCP connection to the destination, then report its
    /// outcome through [`connect_result`].
    Connect { dest_addr: IpAddress, dest_port: u16 },
    /// Send the refusing reply at once; there is no target socket.
    Refuse(CommandResult),
}

impl Command {
    /// Map the command to its handler's plan.  CONNECT names the endpoint to
    /// open; BIND and UDP ASSOCIATE are advertised but refused with
    /// "command not supported".
    pub fn execute(self, request: SocksRequest) -> (plan: CommandPlan)
        ensures
            self is Connect ==> (plan matches CommandPlan::Connect { dest_addr, dest_port }
                && dest_addr@ == request@.dest_addr && dest_port == request@.dest_port),
            !(self is Connect) ==> (plan matches CommandPlan::Refuse(result) && result@
                == spec_error_result(0x07)),
    {
        match self {
            Command::Connect => CommandPlan::Connect {
                dest_addr: request.dest_addr,
                dest_port: request.dest_port,
            },
            Command::Bind => CommandPlan::Refuse(bind_command_result()),
            Command::UdpAssociate => CommandPlan::Refuse(udp_associate_command_result()),
        }
    }
}

/// Stub handler for BIND: the command is advertised but not implemented, so
/// the result is the "command not supported" reply.
pub fn bind_command_result() -> (r: CommandResult)
    ensures
        r@ == spec_error_result(0x07),
{
    CommandResult::error(0x07)
}

/// Stub handler for UDP ASSOCIATE: the command is advertised but not
/// implemented, so the result is the "command not supported" reply.
pub fn udp_associate_command_result() -> (r: CommandResult)
    ensures
        r@ == spec_error_result(0x07),
{
    CommandResult::error(0x07)
}

/// The result the CONNECT handler owes for the outcome of opening the
/// outbound connection: on success the local endpoint of the new socket
/// with reply code zero, on failure the classified error with the zero
/// endpoint.
pub open spec fn spec_connect_result(
    outcome: Result<(IpAddressView, u16), IoErrorKind>,
) -> CommandResultView {
    match outcome {
        Ok((local_addr, local_port)) => CommandResultView {
            reply_code: 0x00,
            bind_addr: local_addr,
            bind_port: local_port,
        },
        Err(kind) => spec_error_result(spec_connect_error_reply_code(kind)),
    }
}

/// Package the outcome of the outbound TCP connection.  `outcome` carries,
/// on success, the local address and port of the opened socket; on failure,
/// the kind of the system error, which is classified into the reply code.
pub fn connect_result(outcome: Result<(IpAddress, u16), IoErrorKind>) -> (r: CommandResult)
    ensures
        match outcome {
            Ok((local_addr, local_port)) => r@ == spec_connect_result(
                Ok::<_, IoErrorKind>((local_addr@, local_port)),
            ),
            Err(kind) => r@ == spec_connect_result(Err::<(IpAddressView, u16), _>(kind)),
        },
        outcome matches Ok((local_addr, _)) && local_addr@.wf() ==> r@.wf(),
        outcome is Err ==> r@.wf(),
        (r.reply_code == 0x00) == (outcome is Ok),
{
    match outcome {
        Ok((local_addr, local_port)) => CommandResult::success(local_addr, local_port),
        Err(kind) => CommandResult::from_socks_error(&SocksError::ConnectionFailed(kind)),
    }
}

/// For every unknown command octet, the parser recognises nothing, and the
/// reply that refuses the request is the ten-byte frame with code 0x07
/// (command not supported).
pub proof fn lemma_unknown_command_refused(command: u8)
    requires
        command != 0x01,
        command != 0x02,
        command != 0x03,
    ensures
        Command::spec_parse_command(command) is None,
        SocksError::UnsupportedCommand(command).spec_reply_code() == 0x07,
        spec_error_reply_frame(0x07).len() == 10,
        spec_error_reply_frame(0x07)[0] == 0x05,
        spec_error_reply_frame(0x07)[1] == 0x07,
{
}

} // verus!

//! Method negotiation: the client greeting, the authentication-method
//! catalogue, and the server's selection rule.

use vstd::prelude::*;
use vstd::string::StringExecFns;

use crate::text::spec_decimal;
use crate::text::u8_string;
use crate::text::u64_string;
use crate::wire::spec_method_selection_frame;
use crate::wire::encode_method_selection;

verus! {

/// An authentication method tag.
#[derive(Debug, Clone, Copy, PartialEq, Eq, Structural)]
pub enum Method {
    NoAuthenticationRequired,
    Gssapi,
    UsernamePassword,
    IanaAssigned,
    ReservedForPrivateMethods,
    NoAcceptableMethods,
}

impl Method {
    pub const NO_AUTHENTICATION_REQUIRED: u8 = 0x00;

    pub const GSSAPI: u8 = 0x01;

    pub const USERNAME_PASSWORD: u8 = 0x02;

    pub const IANA_ASSIGNED: u8 = 0x03;

    pub const RESERVED_FOR_PRIVATE_METHODS: u8 = 0x80;

    pub const NO_ACCEPTABLE_METHODS: u8 = 0xFF;

    pub open spec fn spec_from_u8(value: u8) -> Option<Method> {
        if value == 0x00 {
            Some(Method::NoAuthenticationRequired)
        } else if value == 0x01 {
            Some(Method::Gssapi)
        } else if value == 0x02 {
            Some(Method::UsernamePassword)
        } else if value == 0x03 {
            Some(Method::IanaAssigned)
        } else if value == 0x80 {
            Some(Method::ReservedForPrivateMethods)
        } else if value == 0xFF {
            Some(Method::NoAcceptableMethods)
        } else {
            None
        }
    }

    pub open spec fn spec_as_u8(self) -> u8 {
        match self {
            Method::NoAuthenticationRequired => 0x00,
            Method::Gssapi => 0x01,
            Method::UsernamePassword => 0x02,
            Method::IanaAssigned => 0x03,
            Method::ReservedForPrivateMethods => 0x80,
            Method::NoAcceptableMethods => 0xFF,
        }
    }

    pub fn from_u8(value: u8) -> (r: Option<Method>)
        ensures
            r == Method::spec_from_u8(value),
            r matches Some(m) ==> m.spec_as_u8() == value,
    {
        match value {
            0x00 => Some(Method::NoAuthenticationRequired),
            0x01 => Some(Method::Gssapi),
            0x02 => Some(Method::UsernamePassword),
            0x03 => Some(Method::IanaAssigned),
            0x80 => Some(Method::ReservedForPrivateMethods),
            0xFF => Some(Method::NoAcceptableMethods),
            _ => None,
        }
    }

    pub fn as_u8(self) -> (r: u8)
        ensures
            r == self.spec_as_u8(),
    {
        match self {
            Method::NoAuthenticationRequired => 0x00,
            Method::Gssapi => 0x01,
            Method::UsernamePassword => 0x02,
            Method::IanaAssigned => 0x03,
            Method::ReservedForPrivateMethods => 0x80,
            Method::NoAcceptableMethods => 0xFF,
        }
    }

    pub fn display_name(&self) -> (name: &'static str)
        ensures
            self is NoAuthenticationRequired ==> name@ == "No Authentication Required"@,
            self is Gssapi ==> name@ == "GSSAPI"@,
            self is UsernamePassword ==> name@ == "Username/Password"@,
            self is IanaAssigned ==> name@ == "IANA Assigned"@,
            self is ReservedForPrivateMethods ==> name@ == "Reserved for Private Methods"@,
            self is NoAcceptableMethods ==> name@ == "No Acceptable Methods"@,
    {
        match self {
            Method::NoAuthenticationRequired => "No Authentication Required",
            Method::Gssapi => "GSSAPI",
            Method::UsernamePassword => "Username/Password",
            Method::IanaAssigned => "IANA Assigned",
            Method::ReservedForPrivateMethods => "Reserved for Private Methods",
            Method::NoAcceptableMethods => "No Acceptable Methods",
        }
    }

    /// Whether the method calls for a sub-negotiation after selection.
    pub fn requires_auth(&self) -> (r: bool)
        ensures
            r == !(self is NoAuthenticationRequired || self is NoAcceptableMethods),
    {
        match self {
            Method::NoAuthenticationRequired => false,
            Method::Gssapi | Method::UsernamePassword => true,
            Method::IanaAssigned | Method::ReservedForPrivateMethods => true,
            Method::NoAcceptableMethods => false,
        }
    }

    /// Whether this server implements the method's sub-negotiation.
    pub fn is_implemented(&self) -> (r: bool)
        ensures
            r == (self is NoAuthenticationRequired),
    {
        matches!(self, Method::NoAuthenticationRequired)
    }
}

/// A failure of the method-selection exchange.
#[derive(Debug, Clone, Copy, PartialEq, Eq, Structural)]
pub enum HandshakeError {
    /// The greeting did not begin with the SOCKS5 version octet.
    InvalidVersion(u8),
    /// The greeting declared zero methods.
    NoMethodsProvided,
    /// The greeting ended before it was complete.
    UnexpectedEof,
    /// No offered method is both configured and implemented.
    NoAcceptableMethods,
    /// The selected method's sub-negotiation is not implemented.
    MethodNotImplemented(Method),
}

/// The client greeting: version, declared method count, and method list.
#[derive(Debug, Clone)]
pub struct ClientGreeting {
    pub version: u8,
    pub nmethods: u8,
    pub methods: Vec<u8>,
}

/// The mathematical shape of a [`ClientGreeting`].
pub struct ClientGreetingView {
    pub version: u8,
    pub nmethods: u8,
    pub methods: Seq<u8>,
}

impl View for ClientGreeting {
    type V = ClientGreetingView;

    open spec fn view(&self) -> ClientGreetingView {
        ClientGreetingView { version: self.version, nmethods: self.nmethods, methods: self.methods@ }
    }
}

impl ClientGreetingView {
    /// The invariant of a greeting as read off the wire: correct version, at
    /// least one method, and a method list as long as declared.
    pub open spec fn wf(self) -> bool {
        &&& self.version == 0x05
        &&& self.nmethods >= 1
        &&& self.methods.len() == self.nmethods
    }
}

/// The method tags of `methods` that name a recognised method, in order.
pub open spec fn spec_supported_methods(methods: Seq<u8>) -> Seq<Method>
    decreases methods.len(),
{
    if methods.len() == 0 {
        Seq::empty()
    } else {
        spec_supported_methods(methods.drop_last()) + match Method::spec_from_u8(
            methods.last(),
        ) {
            Some(m) => seq![m],
            None => Seq::empty(),
        }
    }
}

/// Whether `bytes` holds `b`.
fn contains_byte(bytes: &[u8], b: u8) -> (r: bool)
    ensures
        r == bytes@.contains(b),
{
    let mut i: usize = 0;
    while i < bytes.len()
        invariant
            i <= bytes@.len(),
            forall|j: int| 0 <= j < i ==> bytes@[j] != b,
        decreases bytes@.len() - i,
    {
        if bytes[i] == b {
            return true;
        }
        i = i + 1;
    }
    false
}

impl ClientGreeting {
    /// The recognised methods among those the client offered.
    pub fn get_supported_methods(&self) -> (r: Vec<Method>)
        ensures
            r@ == spec_supported_methods(self@.methods),
    {
        let mut r: Vec<Method> = Vec::new();
        let mut i: usize = 0;
        while i < self.methods.len()
            invariant
                i <= self@.methods.len(),
                r@ == spec_supported_methods(self@.methods.take(i as int)),
            decreases self@.methods.len() - i,
        {
            proof {
                assert(self@.methods.take(i + 1).drop_last() =~= self@.methods.take(i as int));
                assert(self@.methods.take(i + 1).last() == self@.methods[i as int]);
            }
            if let Some(m) = Method::from_u8(self.methods[i]) {
                r.push(m);
            }
            i = i + 1;
        }
        proof {
            assert(self@.methods.take(i as int) =~= self@.methods);
        }
        r
    }

    /// Whether the client offered `method`.
    pub fn supports_method(&self, method: Method) -> (r: bool)
        ensures
            r == self@.methods.contains(method.spec_as_u8()),
    {
        contains_byte(self.methods.as_slice(), method.as_u8())
    }

    /// Check the greeting's invariant, with a message naming the first field
    /// that breaks it.
    pub fn validate(&self) -> (r: Result<(), String>)
        ensures
            r is Ok <==> self@.wf(),
            self.version != 0x05 ==> (r matches Err(msg) && msg@ == "Invalid SOCKS version: "@
                + spec_decimal(self.version as nat)),
            self.version == 0x05 && self.nmethods != self@.methods.len() ==> (r matches Err(msg)
                && msg@ == "Method count mismatch: declared "@ + spec_decimal(self.nmethods as nat)
                + ", actual "@ + spec_decimal(self@.methods.len())),
            self.version == 0x05 && self.nmethods == self@.methods.len() && self.nmethods == 0
                ==> (r matches Err(msg) && msg@ == "No authentication methods provided"@),
    {
        if self.version != 0x05 {
            let mut msg = String::from_str("Invalid SOCKS version: ");
            msg.append(u8_string(self.version).as_str());
            return Err(msg);
        }
        if self.nmethods as usize != self.methods.len() {
            let mut msg = String::from_str("Method count mismatch: declared ");
            msg.append(u8_string(self.nmethods).as_str());
            msg.append(", actual ");
            msg.append(u64_string(self.methods.len() as u64).as_str());
            return Err(msg);
        }
        MethodHandler::validate_client_methods(self.methods.as_slice())
    }
}

/// The server side of the method-selection exchange.
pub struct MethodHandler;

/// The method the server selects when the client offers `client` and the
/// server is configured with `server`: the first tag in the fixed priority
/// order that both sides know and the server implements.  Only no-auth is
/// implemented, so the selection is no-auth exactly when both sides offer
/// it.
pub open spec fn spec_negotiate(client: Seq<u8>, server: Seq<u8>) -> Option<Method> {
    if client.contains(0x00u8) && server.contains(0x00u8) {
        Some(Method::NoAuthenticationRequired)
    } else {
        None
    }
}

/// The two-octet answer the server gives to a greeting: the selected method,
/// or 0xFF when none is acceptable.
pub open spec fn spec_handshake_response(client: Seq<u8>, server: Seq<u8>) -> Seq<u8> {
    match spec_negotiate(client, server) {
        Some(m) => spec_method_selection_frame(m.spec_as_u8()),
        None => spec_method_selection_frame(0xFF),
    }
}

/// The outcome the greeting parser owes for input `s`: the greeting and the
/// count of octets consumed, or the error.
pub open spec fn spec_parse_greeting(s: Seq<u8>) -> Result<(ClientGreetingView, int), HandshakeError> {
    if s.len() < 1 {
        Err(HandshakeError::UnexpectedEof)
    } else if s[0] != 0x05 {
        Err(HandshakeError::InvalidVersion(s[0]))
    } else if s.len() < 2 {
        Err(HandshakeError::UnexpectedEof)
    } else if s[1] == 0 {
        Err(HandshakeError::NoMethodsProvided)
    } else if s.len() < 2 + s[1] {
        Err(HandshakeError::UnexpectedEof)
    } else {
        Ok(
            (
                ClientGreetingView {
                    version: 0x05,
                    nmethods: s[1],
                    methods: s.subrange(2, 2 + s[1]),
                },
                2 + s[1],
            ),
        )
    }
}

/// The server-side priority order over method tags: no-auth first, then
/// username/password, GSSAPI, IANA-assigned, private.
pub open spec fn spec_method_priority() -> Seq<u8> {
    seq![0x00u8, 0x02u8, 0x01u8, 0x03u8, 0x80u8]
}

fn method_priority(i: usize) -> (code: u8)
    requires
        i < 5,
    ensures
        code == spec_method_priority()[i as int],
{
    match i {
        0 => 0x00,
        1 => 0x02,
        2 => 0x01,
        3 => 0x03,
        _ => 0x80,
    }
}

impl MethodHandler {
    /// Select a method: walk the fixed priority order and take the first tag
    /// that the server is configured with, the client offered, and the
    /// server implements.
    pub fn negotiate(client_methods: &[u8], server_methods: &[u8]) -> (r: Option<Method>)
        ensures
            r == spec_negotiate(client_methods@, server_methods@),
    {
        let mut i: usize = 0;
        while i < 5
            invariant
                i <= 5,
                i > 0 ==> !(client_methods@.contains(0x00u8) && server_methods@.contains(0x00u8)),
            decreases 5 - i,
        {
            let method_code = method_priority(i);
            if contains_byte(server_methods, method_code) && contains_byte(
                client_methods,
                method_code,
            ) {
                if let Some(method) = Method::from_u8(method_code) {
                    if method.is_implemented() {
                        return Some(method);
                    }
                }
            }
            i = i + 1;
        }
        None
    }

    /// Run the selected method's sub-negotiation.  For no-auth there is
    /// nothing to do; no other sub-negotiation is implemented.
    pub fn authenticate_method(method: Method) -> (r: Result<(), HandshakeError>)
        ensures
            method is NoAuthenticationRequired ==> r is Ok,
            !(method is NoAuthenticationRequired) ==> r == Err::<(), _>(
                HandshakeError::MethodNotImplemented(method),
            ),
    {
        match method {
            Method::NoAuthenticationRequired => Ok(()),
            Method::UsernamePassword => Self::handle_username_password_auth(),
            Method::Gssapi => Self::handle_gssapi_auth(),
            _ => Err(HandshakeError::MethodNotImplemented(method)),
        }
    }

    fn handle_username_password_auth() -> (r: Result<(), HandshakeError>)
        ensures
            r == Err::<(), _>(
                HandshakeError::MethodNotImplemented(Method::UsernamePassword),
            ),
    {
        Err(HandshakeError::MethodNotImplemented(Method::UsernamePassword))
    }

    fn handle_gssapi_auth() -> (r: Result<(), HandshakeError>)
        ensures
            r == Err::<(), _>(HandshakeError::MethodNotImplemented(Method::Gssapi)),
    {
        Err(HandshakeError::MethodNotImplemented(Method::Gssapi))
    }

    /// Answer a greeting: the two-octet frame to write back, and the selected
    /// method or the failure to report.
    pub fn handle_client_methods(client_methods: &[u8], server_methods: &[u8]) -> (r: (
        Vec<u8>,
        Result<Method, HandshakeError>,
    ))
        ensures
            r.0@ == spec_handshake_response(client_methods@, server_methods@),
            spec_negotiate(client_methods@, server_methods@) matches Some(m) ==> r.1 == Ok::<
                _,
                HandshakeError,
            >(m),
            spec_negotiate(client_methods@, server_methods@) is None ==> r.1 == Err::<Method, _>(
                HandshakeError::NoAcceptableMethods,
            ),
    {
        match Self::negotiate(client_methods, server_methods) {
            Some(method) => {
                let frame = encode_method_selection(method.as_u8());
                match Self::authenticate_method(method) {
                    Ok(()) => (frame, Ok(method)),
                    Err(e) => (frame, Err(e)),
                }
            },
            None => (encode_method_selection(Method::NO_ACCEPTABLE_METHODS), Err(
                HandshakeError::NoAcceptableMethods,
            )),
        }
    }

    /// Parse a client greeting from the bytes read so far.  An
    /// `UnexpectedEof` error means the frame is not complete in `bytes`.
    pub fn parse_client_greeting(bytes: &[u8]) -> (r: Result<(ClientGreeting, usize), HandshakeError>)
        ensures
            match r {
                Ok((greeting, used)) => {
                    &&& spec_parse_greeting(bytes@) matches Ok((gv, gu))
                        && gv == greeting@ && gu == used as int
                    &&& greeting@.wf()
                    &&& used <= bytes@.len()
                },
                Err(e) => spec_parse_greeting(bytes@) == Err::<(ClientGreetingView, int), _>(e),
            },
    {
        if bytes.len() < 1 {
            return Err(HandshakeError::UnexpectedEof);
        }
        let version = bytes[0];
        if version != 0x05 {
            return Err(HandshakeError::InvalidVersion(version));
        }
        if bytes.len() < 2 {
            return Err(HandshakeError::UnexpectedEof);
        }
        let nmethods = bytes[1];
        if nmethods == 0 {
            return Err(HandshakeError::NoMethodsProvided);
        }
        let total = 2 + nmethods as usize;
        if bytes.len() < total {
            return Err(HandshakeError::UnexpectedEof);
        }
        let methods = crate::address::copy_range(bytes, 2, total);
        Ok((ClientGreeting { version, nmethods, methods }, total))
    }

    /// Check an offered method list: it must be non-empty and fit the
    /// one-octet count field.
    pub fn validate_client_methods(methods: &[u8]) -> (r: Result<(), String>)
        ensures
            r is Ok <==> 1 <= methods@.len() <= 255,
            methods@.len() == 0 ==> (r matches Err(msg) && msg@
                == "No authentication methods provided"@),
            methods@.len() > 255 ==> (r matches Err(msg) && msg@
                == "Too many authentication methods"@),
    {
        if methods.len() == 0 {
            return Err(String::from_str("No authentication methods provided"));
        }
        if methods.len() > 255 {
            return Err(String::from_str("Too many authentication methods"));
        }
        Ok(())
    }
}

/// For every well-formed greeting whose method list offers no-auth, a server
/// whose configured set also holds no-auth answers exactly `[0x05, 0x00]`.
pub proof fn lemma_no_auth_greeting_accepted(greeting: ClientGreeting, server: Seq<u8>)
    requires
        greeting@.wf(),
        greeting@.methods.contains(0x00u8),
        server.contains(0x00u8),
    ensures
        spec_handshake_response(greeting@.methods, server) == seq![0x05u8, 0x00u8],
{
    assert(spec_handshake_response(greeting@.methods, server) =~= seq![0x05u8, 0x00u8]);
}

/// For every greeting whose method list is disjoint from the server's
/// configured set, the server answers exactly `[0x05, 0xFF]`.
pub proof fn lemma_disjoint_methods_refused(greeting: ClientGreeting, server: Seq<u8>)
    requires
        forall|m: u8| greeting@.methods.contains(m) ==> !server.contains(m),
    ensures
        spec_handshake_response(greeting@.methods, server) == seq![0x05u8, 0xFFu8],
{
    assert(!(greeting@.methods.contains(0x00u8) && server.contains(0x00u8)));
    assert(spec_handshake_response(greeting@.methods, server) =~= seq![0x05u8, 0xFFu8]);
}

} // verus!

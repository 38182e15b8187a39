//! The SOCKS5 handshake of the local proxy: greeting, `CONNECT` request and
//! replies, and the session's decisions between reads and writes.

use vstd::prelude::*;
use vstd::utf8::{valid_utf8, decode_utf8};
use crate::error::Error;
use crate::net::{spec_ipv4_text, spec_ipv6_text, ipv4_to_string, ipv6_to_string};

verus! {

pub const SOCKS5_VERSION: u8 = 0x05;
pub const AUTH_NONE: u8 = 0x00;
pub const CMD_CONNECT: u8 = 0x01;
pub const ATYP_IPV4: u8 = 0x01;
pub const ATYP_DOMAIN: u8 = 0x03;
pub const ATYP_IPV6: u8 = 0x04;

/// A greeting is accepted when it has at least three bytes and starts with
/// version 5; any offered methods are answered with "no authentication".
pub open spec fn spec_greeting_ok(d: Seq<u8>) -> bool {
    d.len() >= 3 && d[0] == SOCKS5_VERSION
}

/// Checks a client greeting.
pub fn check_greeting(data: &[u8]) -> (r: Result<(), Error>)
    ensures
        r is Ok <==> spec_greeting_ok(data@),
        r matches Err(e) ==> e matches Error::Parse(m) && m@ == "Invalid SOCKS5 auth negotiation"@,
{
    if data.len() < 3 || data[0] != SOCKS5_VERSION {
        return Err(Error::Parse("Invalid SOCKS5 auth negotiation".to_owned()));
    }
    Ok(())
}

/// The answer to an accepted greeting: version 5, no authentication.
pub fn greeting_reply() -> (r: Vec<u8>)
    ensures
        r@ == seq![SOCKS5_VERSION, AUTH_NONE],
{
    let mut r: Vec<u8> = Vec::new();
    r.push(SOCKS5_VERSION);
    r.push(AUTH_NONE);
    proof {
        assert(r@ =~= seq![SOCKS5_VERSION, AUTH_NONE]);
    }
    r
}

/// A port in network byte order.
pub open spec fn be_u16(hi: u8, lo: u8) -> u16 {
    (hi as int * 256 + lo as int) as u16
}

/// What `String::from_utf8_lossy` gives for a byte string.
pub uninterp spec fn spec_utf8_lossy(b: Seq<u8>) -> Seq<char>;

/// Decodes bytes with `String::from_utf8_lossy`. Valid UTF-8 comes back
/// unchanged, as its documentation states; how invalid sequences are
/// replaced is left unstated.
#[verifier::external_body]
pub(crate) fn utf8_lossy(b: &[u8]) -> (s: String)
    ensures
        s@ == spec_utf8_lossy(b@),
        valid_utf8(b@) ==> s@ == decode_utf8(b@),
{
    String::from_utf8_lossy(b).into_owned()
}

/// The target of a `CONNECT` request, or the error message for a request
/// that cannot be used: the version must be 5, the command `CONNECT`, and
/// the address must be complete.
pub open spec fn spec_parse_connect(d: Seq<u8>) -> Result<(Seq<char>, u16), Seq<char>> {
    if d.len() < 4 || d[0] != SOCKS5_VERSION || d[1] != CMD_CONNECT {
        Err("Invalid SOCKS5 connect request"@)
    } else if d[3] == ATYP_IPV4 {
        if d.len() < 10 {
            Err("Too short for IPv4"@)
        } else {
            Ok((spec_ipv4_text(d.subrange(4, 8)), be_u16(d[8], d[9])))
        }
    } else if d[3] == ATYP_IPV6 {
        if d.len() < 22 {
            Err("Too short for IPv6"@)
        } else {
            Ok((spec_ipv6_text(d.subrange(4, 20)), be_u16(d[20], d[21])))
        }
    } else if d[3] == ATYP_DOMAIN {
        let len = d[4] as int;
        if d.len() < 5 || d.len() < 5 + len + 2 {
            Err("Too short for domain"@)
        } else {
            Ok((spec_utf8_lossy(d.subrange(5, 5 + len)), be_u16(d[5 + len], d[5 + len + 1])))
        }
    } else {
        Err("Unknown address type: "@ + crate::text::dec_digits(d[3] as nat))
    }
}

fn port_from(hi: u8, lo: u8) -> (p: u16)
    ensures
        p == be_u16(hi, lo),
{
    (hi as u16) * 256 + (lo as u16)
}

/// Reads the target host and port of a `CONNECT` request.
pub fn parse_connect_request(data: &[u8]) -> (r: Result<(String, u16), Error>)
    ensures
        match r {
            Ok((h, p)) => spec_parse_connect(data@) == Ok::<(Seq<char>, u16), Seq<char>>((h@, p)),
            Err(e) => e matches Error::Parse(m)
                && spec_parse_connect(data@) == Err::<(Seq<char>, u16), Seq<char>>(m@),
        },
{
    let n = data.len();
    if n < 4 || data[0] != SOCKS5_VERSION || data[1] != CMD_CONNECT {
        return Err(Error::Parse("Invalid SOCKS5 connect request".to_owned()));
    }
    let atyp = data[3];
    if atyp == ATYP_IPV4 {
        if n < 10 {
            return Err(Error::Parse("Too short for IPv4".to_owned()));
        }
        let host = ipv4_to_string(&data[4..8]);
        Ok((host, port_from(data[8], data[9])))
    } else if atyp == ATYP_IPV6 {
        if n < 22 {
            return Err(Error::Parse("Too short for IPv6".to_owned()));
        }
        let host = ipv6_to_string(&data[4..20]);
        Ok((host, port_from(data[20], data[21])))
    } else if atyp == ATYP_DOMAIN {
        if n < 5 {
            return Err(Error::Parse("Too short for domain".to_owned()));
        }
        let len = data[4] as usize;
        if n < 5 + len + 2 {
            return Err(Error::Parse("Too short for domain".to_owned()));
        }
        let host = utf8_lossy(&data[5..5 + len]);
        Ok((host, port_from(data[5 + len], data[5 + len + 1])))
    } else {
        let mut m = "Unknown address type: ".to_owned();
        crate::text::push_decimal(&mut m, atyp as u64);
        Err(Error::Parse(m))
    }
}

/// A reply to a `CONNECT` request: success, or "connection refused", each
/// with an empty IPv4 bound address.
pub open spec fn spec_connect_reply(success: bool) -> Seq<u8> {
    seq![SOCKS5_VERSION, if success { 0x00u8 } else { 0x05u8 }, 0x00, ATYP_IPV4, 0, 0, 0, 0, 0, 0]
}

/// Encodes the reply to a `CONNECT` request.
pub fn connect_reply(success: bool) -> (r: Vec<u8>)
    ensures
        r@ == spec_connect_reply(success),
{
    let mut r: Vec<u8> = Vec::new();
    r.push(SOCKS5_VERSION);
    r.push(if success { 0x00u8 } else { 0x05u8 });
    r.push(0x00);
    r.push(ATYP_IPV4);
    r.push(0);
    r.push(0);
    r.push(0);
    r.push(0);
    r.push(0);
    r.push(0);
    proof {
        assert(r@ =~= spec_connect_reply(success));
    }
    r
}

/// Where a client session stands.
#[derive(Debug, Clone, PartialEq, Eq, Structural)]
pub enum SessionState {
    AwaitGreeting,
    AwaitRequest,
    Connecting,
    Relaying,
    Closed,
}

/// What the session asks its driver to do next.
#[derive(Debug)]
pub enum SessionAction {
    /// Write these bytes to the client and keep reading.
    Reply(Vec<u8>),
    /// Open a tunnel to this target through the selected node.
    Connect(String, u16),
    /// Write these bytes, then copy data both ways until either side ends.
    ReplyAndRelay(Vec<u8>),
    /// Write these bytes, then end the session normally, without an error.
    ReplyAndClose(Vec<u8>),
    /// End the session with this error.
    Close(Error),
}

/// A client session of the local SOCKS5 proxy.
pub struct Socks5Session {
    pub state: SessionState,
}

impl Socks5Session {
    pub fn new() -> (s: Self)
        ensures
            s.state == SessionState::AwaitGreeting,
    {
        Socks5Session { state: SessionState::AwaitGreeting }
    }

    /// Handles bytes read from the client: the greeting is answered, a
    /// `CONNECT` request leads to a connection attempt, anything else that
    /// is refused closes the session.
    pub fn on_client_data(&mut self, data: &[u8]) -> (a: SessionAction)
        ensures
            old(self).state == SessionState::AwaitGreeting ==> {
                if spec_greeting_ok(data@) {
                    &&& final(self).state == SessionState::AwaitRequest
                    &&& a matches SessionAction::Reply(r) && r@ == seq![SOCKS5_VERSION, AUTH_NONE]
                } else {
                    &&& final(self).state == SessionState::Closed
                    &&& a matches SessionAction::Close(e) && e matches Error::Parse(m)
                        && m@ == "Invalid SOCKS5 auth negotiation"@
                }
            },
            old(self).state == SessionState::AwaitRequest ==> match spec_parse_connect(data@) {
                Ok((h, p)) => {
                    &&& final(self).state == SessionState::Connecting
                    &&& a matches SessionAction::Connect(ah, ap) && ah@ == h && ap == p
                },
                Err(m) => {
                    &&& final(self).state == SessionState::Closed
                    &&& a matches SessionAction::Close(e) && e matches Error::Parse(em) && em@ == m
                },
            },
            old(self).state != SessionState::AwaitGreeting
                && old(self).state != SessionState::AwaitRequest ==> {
                &&& final(self).state == SessionState::Closed
                &&& a matches SessionAction::Close(e) && e matches Error::Custom(m) && m@ == "Unexpected client data"@
            },
    {
        match self.state {
            SessionState::AwaitGreeting => match check_greeting(data) {
                Ok(()) => {
                    self.state = SessionState::AwaitRequest;
                    SessionAction::Reply(greeting_reply())
                },
                Err(e) => {
                    self.state = SessionState::Closed;
                    SessionAction::Close(e)
                },
            },
            SessionState::AwaitRequest => match parse_connect_request(data) {
                Ok((h, p)) => {
                    self.state = SessionState::Connecting;
                    SessionAction::Connect(h, p)
                },
                Err(e) => {
                    self.state = SessionState::Closed;
                    SessionAction::Close(e)
                },
            },
            _ => {
                self.state = SessionState::Closed;
                SessionAction::Close(Error::Custom("Unexpected client data".to_owned()))
            },
        }
    }

    /// Handles the outcome of the connection attempt: success is reported
    /// and relaying starts; a failure is reported to the client as
    /// "connection refused" and the session then ends without an error (the
    /// failure itself goes no further).
    pub fn on_connect_result(&mut self, result: Result<(), Error>) -> (a: SessionAction)
        requires
            old(self).state == SessionState::Connecting,
        ensures
            match result {
                Ok(()) => {
                    &&& final(self).state == SessionState::Relaying
                    &&& a matches SessionAction::ReplyAndRelay(r) && r@ == spec_connect_reply(true)
                },
                Err(_) => {
                    &&& final(self).state == SessionState::Closed
                    &&& a matches SessionAction::ReplyAndClose(r) && r@ == spec_connect_reply(false)
                },
            },
    {
        match result {
            Ok(()) => {
                self.state = SessionState::Relaying;
                SessionAction::ReplyAndRelay(connect_reply(true))
            },
            Err(_) => {
                self.state = SessionState::Closed;
                SessionAction::ReplyAndClose(connect_reply(false))
            },
        }
    }
}

} // verus!

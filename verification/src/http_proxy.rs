//! The local HTTP proxy's handling of a request: only `CONNECT` tunnels are
//! served, to the authority named in the request line.

use vstd::prelude::*;
use crate::ascii::{eq_ignore_ascii_case, str_eq_ignore_ascii_case};
use crate::error::Error;
use crate::net::{parse_authority, spec_parse_authority};
use crate::text::{spec_words, split_whitespace};

verus! {

/// The reply to a request line that is not `METHOD TARGET VERSION`.
pub const BAD_REQUEST_REPLY: &'static str = "HTTP/1.1 400 Bad Request\r\n\r\n";

/// The reply to a method other than `CONNECT`.
pub const METHOD_NOT_ALLOWED_REPLY: &'static str = "HTTP/1.1 405 Method Not Allowed\r\n\r\n";

/// The reply once the tunnel to the target is open.
pub const ESTABLISHED_REPLY: &'static str = "HTTP/1.1 200 Connection established\r\n\r\n";

/// The reply when the target could not be reached through the node.
pub const BAD_GATEWAY_REPLY: &'static str = "HTTP/1.1 502 Bad Gateway\r\nContent-Length: 0\r\n\r\n";

/// Why a request is refused, with the reply owed to the client if any.
pub struct HttpRefusal {
    pub reply: Option<&'static str>,
    pub error: Error,
}

/// The outcome of reading a request line.
pub enum ConnectDecision {
    /// Open a tunnel to this host and port.
    Tunnel(Seq<char>, u16),
    /// Fewer than three words: reply 400.
    BadRequestLine,
    /// A method other than `CONNECT` (compared without case): reply 405.
    NotConnect(Seq<char>),
    /// The authority does not parse; no reply is sent.
    BadAuthority(Seq<char>),
}

/// What the proxy does with a request line. (`str::to_uppercase`, which the
/// method is compared under, agrees with ASCII case folding for `CONNECT`.)
pub open spec fn spec_connect_decision(line: Seq<char>) -> ConnectDecision {
    let words = spec_words(line);
    if words.len() < 3 {
        ConnectDecision::BadRequestLine
    } else if !eq_ignore_ascii_case(words[0], "CONNECT"@) {
        ConnectDecision::NotConnect(words[0])
    } else {
        match spec_parse_authority(words[1]) {
            Ok((h, p)) => ConnectDecision::Tunnel(h, p),
            Err(m) => ConnectDecision::BadAuthority(m),
        }
    }
}

/// Reads the target of a `CONNECT` request line, or says how the request
/// is refused.
pub fn connect_target(request_line: &str) -> (r: Result<(String, u16), HttpRefusal>)
    ensures
        match spec_connect_decision(request_line@) {
            ConnectDecision::Tunnel(h, p) => {
                &&& r matches Ok((host, port))
                &&& host@ == h
                &&& port == p
            },
            ConnectDecision::BadRequestLine => {
                &&& r matches Err(f)
                &&& f.reply == Some(BAD_REQUEST_REPLY)
                &&& f.error matches Error::Parse(m)
                &&& m@ == "Invalid HTTP request line"@
            },
            ConnectDecision::NotConnect(method) => {
                &&& r matches Err(f)
                &&& f.reply == Some(METHOD_NOT_ALLOWED_REPLY)
                &&& f.error matches Error::UnsupportedProtocol(m)
                &&& m@ == "HTTP proxy only supports CONNECT, got "@ + method
            },
            ConnectDecision::BadAuthority(msg) => {
                &&& r matches Err(f)
                &&& f.reply is None
                &&& f.error matches Error::Parse(m)
                &&& m@ == msg
            },
        },
{
    let parts = split_whitespace(request_line);
    if parts.len() < 3 {
        return Err(HttpRefusal {
            reply: Some(BAD_REQUEST_REPLY),
            error: Error::Parse("Invalid HTTP request line".to_owned()),
        });
    }
    proof {
        assert(parts@[0]@ == spec_words(request_line@)[0]);
        assert(parts@[1]@ == spec_words(request_line@)[1]);
    }
    if !str_eq_ignore_ascii_case(parts[0].as_str(), "CONNECT") {
        let mut m = "HTTP proxy only supports CONNECT, got ".to_owned();
        m.append(parts[0].as_str());
        return Err(HttpRefusal { reply: Some(METHOD_NOT_ALLOWED_REPLY), error: Error::UnsupportedProtocol(m) });
    }
    match parse_authority(parts[1].as_str()) {
        Ok((h, p)) => Ok((h, p)),
        Err(e) => Err(HttpRefusal { reply: None, error: e }),
    }
}

/// The reply to a `CONNECT` once the outcome of dialing the target is known.
pub fn connect_reply(connected: bool) -> (s: &'static str)
    ensures
        s == (if connected { ESTABLISHED_REPLY } else { BAD_GATEWAY_REPLY }),
{
    if connected { ESTABLISHED_REPLY } else { BAD_GATEWAY_REPLY }
}

} // verus!

//! Decisions of the proxy engine's transports: which tunnel a node uses,
//! the requests that open the HTTP-based tunnels, the REALITY server key,
//! gRPC message framing on the receive side, the receive buffer, and the
//! servers' answers to a connect request.

use vstd::prelude::*;
use crate::error::Error;
use crate::models::{Protocol, ProxyNode, Security, Transport, XhttpExtra};
use crate::wire::be32;
use vstd::string::*;
use vstd::utf8::encode_utf8;
use crate::text::dec_digits;

verus! {

/// XHTTP operating mode.
#[derive(Debug, Clone, Copy, PartialEq, Eq, Structural)]
pub enum XhttpMode {
    /// HTTP/1.1 long-polling POST.
    Auto,
    /// HTTP/2 stream-up / packet-up mode.
    H2,
}

impl XhttpMode {
    /// HTTP/2 when the `extra` settings ask for `stream-up` or `packet-up`.
    pub fn from_extra(extra: Option<&XhttpExtra>) -> (m: XhttpMode)
        ensures
            m == (if extra matches Some(e) && e.spec_prefers_h2() { XhttpMode::H2 } else { XhttpMode::Auto }),
    {
        let h2 = match extra {
            Some(e) => e.prefers_h2(),
            None => false,
        };
        if h2 { XhttpMode::H2 } else { XhttpMode::Auto }
    }
}

/// The payload of one received gRPC data frame: the message after the
/// five-byte prefix, when the frame holds the whole message; a frame that
/// is too short yields nothing.
pub open spec fn spec_grpc_payload(data: Seq<u8>) -> Option<Seq<u8>> {
    if data.len() >= 5 {
        let len = data[1] as int * 0x100_0000 + data[2] as int * 0x1_0000 + data[3] as int * 256 + data[4] as int;
        if data.len() >= 5 + len {
            Some(data.subrange(5, 5 + len))
        } else {
            None
        }
    } else {
        None
    }
}

/// Extracts the message of a received gRPC data frame.
pub fn grpc_payload(data: &[u8]) -> (r: Option<Vec<u8>>)
    ensures
        match r {
            Some(v) => spec_grpc_payload(data@) == Some(v@),
            None => spec_grpc_payload(data@) is None,
        },
{
    let n = data.len();
    if n < 5 {
        return None;
    }
    let len: u64 = (data[1] as u64) * 0x100_0000 + (data[2] as u64) * 0x1_0000 + (data[3] as u64) * 256
        + (data[4] as u64);
    if (n as u64) < 5 + len {
        return None;
    }
    let end = 5 + len as usize;
    let mut v: Vec<u8> = Vec::new();
    crate::wire::append_bytes(&mut v, &data[5..end]);
    Some(v)
}

/// Received bytes not yet handed to the reader.
pub struct RxBuffer {
    pub data: Vec<u8>,
}

impl RxBuffer {
    pub fn new() -> (b: Self)
        ensures
            b.data@ == Seq::<u8>::empty(),
    {
        RxBuffer { data: Vec::new() }
    }

    pub fn is_empty(&self) -> (r: bool)
        ensures
            r == (self.data@.len() == 0),
    {
        self.data.len() == 0
    }

    /// Queues received bytes after those already waiting.
    pub fn extend(&mut self, bytes: &[u8])
        ensures
            final(self).data@ == old(self).data@ + bytes@,
    {
        crate::wire::append_bytes(&mut self.data, bytes);
    }

    /// Hands out as many waiting bytes as fit in `room`, oldest first.
    pub fn take(&mut self, room: usize) -> (out: Vec<u8>)
        ensures
            out@.len() == if old(self).data@.len() < room { old(self).data@.len() } else { room as nat },
            out@ + final(self).data@ == old(self).data@,
    {
        let n = if self.data.len() < room { self.data.len() } else { room };
        let mut out: Vec<u8> = Vec::new();
        crate::wire::append_bytes(&mut out, &self.data.as_slice()[0..n]);
        let mut rest: Vec<u8> = Vec::new();
        let len = self.data.len();
        crate::wire::append_bytes(&mut rest, &self.data.as_slice()[n..len]);
        proof {
            assert(out@ + rest@ =~= self.data@);
        }
        self.data = rest;
        out
    }
}

/// `s` without its leading `/` characters.
pub open spec fn trim_leading_slashes(s: Seq<char>) -> Seq<char> {
    crate::text::spec_trim_start(s, '/')
}

/// Removes the leading `/` characters, as `trim_start_matches('/')` does.
pub fn trim_slashes(s: &str) -> (r: String)
    ensures
        r@ == trim_leading_slashes(s@),
{
    crate::text::trim_start_char(s, '/')
}

fn concat3(a: &str, b: &str, c: &str) -> (r: String)
    ensures
        r@ == a@ + b@ + c@,
{
    let mut r = a.to_owned();
    r.append(b);
    r.append(c);
    r
}

/// `https://{host}/{path without leading slashes}`: the URI of gRPC,
/// WebSocket and XHTTP/1.1 requests.
pub open spec fn spec_https_uri(host: Seq<char>, path: Seq<char>) -> Seq<char> {
    "https://"@ + host + "/"@ + trim_leading_slashes(path)
}

pub fn https_uri(host: &str, path: &str) -> (r: String)
    ensures
        r@ == spec_https_uri(host@, path@),
{
    let p = trim_slashes(path);
    let mut r = concat3("https://", host, "/");
    r.append(p.as_str());
    r
}

/// The URI of an XHTTP/2 request: the path without leading slashes, or
/// `/` when nothing is left, after `https://{host}/`.
pub open spec fn spec_xhttp2_uri(host: Seq<char>, path: Seq<char>) -> Seq<char> {
    let p = trim_leading_slashes(path);
    "https://"@ + host + "/"@ + if p.len() == 0 { "/"@ } else { p }
}

pub fn xhttp2_uri(host: &str, path: &str) -> (r: String)
    ensures
        r@ == spec_xhttp2_uri(host@, path@),
{
    let p = trim_slashes(path);
    let mut r = concat3("https://", host, "/");
    if p.as_str().unicode_len() == 0 {
        r.append("/");
    } else {
        r.append(p.as_str());
    }
    r
}

/// The path of the SplitHTTP downstream request.
pub fn splithttp_down_path(path: &str) -> (r: String)
    ensures
        r@ == path@ + "/down"@,
{
    let mut r = path.to_owned();
    r.append("/down");
    r
}

/// How a node's tunnel is opened.
#[derive(Debug)]
pub enum ConnectPlan {
    /// TLS with ALPN h2, then one gRPC stream at `path`.
    Grpc { sni: String, path: String },
    /// A TLS session with this server name.
    Tls { sni: String },
    /// A REALITY session with this server name.
    Reality { sni: String },
}

/// The server name a node presents: its SNI, else its server.
pub open spec fn spec_sni(node: ProxyNode) -> Seq<char> {
    match node.sni {
        Some(s) => s@,
        None => node.server@,
    }
}

/// The gRPC tunnel path: `/{service}/Tunnel`, with a default service name.
pub open spec fn spec_grpc_path(node: ProxyNode, default_service: Seq<char>) -> Seq<char> {
    "/"@ + match node.service_name {
        Some(s) => s@,
        None => default_service,
    } + "/Tunnel"@
}

fn node_sni(node: &ProxyNode) -> (s: String)
    ensures
        s@ == spec_sni(*node),
{
    match &node.sni {
        Some(s) => s.clone(),
        None => node.server.clone(),
    }
}

fn grpc_path(node: &ProxyNode, default_service: &str) -> (p: String)
    ensures
        p@ == spec_grpc_path(*node, default_service@),
{
    match &node.service_name {
        Some(s) => concat3("/", s.as_str(), "/Tunnel"),
        None => concat3("/", default_service, "/Tunnel"),
    }
}

/// Trojan runs only over gRPC here, with the service `TrojanGRPC` unless
/// the node names one.
pub fn trojan_connect_plan(node: &ProxyNode) -> (r: Result<ConnectPlan, Error>)
    ensures
        node.transport == Transport::Grpc ==> (r matches Ok(ConnectPlan::Grpc { sni, path })
            && sni@ == spec_sni(*node) && path@ == spec_grpc_path(*node, "TrojanGRPC"@)),
        node.transport != Transport::Grpc ==> (r matches Err(Error::UnsupportedProtocol(m))
            && m@ == "Trojan transport "@ + node.transport.spec_debug_name() + " not yet supported"@),
{
    match node.transport {
        Transport::Grpc => Ok(ConnectPlan::Grpc { sni: node_sni(node), path: grpc_path(node, "TrojanGRPC") }),
        _ => Err(Error::UnsupportedProtocol(concat3("Trojan transport ", node.transport.debug_name(), " not yet supported"))),
    }
}

/// VLESS runs over gRPC (service `VLESS` unless the node names one), or
/// else over TLS or REALITY; plaintext and REALITY-PSK are refused.
pub fn vless_connect_plan(node: &ProxyNode) -> (r: Result<ConnectPlan, Error>)
    ensures
        node.transport == Transport::Grpc ==> (r matches Ok(ConnectPlan::Grpc { sni, path })
            && sni@ == spec_sni(*node) && path@ == spec_grpc_path(*node, "VLESS"@)),
        node.transport != Transport::Grpc ==> match node.security {
            Security::Reality => r matches Ok(ConnectPlan::Reality { sni }) && sni@ == spec_sni(*node),
            Security::Tls => r matches Ok(ConnectPlan::Tls { sni }) && sni@ == spec_sni(*node),
            Security::Plain => r matches Err(Error::UnsupportedProtocol(m))
                && m@ == "Plaintext VLESS not supported"@,
            Security::RealityPsk => r matches Err(Error::UnsupportedProtocol(m)) && m@ == "RealityPsk"@,
        },
{
    match node.transport {
        Transport::Grpc => Ok(ConnectPlan::Grpc { sni: node_sni(node), path: grpc_path(node, "VLESS") }),
        _ => match node.security {
            Security::Reality => Ok(ConnectPlan::Reality { sni: node_sni(node) }),
            Security::Tls => Ok(ConnectPlan::Tls { sni: node_sni(node) }),
            Security::Plain => Err(Error::UnsupportedProtocol("Plaintext VLESS not supported".to_owned())),
            Security::RealityPsk => Err(Error::UnsupportedProtocol(node.security.debug_name().to_owned())),
        },
    }
}

/// What `base64`'s `URL_SAFE_NO_PAD` engine decodes from a text's bytes,
/// or `None` where it refuses them.
pub uninterp spec fn spec_base64_url_decode(s: Seq<u8>) -> Option<Seq<u8>>;

/// Decodes URL-safe base64 without padding with `base64::Engine::decode`
/// on `URL_SAFE_NO_PAD`; which texts decode to which bytes is named, not
/// stated, and a refusal carries the error's text.
#[verifier::external_body]
fn base64_url_decode(s: &str) -> (r: Result<Vec<u8>, String>)
    ensures
        match r {
            Ok(v) => spec_base64_url_decode(s.spec_bytes()) == Some(v@),
            Err(_) => spec_base64_url_decode(s.spec_bytes()) is None,
        },
{
    match base64::Engine::decode(&base64::engine::general_purpose::URL_SAFE_NO_PAD, s) {
        Ok(v) => Ok(v),
        Err(e) => Err(e.to_string()),
    }
}

/// The REALITY server's public key: the node's `pbk`, URL-safe base64
/// without padding, which must decode to 32 bytes.
pub fn reality_server_key(node: &ProxyNode) -> (r: Result<Vec<u8>, Error>)
    ensures
        match node.public_key {
            None => r matches Err(Error::Parse(m)) && m@ == "Reality requires public_key (pbk)"@,
            Some(k) => match spec_base64_url_decode(encode_utf8(k@)) {
                None => r matches Err(Error::Parse(m)) && exists|e: Seq<char>| m@ == "Invalid pbk base64: "@ + e,
                Some(b) => if b.len() == 32 {
                    r matches Ok(v) && v@ == b
                } else {
                    r matches Err(Error::Parse(m)) && m@ == "Invalid pbk length: "@ + dec_digits(b.len())
                },
            },
        },
{
    let k = match &node.public_key {
        Some(k) => k,
        None => return Err(Error::Parse("Reality requires public_key (pbk)".to_owned())),
    };
    match base64_url_decode(k.as_str()) {
        Ok(b) => {
            if b.len() == 32 {
                Ok(b)
            } else {
                let mut m = "Invalid pbk length: ".to_owned();
                crate::text::push_decimal(&mut m, b.len() as u64);
                Err(Error::Parse(m))
            }
        },
        Err(e) => {
            let mut m = "Invalid pbk base64: ".to_owned();
            m.append(e.as_str());
            proof {
                assert(m@ == "Invalid pbk base64: "@ + e@);
            }
            Err(Error::Parse(m))
        },
    }
}

/// The browser-like user agent of the HTTP-based transports.
pub const BROWSER_USER_AGENT: &'static str = "Mozilla/5.0 (Windows NT 10.0; Win64; x64)";

/// The request that opens an HTTP-based tunnel: its method, URI and
/// headers in the order they are sent, and for XHTTP the length of the
/// random `X-Padding` header that goes before the node's own headers.
pub struct HttpRequestPlan {
    pub method: &'static str,
    pub uri: String,
    pub headers: Vec<(String, String)>,
    pub padding_len: Option<usize>,
}

/// The text of a list of headers.
pub open spec fn headers_view(h: Seq<(String, String)>) -> Seq<(Seq<char>, Seq<char>)> {
    h.map_values(|p: (String, String)| (p.0@, p.1@))
}

/// The headers of the gRPC tunnel request.
pub open spec fn spec_grpc_headers() -> Seq<(Seq<char>, Seq<char>)> {
    seq![("content-type"@, "application/grpc"@), ("te"@, "trailers"@), ("user-agent"@, "grpc-go/1.62.0"@)]
}

/// The headers of the WebSocket upgrade request.
pub open spec fn spec_ws_headers(host: Seq<char>) -> Seq<(Seq<char>, Seq<char>)> {
    seq![("Host"@, host), ("User-Agent"@, BROWSER_USER_AGENT@)]
}

/// The headers of an XHTTP request, before the node's own.
pub open spec fn spec_xhttp_headers(host: Seq<char>) -> Seq<(Seq<char>, Seq<char>)> {
    seq![
        ("Host"@, host),
        ("User-Agent"@, BROWSER_USER_AGENT@),
        ("Transfer-Encoding"@, "chunked"@),
        ("Accept"@, "*/*"@),
        ("Accept-Language"@, "en-US,en;q=0.9"@),
    ]
}

/// The headers of an XHTTP/2 request, before the node's own.
pub open spec fn spec_xhttp2_headers(host: Seq<char>) -> Seq<(Seq<char>, Seq<char>)> {
    seq![
        ("Host"@, host),
        ("User-Agent"@, BROWSER_USER_AGENT@),
        ("Content-Type"@, "application/octet-stream"@),
        ("Accept"@, "*/*"@),
        ("Accept-Language"@, "en-US,en;q=0.9"@),
    ]
}

fn push_header(h: &mut Vec<(String, String)>, name: &str, value: &str)
    ensures
        headers_view(final(h)@) == headers_view(old(h)@).push((name@, value@)),
{
    h.push((name.to_owned(), value.to_owned()));
    proof {
        assert(headers_view(h@) =~= headers_view(old(h)@).push((name@, value@)));
    }
}

fn append_headers(h: &mut Vec<(String, String)>, extra: &Vec<(String, String)>)
    ensures
        headers_view(final(h)@) == headers_view(old(h)@) + headers_view(extra@),
{
    let ghost before = headers_view(h@);
    let mut i: usize = 0;
    while i < extra.len()
        invariant
            i <= extra@.len(),
            headers_view(h@) == before + headers_view(extra@).take(i as int),
        decreases extra@.len() - i,
    {
        push_header(h, extra[i].0.as_str(), extra[i].1.as_str());
        i = i + 1;
        proof {
            assert(headers_view(extra@).take(i as int)
                =~= headers_view(extra@).take(i - 1).push((extra@[i - 1].0@, extra@[i - 1].1@)));
            assert(before + headers_view(extra@).take(i as int)
                =~= (before + headers_view(extra@).take(i - 1)).push((extra@[i - 1].0@, extra@[i - 1].1@)));
        }
    }
    proof {
        assert(headers_view(extra@).take(extra@.len() as int) =~= headers_view(extra@));
    }
}

/// The gRPC tunnel request: `POST https://{sni}/{path}` over HTTP/2.
pub fn grpc_request(sni: &str, path: &str) -> (r: HttpRequestPlan)
    ensures
        r.method@ == "POST"@,
        r.uri@ == spec_https_uri(sni@, path@),
        headers_view(r.headers@) == spec_grpc_headers(),
        r.padding_len is None,
{
    let mut h: Vec<(String, String)> = Vec::new();
    push_header(&mut h, "content-type", "application/grpc");
    push_header(&mut h, "te", "trailers");
    push_header(&mut h, "user-agent", "grpc-go/1.62.0");
    proof {
        assert(headers_view(h@) =~= spec_grpc_headers());
    }
    HttpRequestPlan { method: "POST", uri: https_uri(sni, path), headers: h, padding_len: None }
}

/// The WebSocket upgrade request: `GET https://{host}/{path}`.
pub fn ws_request(host: &str, path: &str) -> (r: HttpRequestPlan)
    ensures
        r.method@ == "GET"@,
        r.uri@ == spec_https_uri(host@, path@),
        headers_view(r.headers@) == spec_ws_headers(host@),
        r.padding_len is None,
{
    let mut h: Vec<(String, String)> = Vec::new();
    push_header(&mut h, "Host", host);
    push_header(&mut h, "User-Agent", BROWSER_USER_AGENT);
    proof {
        assert(headers_view(h@) =~= spec_ws_headers(host@));
    }
    HttpRequestPlan { method: "GET", uri: https_uri(host, path), headers: h, padding_len: None }
}

/// An XHTTP request over HTTP/1.1: `POST https://{host}/{path}` with a
/// chunked body, then the node's headers.
pub fn xhttp_request(host: &str, path: &str, extra: &Vec<(String, String)>, padding_len: Option<usize>) -> (r: HttpRequestPlan)
    ensures
        r.method@ == "POST"@,
        r.uri@ == spec_https_uri(host@, path@),
        headers_view(r.headers@) == spec_xhttp_headers(host@) + headers_view(extra@),
        r.padding_len == padding_len,
{
    let mut h: Vec<(String, String)> = Vec::new();
    push_header(&mut h, "Host", host);
    push_header(&mut h, "User-Agent", BROWSER_USER_AGENT);
    push_header(&mut h, "Transfer-Encoding", "chunked");
    push_header(&mut h, "Accept", "*/*");
    push_header(&mut h, "Accept-Language", "en-US,en;q=0.9");
    proof {
        assert(headers_view(h@) =~= spec_xhttp_headers(host@));
    }
    append_headers(&mut h, extra);
    HttpRequestPlan { method: "POST", uri: https_uri(host, path), headers: h, padding_len }
}

/// An XHTTP/2 request: `POST https://{host}/{path}` (`/` for an empty
/// path) with an octet-stream body, then the node's headers.
pub fn xhttp2_request(host: &str, path: &str, extra: &Vec<(String, String)>) -> (r: HttpRequestPlan)
    ensures
        r.method@ == "POST"@,
        r.uri@ == spec_xhttp2_uri(host@, path@),
        headers_view(r.headers@) == spec_xhttp2_headers(host@) + headers_view(extra@),
        r.padding_len is None,
{
    let mut h: Vec<(String, String)> = Vec::new();
    push_header(&mut h, "Host", host);
    push_header(&mut h, "User-Agent", BROWSER_USER_AGENT);
    push_header(&mut h, "Content-Type", "application/octet-stream");
    push_header(&mut h, "Accept", "*/*");
    push_header(&mut h, "Accept-Language", "en-US,en;q=0.9");
    proof {
        assert(headers_view(h@) =~= spec_xhttp2_headers(host@));
    }
    append_headers(&mut h, extra);
    HttpRequestPlan { method: "POST", uri: xhttp2_uri(host, path), headers: h, padding_len: None }
}

/// The two XHTTP requests of a SplitHTTP tunnel: the upload at `path` and
/// the download at `path` followed by `/down`, neither padded.
pub fn splithttp_requests(host: &str, path: &str, extra: &Vec<(String, String)>) -> (r: (HttpRequestPlan, HttpRequestPlan))
    ensures
        r.0.method@ == "POST"@ && r.1.method@ == "POST"@,
        r.0.uri@ == spec_https_uri(host@, path@),
        r.1.uri@ == spec_https_uri(host@, path@ + "/down"@),
        headers_view(r.0.headers@) == spec_xhttp_headers(host@) + headers_view(extra@),
        headers_view(r.1.headers@) == spec_xhttp_headers(host@) + headers_view(extra@),
        r.0.padding_len is None && r.1.padding_len is None,
{
    let up = xhttp_request(host, path, extra, None);
    let down_path = splithttp_down_path(path);
    let down = xhttp_request(host, down_path.as_str(), extra, None);
    (up, down)
}

/// An XHTTP server's answer opens the tunnel when its status is
/// informational or successful (100 to 299).
pub fn xhttp_status_accepted(status: u16) -> (r: bool)
    ensures
        r == (100 <= status && status < 300),
{
    100 <= status && status < 300
}

/// Which client carries a node's traffic.
#[derive(Debug, Clone, Copy, PartialEq, Eq, Structural)]
pub enum RemoteKind {
    Trojan,
    Vless,
}

/// Trojan and VLESS nodes can carry traffic; other protocols are refused
/// with their `{:?}` name.
pub fn remote_kind(node: &ProxyNode) -> (r: Result<RemoteKind, Error>)
    ensures
        node.protocol == Protocol::Trojan ==> r == Ok::<RemoteKind, Error>(RemoteKind::Trojan),
        node.protocol == Protocol::Vless ==> r == Ok::<RemoteKind, Error>(RemoteKind::Vless),
        node.protocol != Protocol::Trojan && node.protocol != Protocol::Vless ==> (r matches Err(
            Error::UnsupportedProtocol(m),
        ) && m@ == node.protocol.spec_debug_name()),
{
    match node.protocol {
        Protocol::Trojan => Ok(RemoteKind::Trojan),
        Protocol::Vless => Ok(RemoteKind::Vless),
        _ => Err(Error::UnsupportedProtocol(node.protocol.debug_name().to_owned())),
    }
}

/// Trojan uses the gRPC framing of its request on the gRPC transport only.
pub fn trojan_request_is_framed(node: &ProxyNode) -> (r: bool)
    ensures
        r == (node.transport == Transport::Grpc),
{
    match node.transport {
        Transport::Grpc => true,
        _ => false,
    }
}

/// A Trojan server accepts a tunnel with a zero status byte.
pub fn check_trojan_response(status: u8) -> (r: Result<(), Error>)
    ensures
        r is Ok <==> status == 0,
        r matches Err(e) ==> e matches Error::Custom(m)
            && m@ == "Trojan server rejected connection: status="@ + crate::text::dec_digits(status as nat),
{
    if status != 0 {
        let mut m = "Trojan server rejected connection: status=".to_owned();
        crate::text::push_decimal(&mut m, status as u64);
        return Err(Error::Custom(m));
    }
    Ok(())
}

/// A VLESS server answers with a version byte and a status byte, zero for
/// success. When the stream ends after fewer than two bytes, the first
/// byte (zero if none arrived) is taken as the status.
pub fn check_vless_response(response: &[u8], complete: bool) -> (r: Result<(), Error>)
    requires
        response@.len() == 2,
    ensures
        complete ==> (r is Ok <==> response@[1] == 0),
        !complete ==> (r is Ok <==> response@[0] == 0),
        complete ==> (r matches Err(e) ==> e matches Error::Custom(m)
            && m@ == "VLESS server rejected connection: version="@ + dec_digits(response@[0] as nat) + " status="@
            + dec_digits(response@[1] as nat)),
        !complete ==> (r matches Err(e) ==> e matches Error::Custom(m)
            && m@ == "VLESS server rejected connection: status="@ + dec_digits(response@[0] as nat)),
{
    if complete {
        if response[1] != 0 {
            let mut m = "VLESS server rejected connection: version=".to_owned();
            crate::text::push_decimal(&mut m, response[0] as u64);
            m.append(" status=");
            crate::text::push_decimal(&mut m, response[1] as u64);
            return Err(Error::Custom(m));
        }
    } else {
        if response[0] != 0 {
            let mut m = "VLESS server rejected connection: status=".to_owned();
            crate::text::push_decimal(&mut m, response[0] as u64);
            return Err(Error::Custom(m));
        }
    }
    Ok(())
}

} // verus!

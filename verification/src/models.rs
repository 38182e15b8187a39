//! Proxy node and subscription data model.

use vstd::prelude::*;
use crate::text::str_eq;

verus! {

/// Proxy protocol of a node.
#[derive(Debug, Clone, Copy, PartialEq, Eq, Hash, Structural)]
pub enum Protocol {
    Vless,
    Vmess,
    Trojan,
    Shadowsocks,
    Hysteria2,
    Tuic,
    WireGuard,
    AnyTls,
}

/// Stream transport of a node.
#[derive(Debug, Clone, Copy, PartialEq, Eq, Hash, Structural)]
pub enum Transport {
    Tcp,
    Ws,
    Grpc,
    H2,
    Xhttp,
    Splithttp,
    Kcp,
}

/// Transport security of a node.
#[derive(Debug, Clone, Copy, PartialEq, Eq, Hash, Structural)]
pub enum Security {
    Plain,
    Tls,
    Reality,
    RealityPsk,
}

/// Export format for a list of nodes.
#[derive(Debug, Clone, Copy, PartialEq, Eq, Hash, Structural)]
pub enum OutputFormat {
    Clash,
    SingBox,
    V2Ray,
    Surge,
    QuantumultX,
    Loon,
    Raw,
}

/// Detected format of a subscription body.
#[derive(Debug, Clone, Copy, PartialEq, Eq, Hash, Structural)]
pub enum SubscriptionFormat {
    Base64VlessList,
    ClashYaml,
    SingBoxJson,
    RawUriList,
    Unknown,
}

impl Protocol {
    /// The snake_case name of the protocol.
    pub open spec fn spec_name(self) -> Seq<char> {
        match self {
            Protocol::Vless => "vless"@,
            Protocol::Vmess => "vmess"@,
            Protocol::Trojan => "trojan"@,
            Protocol::Shadowsocks => "shadowsocks"@,
            Protocol::Hysteria2 => "hysteria2"@,
            Protocol::Tuic => "tuic"@,
            Protocol::WireGuard => "wire_guard"@,
            Protocol::AnyTls => "any_tls"@,
        }
    }

    pub open spec fn spec_from_name(s: Seq<char>) -> Option<Protocol> {
        if s == "vless"@ { Some(Protocol::Vless) }
        else if s == "vmess"@ { Some(Protocol::Vmess) }
        else if s == "trojan"@ { Some(Protocol::Trojan) }
        else if s == "shadowsocks"@ { Some(Protocol::Shadowsocks) }
        else if s == "hysteria2"@ { Some(Protocol::Hysteria2) }
        else if s == "tuic"@ { Some(Protocol::Tuic) }
        else if s == "wire_guard"@ { Some(Protocol::WireGuard) }
        else if s == "any_tls"@ { Some(Protocol::AnyTls) }
        else { None }
    }

    pub fn name(&self) -> (s: &'static str)
        ensures
            s@ == self.spec_name(),
    {
        match self {
            Protocol::Vless => "vless",
            Protocol::Vmess => "vmess",
            Protocol::Trojan => "trojan",
            Protocol::Shadowsocks => "shadowsocks",
            Protocol::Hysteria2 => "hysteria2",
            Protocol::Tuic => "tuic",
            Protocol::WireGuard => "wire_guard",
            Protocol::AnyTls => "any_tls",
        }
    }

    /// The snake_case name, as an owned string.
    pub fn to_string(&self) -> (s: String)
        ensures
            s@ == self.spec_name(),
    {
        self.name().to_owned()
    }

    /// Parses a snake_case protocol name; any other text is refused.
    pub fn from_name(s: &str) -> (r: Option<Protocol>)
        ensures
            r == Protocol::spec_from_name(s@),
    {
        if str_eq(s, "vless") { Some(Protocol::Vless) }
        else if str_eq(s, "vmess") { Some(Protocol::Vmess) }
        else if str_eq(s, "trojan") { Some(Protocol::Trojan) }
        else if str_eq(s, "shadowsocks") { Some(Protocol::Shadowsocks) }
        else if str_eq(s, "hysteria2") { Some(Protocol::Hysteria2) }
        else if str_eq(s, "tuic") { Some(Protocol::Tuic) }
        else if str_eq(s, "wire_guard") { Some(Protocol::WireGuard) }
        else if str_eq(s, "any_tls") { Some(Protocol::AnyTls) }
        else { None }
    }
}

impl Transport {
    pub open spec fn spec_name(self) -> Seq<char> {
        match self {
            Transport::Tcp => "tcp"@,
            Transport::Ws => "ws"@,
            Transport::Grpc => "grpc"@,
            Transport::H2 => "h2"@,
            Transport::Xhttp => "xhttp"@,
            Transport::Splithttp => "splithttp"@,
            Transport::Kcp => "kcp"@,
        }
    }

    pub open spec fn spec_from_name(s: Seq<char>) -> Option<Transport> {
        if s == "tcp"@ { Some(Transport::Tcp) }
        else if s == "ws"@ { Some(Transport::Ws) }
        else if s == "grpc"@ { Some(Transport::Grpc) }
        else if s == "h2"@ { Some(Transport::H2) }
        else if s == "xhttp"@ { Some(Transport::Xhttp) }
        else if s == "splithttp"@ { Some(Transport::Splithttp) }
        else if s == "kcp"@ { Some(Transport::Kcp) }
        else { None }
    }

    pub fn name(&self) -> (s: &'static str)
        ensures
            s@ == self.spec_name(),
    {
        match self {
            Transport::Tcp => "tcp",
            Transport::Ws => "ws",
            Transport::Grpc => "grpc",
            Transport::H2 => "h2",
            Transport::Xhttp => "xhttp",
            Transport::Splithttp => "splithttp",
            Transport::Kcp => "kcp",
        }
    }

    pub fn to_string(&self) -> (s: String)
        ensures
            s@ == self.spec_name(),
    {
        self.name().to_owned()
    }

    pub fn from_name(s: &str) -> (r: Option<Transport>)
        ensures
            r == Transport::spec_from_name(s@),
    {
        if str_eq(s, "tcp") { Some(Transport::Tcp) }
        else if str_eq(s, "ws") { Some(Transport::Ws) }
        else if str_eq(s, "grpc") { Some(Transport::Grpc) }
        else if str_eq(s, "h2") { Some(Transport::H2) }
        else if str_eq(s, "xhttp") { Some(Transport::Xhttp) }
        else if str_eq(s, "splithttp") { Some(Transport::Splithttp) }
        else if str_eq(s, "kcp") { Some(Transport::Kcp) }
        else { None }
    }
}

impl Security {
    pub open spec fn spec_name(self) -> Seq<char> {
        match self {
            Security::Plain => "none"@,
            Security::Tls => "tls"@,
            Security::Reality => "reality"@,
            Security::RealityPsk => "reality_psk"@,
        }
    }

    pub open spec fn spec_from_name(s: Seq<char>) -> Option<Security> {
        if s == "none"@ { Some(Security::Plain) }
        else if s == "tls"@ { Some(Security::Tls) }
        else if s == "reality"@ { Some(Security::Reality) }
        else if s == "reality_psk"@ { Some(Security::RealityPsk) }
        else { None }
    }

    pub fn name(&self) -> (s: &'static str)
        ensures
            s@ == self.spec_name(),
    {
        match self {
            Security::Plain => "none",
            Security::Tls => "tls",
            Security::Reality => "reality",
            Security::RealityPsk => "reality_psk",
        }
    }

    pub fn to_string(&self) -> (s: String)
        ensures
            s@ == self.spec_name(),
    {
        self.name().to_owned()
    }

    pub fn from_name(s: &str) -> (r: Option<Security>)
        ensures
            r == Security::spec_from_name(s@),
    {
        if str_eq(s, "none") { Some(Security::Plain) }
        else if str_eq(s, "tls") { Some(Security::Tls) }
        else if str_eq(s, "reality") { Some(Security::Reality) }
        else if str_eq(s, "reality_psk") { Some(Security::RealityPsk) }
        else { None }
    }
}

impl OutputFormat {
    pub open spec fn spec_name(self) -> Seq<char> {
        match self {
            OutputFormat::Clash => "clash"@,
            OutputFormat::SingBox => "sing_box"@,
            OutputFormat::V2Ray => "v2_ray"@,
            OutputFormat::Surge => "surge"@,
            OutputFormat::QuantumultX => "quantumult_x"@,
            OutputFormat::Loon => "loon"@,
            OutputFormat::Raw => "raw"@,
        }
    }

    pub open spec fn spec_from_name(s: Seq<char>) -> Option<OutputFormat> {
        if s == "clash"@ { Some(OutputFormat::Clash) }
        else if s == "sing_box"@ { Some(OutputFormat::SingBox) }
        else if s == "v2_ray"@ { Some(OutputFormat::V2Ray) }
        else if s == "surge"@ { Some(OutputFormat::Surge) }
        else if s == "quantumult_x"@ { Some(OutputFormat::QuantumultX) }
        else if s == "loon"@ { Some(OutputFormat::Loon) }
        else if s == "raw"@ { Some(OutputFormat::Raw) }
        else { None }
    }

    pub fn name(&self) -> (s: &'static str)
        ensures
            s@ == self.spec_name(),
    {
        match self {
            OutputFormat::Clash => "clash",
            OutputFormat::SingBox => "sing_box",
            OutputFormat::V2Ray => "v2_ray",
            OutputFormat::Surge => "surge",
            OutputFormat::QuantumultX => "quantumult_x",
            OutputFormat::Loon => "loon",
            OutputFormat::Raw => "raw",
        }
    }

    pub fn to_string(&self) -> (s: String)
        ensures
            s@ == self.spec_name(),
    {
        self.name().to_owned()
    }

    pub fn from_name(s: &str) -> (r: Option<OutputFormat>)
        ensures
            r == OutputFormat::spec_from_name(s@),
    {
        if str_eq(s, "clash") { Some(OutputFormat::Clash) }
        else if str_eq(s, "sing_box") { Some(OutputFormat::SingBox) }
        else if str_eq(s, "v2_ray") { Some(OutputFormat::V2Ray) }
        else if str_eq(s, "surge") { Some(OutputFormat::Surge) }
        else if str_eq(s, "quantumult_x") { Some(OutputFormat::QuantumultX) }
        else if str_eq(s, "loon") { Some(OutputFormat::Loon) }
        else if str_eq(s, "raw") { Some(OutputFormat::Raw) }
        else { None }
    }
}

impl SubscriptionFormat {
    /// The human-readable name of the format.
    pub open spec fn spec_display(self) -> Seq<char> {
        match self {
            SubscriptionFormat::Base64VlessList => "Base64 URI List"@,
            SubscriptionFormat::ClashYaml => "Clash YAML"@,
            SubscriptionFormat::SingBoxJson => "sing-box JSON"@,
            SubscriptionFormat::RawUriList => "Raw URI List"@,
            SubscriptionFormat::Unknown => "Unknown"@,
        }
    }

    pub fn to_string(&self) -> (s: String)
        ensures
            s@ == self.spec_display(),
    {
        let t: &str = match self {
            SubscriptionFormat::Base64VlessList => "Base64 URI List",
            SubscriptionFormat::ClashYaml => "Clash YAML",
            SubscriptionFormat::SingBoxJson => "sing-box JSON",
            SubscriptionFormat::RawUriList => "Raw URI List",
            SubscriptionFormat::Unknown => "Unknown",
        };
        t.to_owned()
    }
}

impl Protocol {
    /// The name that `{:?}` prints.
    pub open spec fn spec_debug_name(self) -> Seq<char> {
        match self {
            Protocol::Vless => "Vless"@,
            Protocol::Vmess => "Vmess"@,
            Protocol::Trojan => "Trojan"@,
            Protocol::Shadowsocks => "Shadowsocks"@,
            Protocol::Hysteria2 => "Hysteria2"@,
            Protocol::Tuic => "Tuic"@,
            Protocol::WireGuard => "WireGuard"@,
            Protocol::AnyTls => "AnyTls"@,
        }
    }

    pub fn debug_name(&self) -> (s: &'static str)
        ensures
            s@ == self.spec_debug_name(),
    {
        match self {
            Protocol::Vless => "Vless",
            Protocol::Vmess => "Vmess",
            Protocol::Trojan => "Trojan",
            Protocol::Shadowsocks => "Shadowsocks",
            Protocol::Hysteria2 => "Hysteria2",
            Protocol::Tuic => "Tuic",
            Protocol::WireGuard => "WireGuard",
            Protocol::AnyTls => "AnyTls",
        }
    }
}

impl Transport {
    /// The name that `{:?}` prints.
    pub open spec fn spec_debug_name(self) -> Seq<char> {
        match self {
            Transport::Tcp => "Tcp"@,
            Transport::Ws => "Ws"@,
            Transport::Grpc => "Grpc"@,
            Transport::H2 => "H2"@,
            Transport::Xhttp => "Xhttp"@,
            Transport::Splithttp => "Splithttp"@,
            Transport::Kcp => "Kcp"@,
        }
    }

    pub fn debug_name(&self) -> (s: &'static str)
        ensures
            s@ == self.spec_debug_name(),
    {
        match self {
            Transport::Tcp => "Tcp",
            Transport::Ws => "Ws",
            Transport::Grpc => "Grpc",
            Transport::H2 => "H2",
            Transport::Xhttp => "Xhttp",
            Transport::Splithttp => "Splithttp",
            Transport::Kcp => "Kcp",
        }
    }
}

impl Security {
    /// The name that `{:?}` prints.
    pub open spec fn spec_debug_name(self) -> Seq<char> {
        match self {
            Security::Plain => "None"@,
            Security::Tls => "Tls"@,
            Security::Reality => "Reality"@,
            Security::RealityPsk => "RealityPsk"@,
        }
    }

    pub fn debug_name(&self) -> (s: &'static str)
        ensures
            s@ == self.spec_debug_name(),
    {
        match self {
            Security::Plain => "None",
            Security::Tls => "Tls",
            Security::Reality => "Reality",
            Security::RealityPsk => "RealityPsk",
        }
    }
}

/// Tuning for XHTTP/SplitHTTP transports carried by a subscription link.
#[derive(Debug, Clone, Default)]
pub struct XhttpExtra {
    pub mode: Option<String>,
    pub max_connections: Option<u32>,
    pub max_concurrent_uploads: Option<u32>,
    pub no_grpc_header: Option<bool>,
    pub x_padding_bytes: Option<String>,
    /// Extra HTTP headers, as name/value pairs.
    pub headers: Vec<(String, String)>,
    /// Fields of the raw `extra` blob not modelled above: name and JSON text.
    pub other: Vec<(String, String)>,
}

impl XhttpExtra {
    /// The XHTTP modes that run over HTTP/2.
    pub open spec fn spec_prefers_h2(&self) -> bool {
        match self.mode {
            Some(m) => m@ == "stream-up"@ || m@ == "packet-up"@,
            None => false,
        }
    }

    /// Whether the configured mode is `stream-up` or `packet-up`.
    pub fn prefers_h2(&self) -> (r: bool)
        ensures
            r == self.spec_prefers_h2(),
    {
        match &self.mode {
            Some(m) => str_eq(m.as_str(), "stream-up") || str_eq(m.as_str(), "packet-up"),
            None => false,
        }
    }
}

/// A proxy server parsed from a subscription.
#[derive(Debug, Clone)]
pub struct ProxyNode {
    pub protocol: Protocol,
    pub name: String,
    pub server: String,
    pub port: u16,
    pub uuid: Option<String>,
    pub password: Option<String>,
    pub alter_id: Option<u32>,
    pub encryption: Option<String>,
    pub transport: Transport,
    pub security: Security,
    pub flow: Option<String>,
    pub sni: Option<String>,
    pub fingerprint: Option<String>,
    pub public_key: Option<String>,
    pub short_id: Option<String>,
    pub spider_x: Option<String>,
    pub path: Option<String>,
    pub host: Option<String>,
    pub service_name: Option<String>,
    pub alpn: Option<Vec<String>>,
    pub extra: Option<XhttpExtra>,
    pub tags: Vec<String>,
    pub raw_uri: String,
}

/// `host:port` with the port in decimal.
pub open spec fn spec_host_port(host: Seq<char>, port: u16) -> Seq<char> {
    host + ":"@ + crate::text::dec_digits(port as nat)
}

impl ProxyNode {
    /// The server address as `server:port`.
    pub fn server_addr(&self) -> (s: String)
        ensures
            s@ == spec_host_port(self.server@, self.port),
    {
        let mut s = self.server.clone();
        s.push(':');
        crate::text::push_decimal(&mut s, self.port as u64);
        proof {
            reveal_strlit(":");
            assert(s@ =~= spec_host_port(self.server@, self.port));
        }
        s
    }
}

/// Provider metadata returned alongside a subscription.
#[derive(Debug, Clone)]
pub struct SubscriptionMetadata {
    pub profile_title: Option<String>,
    pub profile_update_interval_hours: Option<u64>,
    pub profile_web_page_url: Option<String>,
    pub announcement: Option<String>,
    /// Response headers, as name/value pairs.
    pub headers: Vec<(String, String)>,
}

impl Default for SubscriptionMetadata {
    fn default() -> (m: Self)
        ensures
            m.profile_title is None,
            m.profile_update_interval_hours is None,
            m.profile_web_page_url is None,
            m.announcement is None,
            m.headers@.len() == 0,
    {
        SubscriptionMetadata {
            profile_title: None,
            profile_update_interval_hours: None,
            profile_web_page_url: None,
            announcement: None,
            headers: Vec::new(),
        }
    }
}

/// A fetched subscription; times are Unix milliseconds.
#[derive(Debug, Clone)]
pub struct Subscription {
    pub id: u128,
    pub url: String,
    pub name: Option<String>,
    pub nodes: Vec<ProxyNode>,
    pub fetched_at: i64,
    pub expires_at: Option<i64>,
    pub traffic_used: Option<u64>,
    pub traffic_total: Option<u64>,
    pub metadata: SubscriptionMetadata,
}

/// Device information behind a hardware ID.
#[derive(Debug, Clone)]
pub struct HwidInfo {
    pub hwid: String,
    pub device_model: String,
    pub os: String,
    pub hostname: String,
    pub username: String,
    pub machine_id: String,
}

/// A fetched subscription body with its detected format and nodes.
#[derive(Debug, Clone)]
pub struct SubscriptionResponse {
    pub raw: String,
    pub format: SubscriptionFormat,
    pub nodes: Vec<ProxyNode>,
}

/// The local proxy engine's settings: the node and the local ports.
#[derive(Debug, Clone)]
pub struct ProxyConfig {
    pub node: ProxyNode,
    pub local_socks_port: u16,
    pub local_http_port: u16,
    pub dns_port: u16,
}

/// Each name parses back to the value it names, for every protocol,
/// transport, security mode and output format.
pub proof fn law_names_round_trip(p: Protocol, t: Transport, s: Security, f: OutputFormat)
    ensures
        Protocol::spec_from_name(p.spec_name()) == Some(p),
        Transport::spec_from_name(t.spec_name()) == Some(t),
        Security::spec_from_name(s.spec_name()) == Some(s),
        OutputFormat::spec_from_name(f.spec_name()) == Some(f),
{
    reveal_strlit("vless");
    assert("vless"@ =~= seq!['v', 'l', 'e', 's', 's']);
    reveal_strlit("vmess");
    assert("vmess"@ =~= seq!['v', 'm', 'e', 's', 's']);
    reveal_strlit("trojan");
    assert("trojan"@ =~= seq!['t', 'r', 'o', 'j', 'a', 'n']);
    reveal_strlit("shadowsocks");
    assert("shadowsocks"@ =~= seq!['s', 'h', 'a', 'd', 'o', 'w', 's', 'o', 'c', 'k', 's']);
    reveal_strlit("hysteria2");
    assert("hysteria2"@ =~= seq!['h', 'y', 's', 't', 'e', 'r', 'i', 'a', '2']);
    reveal_strlit("tuic");
    assert("tuic"@ =~= seq!['t', 'u', 'i', 'c']);
    reveal_strlit("wire_guard");
    assert("wire_guard"@ =~= seq!['w', 'i', 'r', 'e', '_', 'g', 'u', 'a', 'r', 'd']);
    reveal_strlit("any_tls");
    assert("any_tls"@ =~= seq!['a', 'n', 'y', '_', 't', 'l', 's']);
    reveal_strlit("tcp");
    assert("tcp"@ =~= seq!['t', 'c', 'p']);
    reveal_strlit("ws");
    assert("ws"@ =~= seq!['w', 's']);
    reveal_strlit("grpc");
    assert("grpc"@ =~= seq!['g', 'r', 'p', 'c']);
    reveal_strlit("h2");
    assert("h2"@ =~= seq!['h', '2']);
    reveal_strlit("xhttp");
    assert("xhttp"@ =~= seq!['x', 'h', 't', 't', 'p']);
    reveal_strlit("splithttp");
    assert("splithttp"@ =~= seq!['s', 'p', 'l', 'i', 't', 'h', 't', 't', 'p']);
    reveal_strlit("kcp");
    assert("kcp"@ =~= seq!['k', 'c', 'p']);
    reveal_strlit("none");
    assert("none"@ =~= seq!['n', 'o', 'n', 'e']);
    reveal_strlit("tls");
    assert("tls"@ =~= seq!['t', 'l', 's']);
    reveal_strlit("reality");
    assert("reality"@ =~= seq!['r', 'e', 'a', 'l', 'i', 't', 'y']);
    reveal_strlit("reality_psk");
    assert("reality_psk"@ =~= seq!['r', 'e', 'a', 'l', 'i', 't', 'y', '_', 'p', 's', 'k']);
    reveal_strlit("clash");
    assert("clash"@ =~= seq!['c', 'l', 'a', 's', 'h']);
    reveal_strlit("sing_box");
    assert("sing_box"@ =~= seq!['s', 'i', 'n', 'g', '_', 'b', 'o', 'x']);
    reveal_strlit("v2_ray");
    assert("v2_ray"@ =~= seq!['v', '2', '_', 'r', 'a', 'y']);
    reveal_strlit("surge");
    assert("surge"@ =~= seq!['s', 'u', 'r', 'g', 'e']);
    reveal_strlit("quantumult_x");
    assert("quantumult_x"@ =~= seq!['q', 'u', 'a', 'n', 't', 'u', 'm', 'u', 'l', 't', '_', 'x']);
    reveal_strlit("loon");
    assert("loon"@ =~= seq!['l', 'o', 'o', 'n']);
    reveal_strlit("raw");
    assert("raw"@ =~= seq!['r', 'a', 'w']);
}

} // verus!

//! sing-box configuration for a proxy node: local inbounds, the proxy
//! outbound with its TLS/REALITY and transport settings, DNS and the route.

use vstd::prelude::*;
use crate::json::{
    Json, JsonV, ObjBuilder, json_arr, json_str_array, new_arr, opt_str_entry, push_json,
    seq_view, spec_str_array,
};
use crate::models::{Protocol, ProxyNode, Security, Transport, XhttpExtra};
use crate::text::{spec_split_once, split_once_char};
use crate::xray::{DEFAULT_MIXED_PORT, arr1, opt_or};

verus! {

/// Whether sing-box is required for a node: REALITY, the advanced
/// transports, or the protocols that only sing-box speaks.
pub open spec fn spec_requires_singbox(node: ProxyNode) -> bool {
    ||| node.security == Security::Reality
    ||| node.security == Security::RealityPsk
    ||| node.transport == Transport::Xhttp
    ||| node.transport == Transport::Splithttp
    ||| node.transport == Transport::Grpc
    ||| node.transport == Transport::H2
    ||| node.transport == Transport::Kcp
    ||| node.protocol == Protocol::Hysteria2
    ||| node.protocol == Protocol::Tuic
    ||| node.protocol == Protocol::WireGuard
    ||| node.protocol == Protocol::AnyTls
}

pub fn requires_singbox(node: &ProxyNode) -> (r: bool)
    ensures
        r == spec_requires_singbox(*node),
{
    let sec = match node.security {
        Security::Reality | Security::RealityPsk => true,
        _ => false,
    };
    let tr = match node.transport {
        Transport::Xhttp | Transport::Splithttp | Transport::Grpc | Transport::H2 | Transport::Kcp => true,
        _ => false,
    };
    let pr = match node.protocol {
        Protocol::Hysteria2 | Protocol::Tuic | Protocol::WireGuard | Protocol::AnyTls => true,
        _ => false,
    };
    sec || tr || pr
}

/// sing-box's outbound type of a protocol; those it cannot dial block.
pub open spec fn spec_protocol_type(p: Protocol) -> Seq<char> {
    match p {
        Protocol::Vless => "vless"@,
        Protocol::Trojan => "trojan"@,
        Protocol::Vmess => "vmess"@,
        Protocol::Shadowsocks => "shadowsocks"@,
        _ => "block"@,
    }
}

pub fn protocol_type(node: &ProxyNode) -> (s: &'static str)
    ensures
        s@ == spec_protocol_type(node.protocol),
{
    match node.protocol {
        Protocol::Vless => "vless",
        Protocol::Trojan => "trojan",
        Protocol::Vmess => "vmess",
        Protocol::Shadowsocks => "shadowsocks",
        _ => "block",
    }
}

/// The Shadowsocks credentials `method:password`, taken from the UUID field,
/// else the password field.
pub open spec fn spec_ss_candidate(node: ProxyNode) -> Seq<char> {
    match node.uuid {
        Some(u) => u@,
        None => opt_or(node.password, ""@),
    }
}

/// The method and password of a Shadowsocks node, split at the first `:`.
pub open spec fn spec_ss_auth(node: ProxyNode) -> Option<(Seq<char>, Seq<char>)> {
    spec_split_once(spec_ss_candidate(node), ':')
}

/// Splits the Shadowsocks credentials of a node into method and password.
pub fn parse_shadowsocks_auth(node: &ProxyNode) -> (r: Result<(String, String), String>)
    ensures
        match r {
            Ok((m, p)) => spec_ss_auth(*node) == Some((m@, p@)),
            Err(e) => spec_ss_auth(*node) is None && e@ == "Invalid Shadowsocks credentials"@,
        },
{
    let candidate: &str = match &node.uuid {
        Some(u) => u.as_str(),
        None => match &node.password {
            Some(p) => p.as_str(),
            None => "",
        },
    };
    match split_once_char(candidate, ':') {
        Some((m, p)) => Ok((m, p)),
        None => Err("Invalid Shadowsocks credentials".to_owned()),
    }
}

/// `m` with the protocol-specific fields of the outbound, or the reason
/// the protocol cannot be served.
pub open spec fn spec_protocol_fields(m: Map<Seq<char>, JsonV>, node: ProxyNode) -> Result<Map<Seq<char>, JsonV>, Seq<char>> {
    match node.protocol {
        Protocol::Vless => {
            let m = opt_str_entry(m, "uuid"@, node.uuid);
            let m = opt_str_entry(m, "flow"@, node.flow);
            Ok(if node.encryption is Some && node.encryption->0@ == "none"@ {
                m.insert("packet_encoding"@, JsonV::Str("xudp"@))
            } else {
                m
            })
        },
        Protocol::Trojan => Ok(opt_str_entry(m, "password"@, node.password)),
        Protocol::Vmess => {
            let m = opt_str_entry(m, "uuid"@, node.uuid);
            let m = match node.alter_id {
                Some(a) => m.insert("alter_id"@, JsonV::Num(a as nat)),
                None => m,
            };
            Ok(m.insert("security"@, JsonV::Str(opt_or(node.encryption, "auto"@))))
        },
        Protocol::Shadowsocks => match spec_ss_auth(node) {
            Some((method, password)) => Ok(m
                .insert("method"@, JsonV::Str(method))
                .insert("password"@, JsonV::Str(password))),
            None => Err("Invalid Shadowsocks credentials"@),
        },
        _ => Err("Protocol "@ + node.protocol.spec_debug_name() + " not supported by sing-box generator"@),
    }
}

/// `{"enabled": true, "fingerprint": fp}`
pub open spec fn spec_utls(fp: Seq<char>) -> JsonV {
    JsonV::Obj(Map::empty()
        .insert("enabled"@, JsonV::Bool(true))
        .insert("fingerprint"@, JsonV::Str(fp)))
}

/// The TLS object's server name and uTLS fingerprint.
pub open spec fn spec_tls_base(node: ProxyNode) -> Map<Seq<char>, JsonV> {
    let m = opt_str_entry(Map::empty().insert("enabled"@, JsonV::Bool(true)), "server_name"@, node.sni);
    match node.fingerprint {
        Some(fp) => m.insert("utls"@, spec_utls(fp@)),
        None => m,
    }
}

pub open spec fn spec_reality(node: ProxyNode) -> Map<Seq<char>, JsonV> {
    let m = Map::empty().insert("enabled"@, JsonV::Bool(true));
    let m = opt_str_entry(m, "public_key"@, node.public_key);
    let m = opt_str_entry(m, "short_id"@, node.short_id);
    opt_str_entry(m, "spiderX"@, node.spider_x)
}

/// The outbound's TLS object, if the node's security calls for one.
pub open spec fn spec_tls(node: ProxyNode) -> Option<Map<Seq<char>, JsonV>> {
    match node.security {
        Security::Plain => None,
        Security::Tls => Some(match node.alpn {
            Some(a) => spec_tls_base(node).insert("alpn"@, spec_str_array(a@)),
            None => spec_tls_base(node),
        }),
        Security::Reality | Security::RealityPsk => Some(spec_tls_base(node).insert("reality"@, JsonV::Obj(spec_reality(node)))),
    }
}

/// sing-box's transport type; plain TCP needs no transport object.
pub open spec fn spec_transport_type(t: Transport) -> Option<Seq<char>> {
    match t {
        Transport::Tcp => None,
        Transport::Ws => Some("ws"@),
        Transport::Grpc => Some("grpc"@),
        Transport::H2 => Some("http"@),
        Transport::Xhttp => Some("xhttp"@),
        Transport::Splithttp => Some("splithttp"@),
        Transport::Kcp => Some("kcp"@),
    }
}

/// `{"Host": host}`, when the node has a host.
pub open spec fn spec_host_headers(node: ProxyNode) -> Map<Seq<char>, JsonV> {
    opt_str_entry(Map::empty(), "Host"@, node.host)
}

/// `m` with each name of `pairs` set to its string value, in order.
pub open spec fn spec_insert_str_all(m: Map<Seq<char>, JsonV>, pairs: Seq<(String, String)>) -> Map<Seq<char>, JsonV>
    decreases pairs.len(),
{
    if pairs.len() == 0 {
        m
    } else {
        spec_insert_str_all(m, pairs.drop_last()).insert(pairs.last().0@, JsonV::Str(pairs.last().1@))
    }
}

/// `m` with the XHTTP tuning of `e`; extra headers are merged into the
/// headers object, after the `Host` header.
pub open spec fn spec_xhttp_extra(m: Map<Seq<char>, JsonV>, node: ProxyNode, e: XhttpExtra) -> Map<Seq<char>, JsonV> {
    let m = opt_str_entry(m, "mode"@, e.mode);
    let m = match e.max_connections {
        Some(x) => m.insert("max_connections"@, JsonV::Num(x as nat)),
        None => m,
    };
    let m = match e.max_concurrent_uploads {
        Some(x) => m.insert("max_concurrent_uploads"@, JsonV::Num(x as nat)),
        None => m,
    };
    let m = match e.no_grpc_header {
        Some(b) => m.insert("no_grpc_header"@, JsonV::Bool(b)),
        None => m,
    };
    let m = opt_str_entry(m, "padding_bytes"@, e.x_padding_bytes);
    if e.headers@.len() > 0 {
        m.insert("headers"@, JsonV::Obj(spec_insert_str_all(spec_host_headers(node), e.headers@)))
    } else {
        m
    }
}

/// The transport object of a node of transport type `ty`.
pub open spec fn spec_transport_object(node: ProxyNode, ty: Seq<char>) -> Map<Seq<char>, JsonV> {
    let m = Map::empty().insert("type"@, JsonV::Str(ty));
    let m = match node.transport {
        Transport::Ws | Transport::H2 | Transport::Xhttp | Transport::Splithttp => {
            let m = opt_str_entry(m, "path"@, node.path);
            if node.host is Some {
                m.insert("headers"@, JsonV::Obj(spec_host_headers(node)))
            } else {
                m
            }
        },
        Transport::Grpc => opt_str_entry(m, "service_name"@, node.service_name),
        _ => m,
    };
    if node.transport == Transport::Xhttp || node.transport == Transport::Splithttp {
        match node.extra {
            Some(e) => spec_xhttp_extra(m, node, e),
            None => m,
        }
    } else {
        m
    }
}

/// The proxy outbound of a node, or the reason sing-box cannot serve it.
pub open spec fn spec_outbound(node: ProxyNode) -> Result<JsonV, Seq<char>> {
    let m = Map::empty()
        .insert("type"@, JsonV::Str(spec_protocol_type(node.protocol)))
        .insert("tag"@, JsonV::Str("proxy"@))
        .insert("server"@, JsonV::Str(node.server@))
        .insert("server_port"@, JsonV::Num(node.port as nat));
    match spec_protocol_fields(m, node) {
        Ok(m) => {
            let m = match spec_tls(node) {
                Some(t) => m.insert("tls"@, JsonV::Obj(t)),
                None => m,
            };
            let m = match spec_transport_type(node.transport) {
                Some(ty) => m.insert("transport"@, JsonV::Obj(spec_transport_object(node, ty))),
                None => m,
            };
            Ok(JsonV::Obj(m))
        },
        Err(e) => Err(e),
    }
}

fn protocol_fields(b: &mut ObjBuilder, node: &ProxyNode) -> (r: Result<(), String>)
    ensures
        match r {
            Ok(_) => spec_protocol_fields(old(b).view(), *node) == Ok::<Map<Seq<char>, JsonV>, Seq<char>>(final(b).view()),
            Err(e) => spec_protocol_fields(old(b).view(), *node) == Err::<Map<Seq<char>, JsonV>, Seq<char>>(e@),
        },
{
    match node.protocol {
        Protocol::Vless => {
            b.insert_opt_str("uuid", &node.uuid);
            b.insert_opt_str("flow", &node.flow);
            let none_enc = match &node.encryption {
                Some(e) => crate::text::str_eq(e.as_str(), "none"),
                None => false,
            };
            if none_enc {
                b.insert_str("packet_encoding", "xudp");
            }
            Ok(())
        },
        Protocol::Trojan => {
            b.insert_opt_str("password", &node.password);
            Ok(())
        },
        Protocol::Vmess => {
            b.insert_opt_str("uuid", &node.uuid);
            match node.alter_id {
                Some(a) => b.insert_num("alter_id", a as u64),
                None => {},
            }
            match &node.encryption {
                Some(e) => b.insert_str("security", e.as_str()),
                None => b.insert_str("security", "auto"),
            }
            Ok(())
        },
        Protocol::Shadowsocks => {
            match parse_shadowsocks_auth(node) {
                Ok((method, password)) => {
                    b.insert_str("method", method.as_str());
                    b.insert_str("password", password.as_str());
                    Ok(())
                },
                Err(e) => Err(e),
            }
        },
        _ => {
            let mut m = "Protocol ".to_owned();
            m.append(node.protocol.debug_name());
            m.append(" not supported by sing-box generator");
            Err(m)
        },
    }
}

fn tls_base(node: &ProxyNode) -> (b: ObjBuilder)
    ensures
        b.view() == spec_tls_base(*node),
{
    let mut tls = ObjBuilder::new();
    tls.insert_bool("enabled", true);
    tls.insert_opt_str("server_name", &node.sni);
    match &node.fingerprint {
        Some(fp) => {
            let mut u = ObjBuilder::new();
            u.insert_bool("enabled", true);
            u.insert_str("fingerprint", fp.as_str());
            tls.insert("utls", u.build());
        },
        None => {},
    }
    tls
}

/// The outbound's TLS object for TLS or REALITY security.
fn build_tls(node: &ProxyNode) -> (r: Option<Json>)
    ensures
        match r {
            Some(j) => spec_tls(*node) == Some(j.view()->Obj_0) && j.view() is Obj,
            None => spec_tls(*node) is None,
        },
{
    match node.security {
        Security::Plain => None,
        Security::Tls => {
            let mut tls = tls_base(node);
            match &node.alpn {
                Some(a) => tls.insert("alpn", json_str_array(a)),
                None => {},
            }
            Some(tls.build())
        },
        Security::Reality | Security::RealityPsk => {
            let mut tls = tls_base(node);
            let mut reality = ObjBuilder::new();
            reality.insert_bool("enabled", true);
            reality.insert_opt_str("public_key", &node.public_key);
            reality.insert_opt_str("short_id", &node.short_id);
            reality.insert_opt_str("spiderX", &node.spider_x);
            tls.insert("reality", reality.build());
            Some(tls.build())
        },
    }
}

fn transport_type(t: Transport) -> (r: Option<&'static str>)
    ensures
        match r {
            Some(s) => spec_transport_type(t) == Some(s@),
            None => spec_transport_type(t) is None,
        },
{
    match t {
        Transport::Tcp => None,
        Transport::Ws => Some("ws"),
        Transport::Grpc => Some("grpc"),
        Transport::H2 => Some("http"),
        Transport::Xhttp => Some("xhttp"),
        Transport::Splithttp => Some("splithttp"),
        Transport::Kcp => Some("kcp"),
    }
}

fn host_headers(node: &ProxyNode) -> (b: ObjBuilder)
    ensures
        b.view() == spec_host_headers(*node),
{
    let mut h = ObjBuilder::new();
    h.insert_opt_str("Host", &node.host);
    h
}

impl ObjBuilder {
    /// Sets each name of `pairs` to its string value, in order.
    pub fn insert_str_all(&mut self, pairs: &Vec<(String, String)>)
        ensures
            final(self).view() == spec_insert_str_all(old(self).view(), pairs@),
    {
        let ghost m0 = self.view();
        let n = pairs.len();
        let mut i: usize = 0;
        while i < n
            invariant
                n == pairs@.len(),
                i <= n,
                self.view() == spec_insert_str_all(m0, pairs@.take(i as int)),
            decreases n - i,
        {
            proof {
                assert(pairs@.take(i + 1).drop_last() =~= pairs@.take(i as int));
            }
            self.insert_str(pairs[i].0.as_str(), pairs[i].1.as_str());
            i = i + 1;
        }
        proof {
            assert(pairs@.take(n as int) =~= pairs@);
        }
    }
}

/// Copies the XHTTP tuning of `extra` into the transport object.
fn apply_xhttp_extra(t: &mut ObjBuilder, node: &ProxyNode, extra: &XhttpExtra)
    ensures
        final(t).view() == spec_xhttp_extra(old(t).view(), *node, *extra),
{
    t.insert_opt_str("mode", &extra.mode);
    match extra.max_connections {
        Some(x) => t.insert_num("max_connections", x as u64),
        None => {},
    }
    match extra.max_concurrent_uploads {
        Some(x) => t.insert_num("max_concurrent_uploads", x as u64),
        None => {},
    }
    match extra.no_grpc_header {
        Some(b) => t.insert_bool("no_grpc_header", b),
        None => {},
    }
    t.insert_opt_str("padding_bytes", &extra.x_padding_bytes);
    if extra.headers.len() > 0 {
        let mut h = host_headers(node);
        h.insert_str_all(&extra.headers);
        t.insert("headers", h.build());
    }
}

/// The transport object, for a transport other than plain TCP.
fn build_transport(node: &ProxyNode) -> (r: Option<Json>)
    ensures
        match r {
            Some(j) => spec_transport_type(node.transport) is Some
                && j.view() == JsonV::Obj(spec_transport_object(*node, spec_transport_type(node.transport)->0)),
            None => spec_transport_type(node.transport) is None,
        },
{
    let ty = match transport_type(node.transport) {
        Some(ty) => ty,
        None => return None,
    };
    let mut t = ObjBuilder::new();
    t.insert_str("type", ty);
    match node.transport {
        Transport::Ws | Transport::H2 | Transport::Xhttp | Transport::Splithttp => {
            t.insert_opt_str("path", &node.path);
            if node.host.is_some() {
                t.insert("headers", host_headers(node).build());
            }
        },
        Transport::Grpc => {
            t.insert_opt_str("service_name", &node.service_name);
        },
        _ => {},
    }
    if node.transport == Transport::Xhttp || node.transport == Transport::Splithttp {
        match &node.extra {
            Some(e) => apply_xhttp_extra(&mut t, node, e),
            None => {},
        }
    }
    Some(t.build())
}

/// The proxy outbound of a node: VLESS, Trojan, VMess or Shadowsocks with
/// their TLS and transport objects.
pub fn build_outbound(node: &ProxyNode) -> (r: Result<Json, String>)
    ensures
        match r {
            Ok(j) => spec_outbound(*node) == Ok::<JsonV, Seq<char>>(j.view()),
            Err(e) => spec_outbound(*node) == Err::<JsonV, Seq<char>>(e@),
        },
{
    let mut b = ObjBuilder::new();
    b.insert_str("type", protocol_type(node));
    b.insert_str("tag", "proxy");
    b.insert_str("server", node.server.as_str());
    b.insert_num("server_port", node.port as u64);
    match protocol_fields(&mut b, node) {
        Ok(_) => {},
        Err(e) => return Err(e),
    }
    match build_tls(node) {
        Some(t) => b.insert("tls", t),
        None => {},
    }
    match build_transport(node) {
        Some(t) => b.insert("transport", t),
        None => {},
    }
    Ok(b.build())
}

/// Port selection for proxy inbounds.
#[derive(Debug, Clone, Copy, Default)]
pub struct InboundPorts {
    pub socks_port: Option<u16>,
    pub http_port: Option<u16>,
    pub mixed_port: Option<u16>,
}

/// A generated sing-box configuration with the local ports it exposes.
#[derive(Debug)]
pub struct SingBoxConfig {
    pub json: Json,
    pub socks_port: Option<u16>,
    pub http_port: Option<u16>,
    pub mixed_port: Option<u16>,
}

/// An inbound of type `ty` on the loopback address.
pub open spec fn spec_inbound(ty: Seq<char>, tag: Seq<char>, port: u16) -> JsonV {
    JsonV::Obj(Map::empty()
        .insert("type"@, JsonV::Str(ty))
        .insert("tag"@, JsonV::Str(tag))
        .insert("listen"@, JsonV::Str("127.0.0.1"@))
        .insert("listen_port"@, JsonV::Num(port as nat)))
}

/// `{"type": ty, "tag": tag}`
pub open spec fn spec_typed(ty: Seq<char>, tag: Seq<char>) -> JsonV {
    JsonV::Obj(Map::empty()
        .insert("type"@, JsonV::Str(ty))
        .insert("tag"@, JsonV::Str(tag)))
}

/// The exposed (SOCKS, HTTP, mixed) ports: a mixed port excludes the other
/// two, and with no port requested the default mixed port is used.
pub open spec fn spec_ports(ports: InboundPorts) -> (Option<u16>, Option<u16>, Option<u16>) {
    match ports.mixed_port {
        Some(p) => (None, None, Some(p)),
        None => if ports.socks_port is None && ports.http_port is None {
            (None, None, Some(DEFAULT_MIXED_PORT))
        } else {
            (ports.socks_port, ports.http_port, None)
        },
    }
}

/// The inbounds for the exposed ports, in the order SOCKS, HTTP.
pub open spec fn spec_inbounds(ports: InboundPorts) -> Seq<JsonV> {
    match ports.mixed_port {
        Some(p) => seq![spec_inbound("mixed"@, "mixed-in"@, p)],
        None => {
            let s = match ports.socks_port {
                Some(p) => seq![spec_inbound("socks"@, "socks-in"@, p)],
                None => Seq::empty(),
            };
            let s = match ports.http_port {
                Some(p) => s.push(spec_inbound("http"@, "http-in"@, p)),
                None => s,
            };
            if s.len() == 0 { seq![spec_inbound("mixed"@, "mixed-in"@, DEFAULT_MIXED_PORT)] } else { s }
        },
    }
}

/// DNS over TLS to 8.8.8.8 by default, with a local resolver reached
/// directly for the outbound servers' own names, IPv4 only.
pub open spec fn spec_dns() -> JsonV {
    JsonV::Obj(Map::empty()
        .insert("servers"@, JsonV::Arr(seq![
            JsonV::Obj(Map::empty()
                .insert("tag"@, JsonV::Str("google"@))
                .insert("address"@, JsonV::Str("tls://8.8.8.8"@))),
            JsonV::Obj(Map::empty()
                .insert("tag"@, JsonV::Str("local"@))
                .insert("address"@, JsonV::Str("223.5.5.5"@))
                .insert("detour"@, JsonV::Str("direct"@))),
        ]))
        .insert("rules"@, arr1(JsonV::Obj(Map::empty()
            .insert("outbound"@, JsonV::Str("any"@))
            .insert("server"@, JsonV::Str("local"@)))))
        .insert("final"@, JsonV::Str("google"@))
        .insert("strategy"@, JsonV::Str("ipv4_only"@)))
}

/// The route: interface auto-detection, everything else through the proxy.
pub open spec fn spec_route() -> JsonV {
    JsonV::Obj(Map::empty()
        .insert("auto_detect_interface"@, JsonV::Bool(true))
        .insert("final_"@, JsonV::Str("proxy"@)))
}

/// The configuration document around a proxy outbound.
pub open spec fn spec_root(outbound: JsonV, ports: InboundPorts) -> JsonV {
    JsonV::Obj(Map::empty()
        .insert("log"@, JsonV::Obj(Map::empty().insert("level"@, JsonV::Str("info"@))))
        .insert("dns"@, spec_dns())
        .insert("inbounds"@, JsonV::Arr(spec_inbounds(ports)))
        .insert("outbounds"@, JsonV::Arr(seq![outbound, spec_typed("direct"@, "direct"@), spec_typed("block"@, "block"@)]))
        .insert("route"@, spec_route()))
}

/// The sing-box configuration of a node, or why there is none.
pub open spec fn spec_singbox_config(node: ProxyNode, ports: InboundPorts) -> Result<JsonV, Seq<char>> {
    match spec_outbound(node) {
        Ok(o) => Ok(spec_root(o, ports)),
        Err(e) => Err(e),
    }
}

fn inbound(ty: &str, tag: &str, port: u16) -> (j: Json)
    ensures
        j.view() == spec_inbound(ty@, tag@, port),
{
    let mut b = ObjBuilder::new();
    b.insert_str("type", ty);
    b.insert_str("tag", tag);
    b.insert_str("listen", "127.0.0.1");
    b.insert_num("listen_port", port as u64);
    b.build()
}

fn typed(ty: &str, tag: &str) -> (j: Json)
    ensures
        j.view() == spec_typed(ty@, tag@),
{
    let mut b = ObjBuilder::new();
    b.insert_str("type", ty);
    b.insert_str("tag", tag);
    b.build()
}

/// The DNS section.
pub fn dns() -> (j: Json)
    ensures
        j.view() == spec_dns(),
{
    let mut google = ObjBuilder::new();
    google.insert_str("tag", "google");
    google.insert_str("address", "tls://8.8.8.8");
    let mut local = ObjBuilder::new();
    local.insert_str("tag", "local");
    local.insert_str("address", "223.5.5.5");
    local.insert_str("detour", "direct");
    let mut servers = new_arr();
    push_json(&mut servers, google.build());
    push_json(&mut servers, local.build());
    let mut rule = ObjBuilder::new();
    rule.insert_str("outbound", "any");
    rule.insert_str("server", "local");
    let mut rules = new_arr();
    push_json(&mut rules, rule.build());
    let mut b = ObjBuilder::new();
    proof {
        assert(seq_view(servers@) =~= seq![seq_view(servers@)[0], seq_view(servers@)[1]]);
        assert(seq_view(rules@) =~= seq![seq_view(rules@)[0]]);
    }
    b.insert("servers", json_arr(servers));
    b.insert("rules", json_arr(rules));
    b.insert_str("final", "google");
    b.insert_str("strategy", "ipv4_only");
    b.build()
}

fn inbounds(ports: InboundPorts) -> (v: Vec<Json>)
    ensures
        seq_view(v@) == spec_inbounds(ports),
{
    let mut v = new_arr();
    match ports.mixed_port {
        Some(p) => {
            push_json(&mut v, inbound("mixed", "mixed-in", p));
            proof {
                assert(seq_view(v@) =~= spec_inbounds(ports));
            }
        },
        None => {
            match ports.socks_port {
                Some(p) => push_json(&mut v, inbound("socks", "socks-in", p)),
                None => {},
            }
            match ports.http_port {
                Some(p) => push_json(&mut v, inbound("http", "http-in", p)),
                None => {},
            }
            if v.len() == 0 {
                push_json(&mut v, inbound("mixed", "mixed-in", DEFAULT_MIXED_PORT));
            }
            proof {
                assert(seq_view(v@) =~= spec_inbounds(ports));
            }
        },
    }
    v
}

/// Generates the sing-box configuration for `node`: inbounds on the
/// requested local ports, DNS, the proxy outbound with direct and block
/// outbounds, and the route.
pub fn generate_config(node: &ProxyNode, ports: InboundPorts) -> (r: Result<SingBoxConfig, String>)
    ensures
        match r {
            Ok(cfg) => {
                &&& spec_singbox_config(*node, ports) == Ok::<JsonV, Seq<char>>(cfg.json.view())
                &&& (cfg.socks_port, cfg.http_port, cfg.mixed_port) == spec_ports(ports)
            },
            Err(e) => spec_singbox_config(*node, ports) == Err::<JsonV, Seq<char>>(e@),
        },
{
    let outbound = match build_outbound(node) {
        Ok(o) => o,
        Err(e) => return Err(e),
    };
    let (socks_port, http_port, mixed_port) = match ports.mixed_port {
        Some(p) => (None, None, Some(p)),
        None => if ports.socks_port.is_none() && ports.http_port.is_none() {
            (None, None, Some(DEFAULT_MIXED_PORT))
        } else {
            (ports.socks_port, ports.http_port, None)
        },
    };
    let mut log = ObjBuilder::new();
    log.insert_str("level", "info");
    let mut outbounds = new_arr();
    push_json(&mut outbounds, outbound);
    push_json(&mut outbounds, typed("direct", "direct"));
    push_json(&mut outbounds, typed("block", "block"));
    let mut route = ObjBuilder::new();
    route.insert_bool("auto_detect_interface", true);
    route.insert_str("final_", "proxy");
    let mut root = ObjBuilder::new();
    root.insert("log", log.build());
    root.insert("dns", dns());
    root.insert("inbounds", json_arr(inbounds(ports)));
    proof {
        assert(seq_view(outbounds@) =~= seq![seq_view(outbounds@)[0], spec_typed("direct"@, "direct"@), spec_typed("block"@, "block"@)]);
    }
    root.insert("outbounds", json_arr(outbounds));
    root.insert("route", route.build());
    Ok(SingBoxConfig { json: root.build(), socks_port, http_port, mixed_port })
}

} // verus!

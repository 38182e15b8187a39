//! Xray-core configuration for a proxy node: inbounds on the local ports,
//! the proxy outbound with its TLS/REALITY and transport settings, and the
//! routing rules (geo or fallback defaults, then the split-tunnel rules).

use vstd::prelude::*;
use crate::backend::GeoAssetStatus;
use crate::json::{
    Json, JsonV, ObjBuilder, json_arr, json_str_array, new_arr, opt_str_entry, pairs_object,
    push_json, seq_view, spec_insert_raw_all, spec_pairs_map, spec_str_array,
};
use crate::models::{Protocol, ProxyNode, Security, Transport, XhttpExtra};
use crate::split_tunnel::{SplitTunnelAction, SplitTunnelRule, SplitTunnelTarget};
use crate::text::{spec_trim_start, trim_start_char};

verus! {

/// The mixed inbound port used when no inbound port is requested.
pub const DEFAULT_MIXED_PORT: u16 = 11080;

/// A one-element array.
pub open spec fn arr1(a: JsonV) -> JsonV {
    JsonV::Arr(seq![a])
}

/// `{"enabled": true, "destOverride": ["http", "tls", "quic"]}`
pub open spec fn spec_sniffing() -> JsonV {
    JsonV::Obj(Map::empty()
        .insert("enabled"@, JsonV::Bool(true))
        .insert("destOverride"@, JsonV::Arr(seq![JsonV::Str("http"@), JsonV::Str("tls"@), JsonV::Str("quic"@)])))
}

/// `{"auth": "noauth", "udp": true, "ip": "127.0.0.1"}`
pub open spec fn spec_socks_settings() -> JsonV {
    JsonV::Obj(Map::empty()
        .insert("auth"@, JsonV::Str("noauth"@))
        .insert("udp"@, JsonV::Bool(true))
        .insert("ip"@, JsonV::Str("127.0.0.1"@)))
}

/// A SOCKS inbound on the loopback address with the given tag.
pub open spec fn spec_socks_like_inbound(tag: Seq<char>, port: u16) -> JsonV {
    JsonV::Obj(Map::empty()
        .insert("tag"@, JsonV::Str(tag))
        .insert("port"@, JsonV::Num(port as nat))
        .insert("listen"@, JsonV::Str("127.0.0.1"@))
        .insert("protocol"@, JsonV::Str("socks"@))
        .insert("settings"@, spec_socks_settings())
        .insert("sniffing"@, spec_sniffing()))
}

pub open spec fn spec_mixed_inbound(port: u16) -> JsonV {
    spec_socks_like_inbound("mixed-in"@, port)
}

pub open spec fn spec_socks_inbound(port: u16) -> JsonV {
    spec_socks_like_inbound("socks-in"@, port)
}

pub open spec fn spec_http_inbound(port: u16) -> JsonV {
    JsonV::Obj(Map::empty()
        .insert("tag"@, JsonV::Str("http-in"@))
        .insert("port"@, JsonV::Num(port as nat))
        .insert("listen"@, JsonV::Str("127.0.0.1"@))
        .insert("protocol"@, JsonV::Str("http"@))
        .insert("settings"@, JsonV::Obj(Map::empty()))
        .insert("sniffing"@, spec_sniffing()))
}

/// An outbound with only a protocol and a tag.
pub open spec fn spec_plain_outbound(protocol: Seq<char>, tag: Seq<char>) -> JsonV {
    JsonV::Obj(Map::empty()
        .insert("protocol"@, JsonV::Str(protocol))
        .insert("tag"@, JsonV::Str(tag)))
}

pub open spec fn spec_direct_outbound() -> JsonV {
    spec_plain_outbound("freedom"@, "direct"@)
}

pub open spec fn spec_block_outbound() -> JsonV {
    spec_plain_outbound("blackhole"@, "block"@)
}

/// The stats API service on `port`.
pub open spec fn spec_api_service(port: u16) -> JsonV {
    JsonV::Obj(Map::empty()
        .insert("tag"@, JsonV::Str("api"@))
        .insert("services"@, arr1(JsonV::Str("StatsService"@)))
        .insert("port"@, JsonV::Num(port as nat)))
}

/// User traffic statistics at level 0 and inbound/outbound statistics.
pub open spec fn spec_stats_policy() -> JsonV {
    JsonV::Obj(Map::empty()
        .insert("levels"@, JsonV::Obj(Map::empty()
            .insert("0"@, JsonV::Obj(Map::empty()
                .insert("statsUserUplink"@, JsonV::Bool(true))
                .insert("statsUserDownlink"@, JsonV::Bool(true))))))
        .insert("system"@, JsonV::Obj(Map::empty()
            .insert("statsInboundUplink"@, JsonV::Bool(true))
            .insert("statsInboundDownlink"@, JsonV::Bool(true))
            .insert("statsOutboundUplink"@, JsonV::Bool(true))
            .insert("statsOutboundDownlink"@, JsonV::Bool(true)))))
}

fn str_arr3(a: &str, b: &str, c: &str) -> (j: Json)
    ensures
        j.view() == JsonV::Arr(seq![JsonV::Str(a@), JsonV::Str(b@), JsonV::Str(c@)]),
{
    let mut v = new_arr();
    push_json(&mut v, Json::Str(a.to_owned()));
    push_json(&mut v, Json::Str(b.to_owned()));
    push_json(&mut v, Json::Str(c.to_owned()));
    proof {
        assert(seq_view(v@) =~= seq![JsonV::Str(a@), JsonV::Str(b@), JsonV::Str(c@)]);
    }
    json_arr(v)
}

fn str_arr1(a: &str) -> (j: Json)
    ensures
        j.view() == arr1(JsonV::Str(a@)),
{
    let mut v = new_arr();
    push_json(&mut v, Json::Str(a.to_owned()));
    json_arr(v)
}

fn sniffing() -> (j: Json)
    ensures
        j.view() == spec_sniffing(),
{
    let mut b = ObjBuilder::new();
    b.insert_bool("enabled", true);
    b.insert("destOverride", str_arr3("http", "tls", "quic"));
    b.build()
}

fn socks_settings() -> (j: Json)
    ensures
        j.view() == spec_socks_settings(),
{
    let mut b = ObjBuilder::new();
    b.insert_str("auth", "noauth");
    b.insert_bool("udp", true);
    b.insert_str("ip", "127.0.0.1");
    b.build()
}

fn socks_like_inbound(tag: &str, port: u16) -> (j: Json)
    ensures
        j.view() == spec_socks_like_inbound(tag@, port),
{
    let mut b = ObjBuilder::new();
    b.insert_str("tag", tag);
    b.insert_num("port", port as u64);
    b.insert_str("listen", "127.0.0.1");
    b.insert_str("protocol", "socks");
    b.insert("settings", socks_settings());
    b.insert("sniffing", sniffing());
    b.build()
}

/// The mixed (SOCKS and HTTP) inbound on `port`.
pub fn mixed_inbound(port: u16) -> (j: Json)
    ensures
        j.view() == spec_mixed_inbound(port),
{
    socks_like_inbound("mixed-in", port)
}

/// The SOCKS inbound on `port`.
pub fn socks_inbound(port: u16) -> (j: Json)
    ensures
        j.view() == spec_socks_inbound(port),
{
    socks_like_inbound("socks-in", port)
}

/// The HTTP inbound on `port`.
pub fn http_inbound(port: u16) -> (j: Json)
    ensures
        j.view() == spec_http_inbound(port),
{
    let mut b = ObjBuilder::new();
    b.insert_str("tag", "http-in");
    b.insert_num("port", port as u64);
    b.insert_str("listen", "127.0.0.1");
    b.insert_str("protocol", "http");
    b.insert("settings", ObjBuilder::new().build());
    b.insert("sniffing", sniffing());
    b.build()
}

fn plain_outbound(protocol: &str, tag: &str) -> (j: Json)
    ensures
        j.view() == spec_plain_outbound(protocol@, tag@),
{
    let mut b = ObjBuilder::new();
    b.insert_str("protocol", protocol);
    b.insert_str("tag", tag);
    b.build()
}

/// The outbound that sends traffic directly.
pub fn direct_outbound() -> (j: Json)
    ensures
        j.view() == spec_direct_outbound(),
{
    plain_outbound("freedom", "direct")
}

/// The outbound that drops traffic.
pub fn block_outbound() -> (j: Json)
    ensures
        j.view() == spec_block_outbound(),
{
    plain_outbound("blackhole", "block")
}

/// The stats API service on `port`.
pub fn api_service(port: u16) -> (j: Json)
    ensures
        j.view() == spec_api_service(port),
{
    let mut b = ObjBuilder::new();
    b.insert_str("tag", "api");
    b.insert("services", str_arr1("StatsService"));
    b.insert_num("port", port as u64);
    b.build()
}

/// The statistics policy.
pub fn stats_policy() -> (j: Json)
    ensures
        j.view() == spec_stats_policy(),
{
    let mut level0 = ObjBuilder::new();
    level0.insert_bool("statsUserUplink", true);
    level0.insert_bool("statsUserDownlink", true);
    let mut levels = ObjBuilder::new();
    levels.insert("0", level0.build());
    let mut system = ObjBuilder::new();
    system.insert_bool("statsInboundUplink", true);
    system.insert_bool("statsInboundDownlink", true);
    system.insert_bool("statsOutboundUplink", true);
    system.insert_bool("statsOutboundDownlink", true);
    let mut b = ObjBuilder::new();
    b.insert("levels", levels.build());
    b.insert("system", system.build());
    b.build()
}

// ---------------------------------------------------------------------------
// Routing
// ---------------------------------------------------------------------------

/// The private and local address ranges (RFC 1918, RFC 4193, RFC 4291).
pub open spec fn spec_private_cidrs() -> Seq<JsonV> {
    seq![
        JsonV::Str("10.0.0.0/8"@),
        JsonV::Str("172.16.0.0/12"@),
        JsonV::Str("192.168.0.0/16"@),
        JsonV::Str("127.0.0.0/8"@),
        JsonV::Str("fc00::/7"@),
        JsonV::Str("fe80::/10"@),
    ]
}

/// The localhost-style domains that bypass the proxy.
pub open spec fn spec_localhost_domains() -> Seq<JsonV> {
    seq![
        JsonV::Str("localhost"@),
        JsonV::Str("localhost.localdomain"@),
        JsonV::Str("regexp:.*\\.local$"@),
    ]
}

/// A field rule sending the traffic matched by `field` (`ip` or `domain`)
/// with the values `values` to the outbound `tag`.
pub open spec fn spec_field_rule(tag: Seq<char>, field: Seq<char>, values: Seq<JsonV>) -> JsonV {
    JsonV::Obj(Map::empty()
        .insert("type"@, JsonV::Str("field"@))
        .insert("outboundTag"@, JsonV::Str(tag))
        .insert(field, JsonV::Arr(values)))
}

/// The rules that come before the split-tunnel rules: with geo assets,
/// private addresses go direct and ad domains are blocked; without them,
/// the private ranges and localhost domains go direct.
pub open spec fn spec_default_rules(geo: GeoAssetStatus) -> Seq<JsonV> {
    if geo.available {
        seq![
            spec_field_rule("direct"@, "ip"@, seq![JsonV::Str("geoip:private"@)]),
            spec_field_rule("block"@, "domain"@, seq![JsonV::Str("geosite:category-ads-all"@)]),
        ]
    } else {
        seq![
            spec_field_rule("direct"@, "ip"@, spec_private_cidrs()),
            spec_field_rule("direct"@, "domain"@, spec_localhost_domains()),
        ]
    }
}

/// The outbound tag of an action.
pub open spec fn spec_action_tag(a: SplitTunnelAction) -> Seq<char> {
    match a {
        SplitTunnelAction::Direct => "direct"@,
        SplitTunnelAction::Proxy => "proxy"@,
    }
}

/// The domain matcher of a domain rule: a value starting with `*` or `.`
/// matches the domain and its subdomains (`domain:` and the value without
/// its leading `*` and then `.` characters); any other value is kept as is.
pub open spec fn spec_domain_matcher(v: Seq<char>) -> Seq<char> {
    if v.len() > 0 && (v[0] == '*' || v[0] == '.') {
        "domain:"@ + spec_trim_start(spec_trim_start(v, '*'), '.')
    } else {
        v
    }
}

/// The Xray routing rule of a split-tunnel rule; application rules have none.
pub open spec fn spec_routing_rule(rule: SplitTunnelRule) -> Option<JsonV> {
    let tag = spec_action_tag(rule.action);
    match rule.target {
        SplitTunnelTarget::Domain => Some(spec_field_rule(tag, "domain"@, seq![JsonV::Str(spec_domain_matcher(rule.value@))])),
        SplitTunnelTarget::Ip => Some(spec_field_rule(tag, "ip"@, seq![JsonV::Str(rule.value@)])),
        SplitTunnelTarget::Cidr => Some(spec_field_rule(tag, "ip"@, seq![JsonV::Str(rule.value@)])),
        SplitTunnelTarget::App => None,
    }
}

/// The routing rules of the split-tunnel rules, in order, skipping those
/// that have none.
pub open spec fn spec_rule_values(rules: Seq<SplitTunnelRule>) -> Seq<JsonV>
    decreases rules.len(),
{
    if rules.len() == 0 {
        Seq::empty()
    } else {
        let prev = spec_rule_values(rules.drop_last());
        match spec_routing_rule(rules.last()) {
            Some(v) => prev.push(v),
            None => prev,
        }
    }
}

/// The routing section.
pub open spec fn spec_routing(rules: Seq<SplitTunnelRule>, geo: GeoAssetStatus) -> JsonV {
    JsonV::Obj(Map::empty()
        .insert("domainStrategy"@, JsonV::Str("IPIfNonMatch"@))
        .insert("rules"@, JsonV::Arr(spec_default_rules(geo) + spec_rule_values(rules))))
}

fn field_rule(tag: &str, field: &str, values: Vec<Json>) -> (j: Json)
    ensures
        j.view() == spec_field_rule(tag@, field@, seq_view(values@)),
{
    let mut b = ObjBuilder::new();
    b.insert_str("type", "field");
    b.insert_str("outboundTag", tag);
    b.insert(field, json_arr(values));
    b.build()
}

fn push_str(v: &mut Vec<Json>, s: &str)
    ensures
        seq_view(final(v)@) == seq_view(old(v)@).push(JsonV::Str(s@)),
{
    push_json(v, Json::Str(s.to_owned()));
}

fn default_rules(geo: GeoAssetStatus, out: &mut Vec<Json>)
    requires
        seq_view(old(out)@) == Seq::<JsonV>::empty(),
    ensures
        seq_view(final(out)@) == spec_default_rules(geo),
{
    if geo.available {
        let mut ips = new_arr();
        push_str(&mut ips, "geoip:private");
        let mut domains = new_arr();
        push_str(&mut domains, "geosite:category-ads-all");
        push_json(out, field_rule("direct", "ip", ips));
        push_json(out, field_rule("block", "domain", domains));
    } else {
        let mut ips = new_arr();
        push_str(&mut ips, "10.0.0.0/8");
        push_str(&mut ips, "172.16.0.0/12");
        push_str(&mut ips, "192.168.0.0/16");
        push_str(&mut ips, "127.0.0.0/8");
        push_str(&mut ips, "fc00::/7");
        push_str(&mut ips, "fe80::/10");
        let mut domains = new_arr();
        push_str(&mut domains, "localhost");
        push_str(&mut domains, "localhost.localdomain");
        push_str(&mut domains, "regexp:.*\\.local$");
        proof {
            assert(seq_view(ips@) =~= spec_private_cidrs());
            assert(seq_view(domains@) =~= spec_localhost_domains());
        }
        push_json(out, field_rule("direct", "ip", ips));
        push_json(out, field_rule("direct", "domain", domains));
    }
    proof {
        assert(seq_view(out@) =~= spec_default_rules(geo));
    }
}

/// Whether a value starts with `*` or `.`.
fn starts_wild(v: &str) -> (r: bool)
    ensures
        r == (v@.len() > 0 && (v@[0] == '*' || v@[0] == '.')),
{
    let n = v.unicode_len();
    if n == 0 {
        false
    } else {
        let c = v.get_char(0);
        c == '*' || c == '.'
    }
}

/// The domain matcher of a domain rule's value.
pub fn domain_matcher(v: &str) -> (r: String)
    ensures
        r@ == spec_domain_matcher(v@),
{
    if starts_wild(v) {
        let stars = trim_start_char(v, '*');
        let rest = trim_start_char(stars.as_str(), '.');
        let mut r = "domain:".to_owned();
        r.append(rest.as_str());
        r
    } else {
        v.to_owned()
    }
}

/// The Xray routing rule of a split-tunnel rule, or `None` for an
/// application rule, which Xray cannot match.
pub fn build_routing_rule(rule: &SplitTunnelRule) -> (r: Option<Json>)
    ensures
        match r {
            Some(j) => spec_routing_rule(*rule) == Some(j.view()),
            None => spec_routing_rule(*rule) is None,
        },
{
    let tag = match rule.action {
        SplitTunnelAction::Direct => "direct",
        SplitTunnelAction::Proxy => "proxy",
    };
    match rule.target {
        SplitTunnelTarget::Domain => {
            let mut v = new_arr();
            push_json(&mut v, Json::Str(domain_matcher(rule.value.as_str())));
            Some(field_rule(tag, "domain", v))
        },
        SplitTunnelTarget::Ip | SplitTunnelTarget::Cidr => {
            let mut v = new_arr();
            push_json(&mut v, Json::Str(rule.value.clone()));
            Some(field_rule(tag, "ip", v))
        },
        SplitTunnelTarget::App => None,
    }
}

/// The routing section: the default rules for the geo asset status, then
/// one rule per split-tunnel rule that Xray can express.
pub fn routing(rules: &[SplitTunnelRule], geo: GeoAssetStatus) -> (j: Json)
    ensures
        j.view() == spec_routing(rules@, geo),
{
    let mut v = new_arr();
    default_rules(geo, &mut v);
    let n = rules.len();
    let mut i: usize = 0;
    proof {
        assert(spec_default_rules(geo) + spec_rule_values(rules@.take(0)) =~= spec_default_rules(geo));
    }
    while i < n
        invariant
            n == rules@.len(),
            i <= n,
            seq_view(v@) == spec_default_rules(geo) + spec_rule_values(rules@.take(i as int)),
        decreases n - i,
    {
        proof {
            assert(rules@.take(i + 1).drop_last() =~= rules@.take(i as int));
        }
        match build_routing_rule(&rules[i]) {
            Some(r) => {
                let ghost rv = r.view();
                push_json(&mut v, r);
                proof {
                    assert(spec_default_rules(geo) + spec_rule_values(rules@.take(i + 1)) =~= (spec_default_rules(geo) + spec_rule_values(rules@.take(i as int))).push(rv));
                }
            },
            None => {},
        }
        i = i + 1;
    }
    proof {
        assert(rules@.take(n as int) =~= rules@);
    }
    let mut b = ObjBuilder::new();
    b.insert_str("domainStrategy", "IPIfNonMatch");
    b.insert("rules", json_arr(v));
    b.build()
}


// ---------------------------------------------------------------------------
// The proxy outbound
// ---------------------------------------------------------------------------

/// The string in `o`, or `d` when there is none.
pub open spec fn opt_or(o: Option<String>, d: Seq<char>) -> Seq<char> {
    match o {
        Some(s) => s@,
        None => d,
    }
}

/// The TLS server name: the SNI, or the server address when there is none.
pub open spec fn spec_server_name(node: ProxyNode) -> Seq<char> {
    opt_or(node.sni, node.server@)
}

pub open spec fn spec_tls_settings(node: ProxyNode) -> Map<Seq<char>, JsonV> {
    let m = Map::empty().insert("serverName"@, JsonV::Str(spec_server_name(node)));
    let m = match node.alpn {
        Some(a) => m.insert("alpn"@, spec_str_array(a@)),
        None => m,
    };
    opt_str_entry(m, "fingerprint"@, node.fingerprint)
}

pub open spec fn spec_reality_settings(node: ProxyNode) -> Map<Seq<char>, JsonV> {
    let m = Map::empty().insert("serverName"@, JsonV::Str(spec_server_name(node)));
    let m = opt_str_entry(m, "publicKey"@, node.public_key);
    let m = m.insert("shortId"@, JsonV::Str(opt_or(node.short_id, ""@)));
    let m = opt_str_entry(m, "spiderX"@, node.spider_x);
    opt_str_entry(m, "fingerprint"@, node.fingerprint)
}

/// The stream settings that the node's security calls for, if any.
pub open spec fn spec_security_stream(node: ProxyNode) -> Option<Map<Seq<char>, JsonV>> {
    match node.security {
        Security::Plain => None,
        Security::Tls => Some(Map::empty()
            .insert("security"@, JsonV::Str("tls"@))
            .insert("tlsSettings"@, JsonV::Obj(spec_tls_settings(node)))),
        Security::Reality | Security::RealityPsk => Some(Map::empty()
            .insert("security"@, JsonV::Str("reality"@))
            .insert("realitySettings"@, JsonV::Obj(spec_reality_settings(node)))),
    }
}

/// Xray's network name of a transport; plain TCP needs none.
pub open spec fn spec_network(t: Transport) -> Option<Seq<char>> {
    match t {
        Transport::Tcp => None,
        Transport::Ws => Some("ws"@),
        Transport::Grpc => Some("grpc"@),
        Transport::H2 => Some("http"@),
        Transport::Xhttp => Some("xhttp"@),
        Transport::Splithttp => Some("splithttp"@),
        Transport::Kcp => Some("kcp"@),
    }
}

/// `m` with the XHTTP tuning of `e`: first the unmodelled raw fields, then
/// the modelled ones, which take precedence.
pub open spec fn spec_apply_extra(m: Map<Seq<char>, JsonV>, e: XhttpExtra) -> Map<Seq<char>, JsonV> {
    let m = spec_insert_raw_all(m, e.other@);
    let m = opt_str_entry(m, "mode"@, e.mode);
    let m = match e.max_connections {
        Some(x) => m.insert("maxConnections"@, JsonV::Num(x as nat)),
        None => m,
    };
    let m = match e.max_concurrent_uploads {
        Some(x) => m.insert("maxConcurrentUploads"@, JsonV::Num(x as nat)),
        None => m,
    };
    let m = match e.no_grpc_header {
        Some(b) => m.insert("noGRPCHeader"@, JsonV::Bool(b)),
        None => m,
    };
    opt_str_entry(m, "xPaddingBytes"@, e.x_padding_bytes)
}

/// XHTTP and SplitHTTP share their settings shape.
pub open spec fn spec_is_xhttp_like(t: Transport) -> bool {
    t == Transport::Xhttp || t == Transport::Splithttp
}

/// The transport-specific settings object.
pub open spec fn spec_transport_settings(node: ProxyNode) -> Map<Seq<char>, JsonV> {
    match node.transport {
        Transport::Ws | Transport::H2 | Transport::Xhttp | Transport::Splithttp => {
            let m = if spec_is_xhttp_like(node.transport) {
                Map::empty().insert("path"@, JsonV::Str(opt_or(node.path, "/"@)))
            } else {
                opt_str_entry(Map::empty(), "path"@, node.path)
            };
            let m = opt_str_entry(m, "host"@, node.host);
            match node.extra {
                Some(e) => {
                    let m = spec_apply_extra(m, e);
                    if e.headers@.len() > 0 {
                        m.insert("headers"@, JsonV::Obj(spec_pairs_map(e.headers@)))
                    } else {
                        m
                    }
                },
                None => m,
            }
        },
        Transport::Grpc => opt_str_entry(Map::empty(), "serviceName"@, node.service_name),
        _ => Map::empty(),
    }
}

/// The outbound's stream settings: the security part, then for a transport
/// other than TCP its network name and `<network>Settings`.
pub open spec fn spec_stream_settings(node: ProxyNode) -> Option<Map<Seq<char>, JsonV>> {
    match spec_network(node.transport) {
        None => spec_security_stream(node),
        Some(net) => {
            let base = match spec_security_stream(node) {
                Some(s) => s,
                None => Map::empty(),
            };
            Some(base
                .insert("network"@, JsonV::Str(net))
                .insert(net + "Settings"@, JsonV::Obj(spec_transport_settings(node))))
        },
    }
}

/// `m` with the stream settings of `node`, if it has any.
pub open spec fn spec_with_stream(m: Map<Seq<char>, JsonV>, node: ProxyNode) -> Map<Seq<char>, JsonV> {
    match spec_stream_settings(node) {
        Some(s) => m.insert("streamSettings"@, JsonV::Obj(s)),
        None => m,
    }
}

/// The proxy outbound around the protocol settings.
pub open spec fn spec_proxy_outbound(protocol: Seq<char>, settings: JsonV, node: ProxyNode) -> JsonV {
    JsonV::Obj(spec_with_stream(Map::empty()
        .insert("protocol"@, JsonV::Str(protocol))
        .insert("settings"@, settings), node)
        .insert("tag"@, JsonV::Str("proxy"@)))
}

pub open spec fn spec_vless_user(node: ProxyNode, uuid: Seq<char>) -> Map<Seq<char>, JsonV> {
    let m = Map::empty()
        .insert("id"@, JsonV::Str(uuid))
        .insert("encryption"@, JsonV::Str(opt_or(node.encryption, "none"@)));
    let m = opt_str_entry(m, "flow"@, node.flow);
    opt_str_entry(m, "fingerprint"@, node.fingerprint)
}

pub open spec fn spec_vless_settings(node: ProxyNode, uuid: Seq<char>) -> JsonV {
    let vnext = Map::empty()
        .insert("address"@, JsonV::Str(node.server@))
        .insert("port"@, JsonV::Num(node.port as nat))
        .insert("users"@, arr1(JsonV::Obj(spec_vless_user(node, uuid))));
    JsonV::Obj(Map::empty().insert("vnext"@, arr1(JsonV::Obj(vnext))))
}

pub open spec fn spec_trojan_settings(node: ProxyNode, password: Seq<char>) -> JsonV {
    let server = Map::empty()
        .insert("address"@, JsonV::Str(node.server@))
        .insert("port"@, JsonV::Num(node.port as nat))
        .insert("password"@, JsonV::Str(password));
    let server = opt_str_entry(server, "sni"@, node.sni);
    let server = opt_str_entry(server, "fingerprint"@, node.fingerprint);
    JsonV::Obj(Map::empty().insert("servers"@, arr1(JsonV::Obj(server))))
}

/// The proxy outbound of a node, or the reason Xray-core cannot serve it.
pub open spec fn spec_outbound(node: ProxyNode) -> Result<JsonV, Seq<char>> {
    match node.protocol {
        Protocol::Vless => match node.uuid {
            Some(u) => Ok(spec_proxy_outbound("vless"@, spec_vless_settings(node, u@), node)),
            None => Err("VLESS requires a UUID"@),
        },
        Protocol::Trojan => match node.password {
            Some(p) => Ok(spec_proxy_outbound("trojan"@, spec_trojan_settings(node, p@), node)),
            None => Err("Trojan requires a password"@),
        },
        _ => Err("Protocol "@ + node.protocol.spec_debug_name() + " not supported by Xray-core generator"@),
    }
}

pub open spec fn opt_obj_view(o: Option<ObjBuilder>) -> Option<Map<Seq<char>, JsonV>> {
    match o {
        Some(b) => Some(b.view()),
        None => None,
    }
}

fn server_name(node: &ProxyNode) -> (s: &str)
    ensures
        s@ == spec_server_name(*node),
{
    match &node.sni {
        Some(sni) => sni.as_str(),
        None => node.server.as_str(),
    }
}

fn tls_settings(node: &ProxyNode) -> (b: ObjBuilder)
    ensures
        b.view() == spec_tls_settings(*node),
{
    let mut tls = ObjBuilder::new();
    tls.insert_str("serverName", server_name(node));
    match &node.alpn {
        Some(a) => tls.insert("alpn", json_str_array(a)),
        None => {},
    }
    tls.insert_opt_str("fingerprint", &node.fingerprint);
    tls
}

fn reality_settings(node: &ProxyNode) -> (b: ObjBuilder)
    ensures
        b.view() == spec_reality_settings(*node),
{
    let mut r = ObjBuilder::new();
    r.insert_str("serverName", server_name(node));
    r.insert_opt_str("publicKey", &node.public_key);
    match &node.short_id {
        Some(sid) => r.insert_str("shortId", sid.as_str()),
        None => r.insert_str("shortId", ""),
    }
    r.insert_opt_str("spiderX", &node.spider_x);
    r.insert_opt_str("fingerprint", &node.fingerprint);
    r
}

/// The stream settings that TLS or REALITY calls for.
fn build_tls(node: &ProxyNode) -> (r: Option<ObjBuilder>)
    ensures
        opt_obj_view(r) == spec_security_stream(*node),
{
    match node.security {
        Security::Plain => None,
        Security::Tls => {
            let mut s = ObjBuilder::new();
            s.insert_str("security", "tls");
            s.insert("tlsSettings", tls_settings(node).build());
            Some(s)
        },
        Security::Reality | Security::RealityPsk => {
            let mut s = ObjBuilder::new();
            s.insert_str("security", "reality");
            s.insert("realitySettings", reality_settings(node).build());
            Some(s)
        },
    }
}

fn network_name(t: Transport) -> (r: Option<&'static str>)
    ensures
        match r {
            Some(s) => spec_network(t) == Some(s@),
            None => spec_network(t) is None,
        },
{
    match t {
        Transport::Tcp => None,
        Transport::Ws => Some("ws"),
        Transport::Grpc => Some("grpc"),
        Transport::H2 => Some("http"),
        Transport::Xhttp => Some("xhttp"),
        Transport::Splithttp => Some("splithttp"),
        Transport::Kcp => Some("kcp"),
    }
}

/// Copies the XHTTP tuning of `extra` into the transport settings.
fn apply_xhttp_extra(t: &mut ObjBuilder, extra: &XhttpExtra)
    ensures
        final(t).view() == spec_apply_extra(old(t).view(), *extra),
{
    t.insert_raw_all(&extra.other);
    t.insert_opt_str("mode", &extra.mode);
    match extra.max_connections {
        Some(x) => t.insert_num("maxConnections", x as u64),
        None => {},
    }
    match extra.max_concurrent_uploads {
        Some(x) => t.insert_num("maxConcurrentUploads", x as u64),
        None => {},
    }
    match extra.no_grpc_header {
        Some(b) => t.insert_bool("noGRPCHeader", b),
        None => {},
    }
    t.insert_opt_str("xPaddingBytes", &extra.x_padding_bytes);
}

fn transport_settings(node: &ProxyNode) -> (b: ObjBuilder)
    ensures
        b.view() == spec_transport_settings(*node),
{
    let mut t = ObjBuilder::new();
    match node.transport {
        Transport::Ws | Transport::H2 | Transport::Xhttp | Transport::Splithttp => {
            if node.transport == Transport::Xhttp || node.transport == Transport::Splithttp {
                match &node.path {
                    Some(p) => t.insert_str("path", p.as_str()),
                    None => t.insert_str("path", "/"),
                }
            } else {
                t.insert_opt_str("path", &node.path);
            }
            t.insert_opt_str("host", &node.host);
            match &node.extra {
                Some(e) => {
                    apply_xhttp_extra(&mut t, e);
                    if e.headers.len() > 0 {
                        t.insert("headers", pairs_object(&e.headers));
                    }
                },
                None => {},
            }
        },
        Transport::Grpc => {
            t.insert_opt_str("serviceName", &node.service_name);
        },
        _ => {},
    }
    t
}

/// The stream settings of the proxy outbound: those of the security, then
/// the network and its settings for a transport other than TCP.
fn build_transport(node: &ProxyNode, tls: Option<ObjBuilder>) -> (r: Option<ObjBuilder>)
    requires
        opt_obj_view(tls) == spec_security_stream(*node),
    ensures
        opt_obj_view(r) == spec_stream_settings(*node),
{
    match network_name(node.transport) {
        None => tls,
        Some(net) => {
            let mut base = match tls {
                Some(b) => b,
                None => ObjBuilder::new(),
            };
            base.insert_str("network", net);
            let mut key = net.to_owned();
            key.append("Settings");
            base.insert(key.as_str(), transport_settings(node).build());
            Some(base)
        },
    }
}

fn proxy_outbound(protocol: &str, settings: Json, node: &ProxyNode) -> (j: Json)
    ensures
        j.view() == spec_proxy_outbound(protocol@, settings.view(), *node),
{
    let mut b = ObjBuilder::new();
    b.insert_str("protocol", protocol);
    b.insert("settings", settings);
    let stream = build_transport(node, build_tls(node));
    match stream {
        Some(s) => b.insert("streamSettings", s.build()),
        None => {},
    }
    b.insert_str("tag", "proxy");
    b.build()
}

fn one(j: Json) -> (a: Json)
    ensures
        a.view() == arr1(j.view()),
{
    let mut v = new_arr();
    push_json(&mut v, j);
    json_arr(v)
}

/// The VLESS outbound for a node with the identifier `uuid`.
fn build_vless_outbound(node: &ProxyNode, uuid: &str) -> (j: Json)
    ensures
        j.view() == spec_proxy_outbound("vless"@, spec_vless_settings(*node, uuid@), *node),
{
    let mut user = ObjBuilder::new();
    user.insert_str("id", uuid);
    match &node.encryption {
        Some(e) => user.insert_str("encryption", e.as_str()),
        None => user.insert_str("encryption", "none"),
    }
    user.insert_opt_str("flow", &node.flow);
    user.insert_opt_str("fingerprint", &node.fingerprint);
    let mut vnext = ObjBuilder::new();
    vnext.insert_str("address", node.server.as_str());
    vnext.insert_num("port", node.port as u64);
    vnext.insert("users", one(user.build()));
    let mut settings = ObjBuilder::new();
    settings.insert("vnext", one(vnext.build()));
    proxy_outbound("vless", settings.build(), node)
}

/// The Trojan outbound for a node with the password `password`.
fn build_trojan_outbound(node: &ProxyNode, password: &str) -> (j: Json)
    ensures
        j.view() == spec_proxy_outbound("trojan"@, spec_trojan_settings(*node, password@), *node),
{
    let mut server = ObjBuilder::new();
    server.insert_str("address", node.server.as_str());
    server.insert_num("port", node.port as u64);
    server.insert_str("password", password);
    server.insert_opt_str("sni", &node.sni);
    server.insert_opt_str("fingerprint", &node.fingerprint);
    let mut settings = ObjBuilder::new();
    settings.insert("servers", one(server.build()));
    proxy_outbound("trojan", settings.build(), node)
}

/// The proxy outbound of a node: VLESS needs a UUID and Trojan a password;
/// other protocols are not served by Xray-core.
pub fn build_outbound(node: &ProxyNode) -> (r: Result<Json, String>)
    ensures
        match r {
            Ok(j) => spec_outbound(*node) == Ok::<JsonV, Seq<char>>(j.view()),
            Err(e) => spec_outbound(*node) == Err::<JsonV, Seq<char>>(e@),
        },
{
    match node.protocol {
        Protocol::Vless => match &node.uuid {
            Some(u) => Ok(build_vless_outbound(node, u.as_str())),
            None => Err("VLESS requires a UUID".to_owned()),
        },
        Protocol::Trojan => match &node.password {
            Some(p) => Ok(build_trojan_outbound(node, p.as_str())),
            None => Err("Trojan requires a password".to_owned()),
        },
        _ => {
            let mut m = "Protocol ".to_owned();
            m.append(node.protocol.debug_name());
            m.append(" not supported by Xray-core generator");
            Err(m)
        },
    }
}


// ---------------------------------------------------------------------------
// The whole configuration
// ---------------------------------------------------------------------------

/// Port selection for proxy inbounds.
#[derive(Debug, Clone, Copy, Default)]
pub struct InboundPorts {
    pub socks_port: Option<u16>,
    pub http_port: Option<u16>,
    pub mixed_port: Option<u16>,
}

/// A generated Xray configuration with the local ports it exposes.
#[derive(Debug)]
pub struct XrayConfig {
    pub json: Json,
    pub socks_port: Option<u16>,
    pub http_port: Option<u16>,
    pub mixed_port: Option<u16>,
}

/// The exposed (SOCKS, HTTP, mixed) ports: a mixed port excludes the other
/// two, and with no port requested the default mixed port is used.
pub open spec fn spec_ports(ports: InboundPorts) -> (Option<u16>, Option<u16>, Option<u16>) {
    match ports.mixed_port {
        Some(p) => (None, None, Some(p)),
        None => if ports.socks_port is None && ports.http_port is None {
            (None, None, Some(DEFAULT_MIXED_PORT))
        } else {
            (ports.socks_port, ports.http_port, None)
        },
    }
}

/// The inbounds for the exposed ports, in the order SOCKS, HTTP.
pub open spec fn spec_inbounds(ports: InboundPorts) -> Seq<JsonV> {
    match ports.mixed_port {
        Some(p) => seq![spec_mixed_inbound(p)],
        None => {
            let s = match ports.socks_port {
                Some(p) => seq![spec_socks_inbound(p)],
                None => Seq::empty(),
            };
            let s = match ports.http_port {
                Some(p) => s.push(spec_http_inbound(p)),
                None => s,
            };
            if s.len() == 0 { seq![spec_mixed_inbound(DEFAULT_MIXED_PORT)] } else { s }
        },
    }
}

/// The configuration document around a proxy outbound.
pub open spec fn spec_root(outbound: JsonV, ports: InboundPorts, rules: Seq<SplitTunnelRule>, geo: GeoAssetStatus) -> JsonV {
    JsonV::Obj(Map::empty()
        .insert("log"@, JsonV::Obj(Map::empty().insert("loglevel"@, JsonV::Str("warning"@))))
        .insert("api"@, spec_api_service(0))
        .insert("inbounds"@, JsonV::Arr(spec_inbounds(ports)))
        .insert("outbounds"@, JsonV::Arr(seq![outbound, spec_direct_outbound(), spec_block_outbound()]))
        .insert("routing"@, spec_routing(rules, geo))
        .insert("policy"@, spec_stats_policy()))
}

/// The Xray configuration of a node, or why there is none.
pub open spec fn spec_xray_config(node: ProxyNode, ports: InboundPorts, rules: Seq<SplitTunnelRule>, geo: GeoAssetStatus) -> Result<JsonV, Seq<char>> {
    match spec_outbound(node) {
        Ok(o) => Ok(spec_root(o, ports, rules, geo)),
        Err(e) => Err(e),
    }
}

fn inbounds(ports: InboundPorts) -> (v: Vec<Json>)
    ensures
        seq_view(v@) == spec_inbounds(ports),
{
    let mut v = new_arr();
    match ports.mixed_port {
        Some(p) => {
            push_json(&mut v, mixed_inbound(p));
            proof {
                assert(seq_view(v@) =~= spec_inbounds(ports));
            }
        },
        None => {
            match ports.socks_port {
                Some(p) => push_json(&mut v, socks_inbound(p)),
                None => {},
            }
            match ports.http_port {
                Some(p) => push_json(&mut v, http_inbound(p)),
                None => {},
            }
            if v.len() == 0 {
                push_json(&mut v, mixed_inbound(DEFAULT_MIXED_PORT));
            }
            proof {
                assert(seq_view(v@) =~= spec_inbounds(ports));
            }
        },
    }
    v
}

/// Generates the Xray-core configuration for `node`: inbounds on the
/// requested local ports, the proxy outbound with direct and block
/// outbounds, routing for the split-tunnel rules and the geo asset status,
/// and the stats API and policy.
pub fn generate_config(
    node: &ProxyNode,
    ports: InboundPorts,
    rules: &[SplitTunnelRule],
    geo_status: GeoAssetStatus,
) -> (r: Result<XrayConfig, String>)
    ensures
        match r {
            Ok(cfg) => {
                &&& spec_xray_config(*node, ports, rules@, geo_status) == Ok::<JsonV, Seq<char>>(cfg.json.view())
                &&& (cfg.socks_port, cfg.http_port, cfg.mixed_port) == spec_ports(ports)
            },
            Err(e) => spec_xray_config(*node, ports, rules@, geo_status) == Err::<JsonV, Seq<char>>(e@),
        },
{
    let outbound = match build_outbound(node) {
        Ok(o) => o,
        Err(e) => return Err(e),
    };
    let (socks_port, http_port, mixed_port) = match ports.mixed_port {
        Some(p) => (None, None, Some(p)),
        None => if ports.socks_port.is_none() && ports.http_port.is_none() {
            (None, None, Some(DEFAULT_MIXED_PORT))
        } else {
            (ports.socks_port, ports.http_port, None)
        },
    };
    let mut log = ObjBuilder::new();
    log.insert_str("loglevel", "warning");
    let mut outbounds = new_arr();
    push_json(&mut outbounds, outbound);
    push_json(&mut outbounds, direct_outbound());
    push_json(&mut outbounds, block_outbound());
    let mut root = ObjBuilder::new();
    root.insert("log", log.build());
    root.insert("api", api_service(0));
    root.insert("inbounds", json_arr(inbounds(ports)));
    proof {
        assert(seq_view(outbounds@) =~= seq![seq_view(outbounds@)[0], spec_direct_outbound(), spec_block_outbound()]);
    }
    root.insert("outbounds", json_arr(outbounds));
    root.insert("routing", routing(rules, geo_status));
    root.insert("policy", stats_policy());
    Ok(XrayConfig { json: root.build(), socks_port, http_port, mixed_port })
}

} // verus!

use ironpass::backend::{Backend, BackendSnapshot, CoreType, GeoAssetStatus, ProxyPorts, SingBoxBackend, XrayBackend};
use ironpass::json::Json;
use ironpass::models::{Protocol, ProxyNode, Security, Transport, XhttpExtra};
use ironpass::singbox::{parse_shadowsocks_auth, protocol_type};
use ironpass::split_tunnel::{SplitTunnelAction, SplitTunnelRule, SplitTunnelTarget};
use ironpass::xray::{generate_config, InboundPorts};
use serde_json::Value;

fn to_value(j: &Json) -> Value {
    match j {
        Json::Null => Value::Null,
        Json::Bool(b) => Value::Bool(*b),
        Json::Num(n) => Value::from(*n),
        Json::Str(s) => Value::String(s.clone()),
        Json::Arr(v) => Value::Array(v.iter().map(to_value).collect()),
        Json::Obj(m) => {
            let mut out = serde_json::Map::new();
            for (k, v) in m {
                out.insert(k.clone(), to_value(v));
            }
            Value::Object(out)
        }
        Json::Raw(s) => serde_json::from_str(s).unwrap_or_else(|_| Value::String(s.clone())),
    }
}

fn node(protocol: Protocol, transport: Transport, security: Security) -> ProxyNode {
    ProxyNode {
        protocol,
        name: "n".into(),
        server: "example.com".into(),
        port: 443,
        uuid: Some("550e8400-e29b-41d4-a716-446655440000".into()),
        password: Some("secret".into()),
        alter_id: None,
        encryption: None,
        transport,
        security,
        flow: None,
        sni: None,
        fingerprint: None,
        public_key: None,
        short_id: None,
        spider_x: None,
        path: None,
        host: None,
        service_name: None,
        alpn: None,
        extra: None,
        tags: Vec::new(),
        raw_uri: String::new(),
    }
}

fn proxy_outbound(v: &Value) -> Value {
    v["outbounds"].as_array().unwrap().iter().find(|o| o["tag"] == "proxy").unwrap().clone()
}

#[test]
fn xray_refuses_what_it_cannot_serve() {
    let g = GeoAssetStatus::new(true);
    let vmess = node(Protocol::Vmess, Transport::Tcp, Security::Tls);
    assert_eq!(
        generate_config(&vmess, InboundPorts::default(), &[], g).err().unwrap(),
        "Protocol Vmess not supported by Xray-core generator"
    );
    let mut vless = node(Protocol::Vless, Transport::Tcp, Security::Tls);
    vless.uuid = None;
    assert_eq!(generate_config(&vless, InboundPorts::default(), &[], g).err().unwrap(), "VLESS requires a UUID");
    let mut trojan = node(Protocol::Trojan, Transport::Tcp, Security::Tls);
    trojan.password = None;
    assert_eq!(generate_config(&trojan, InboundPorts::default(), &[], g).err().unwrap(), "Trojan requires a password");
}

#[test]
fn xray_mixed_port_excludes_the_others() {
    let n = node(Protocol::Vless, Transport::Tcp, Security::Plain);
    let ports = InboundPorts { socks_port: Some(1080), http_port: Some(8080), mixed_port: Some(2080) };
    let cfg = generate_config(&n, ports, &[], GeoAssetStatus::new(true)).ok().unwrap();
    assert_eq!((cfg.socks_port, cfg.http_port, cfg.mixed_port), (None, None, Some(2080)));
    let v = to_value(&cfg.json);
    let inbounds = v["inbounds"].as_array().unwrap();
    assert_eq!(inbounds.len(), 1);
    assert_eq!(inbounds[0]["tag"], "mixed-in");
    assert_eq!(inbounds[0]["port"], 2080);
    assert!(proxy_outbound(&v).get("streamSettings").is_none());
    let cfg = generate_config(&n, InboundPorts::default(), &[], GeoAssetStatus::new(true)).ok().unwrap();
    assert_eq!(cfg.mixed_port, Some(11080));
}

#[test]
fn xray_tls_and_reality_settings() {
    let mut n = node(Protocol::Vless, Transport::Ws, Security::Tls);
    n.alpn = Some(vec!["h2".into(), "http/1.1".into()]);
    n.path = Some("/ws".into());
    let v = to_value(&generate_config(&n, InboundPorts::default(), &[], GeoAssetStatus::new(true)).ok().unwrap().json);
    let stream = &proxy_outbound(&v)["streamSettings"];
    assert_eq!(stream["security"], "tls");
    assert_eq!(stream["tlsSettings"]["serverName"], "example.com");
    assert_eq!(stream["tlsSettings"]["alpn"][1], "http/1.1");
    assert_eq!(stream["network"], "ws");
    assert_eq!(stream["wsSettings"]["path"], "/ws");
    let mut r = node(Protocol::Vless, Transport::Tcp, Security::RealityPsk);
    r.sni = Some("sni.example.com".into());
    let v = to_value(&generate_config(&r, InboundPorts::default(), &[], GeoAssetStatus::new(true)).ok().unwrap().json);
    let stream = &proxy_outbound(&v)["streamSettings"];
    assert_eq!(stream["security"], "reality");
    assert_eq!(stream["realitySettings"]["serverName"], "sni.example.com");
    assert_eq!(stream["realitySettings"]["shortId"], "");
    let users = &proxy_outbound(&v)["settings"]["vnext"][0]["users"][0];
    assert_eq!(users["encryption"], "none");
}

#[test]
fn xray_splithttp_defaults_its_path() {
    let n = node(Protocol::Trojan, Transport::Splithttp, Security::Tls);
    let v = to_value(&generate_config(&n, InboundPorts::default(), &[], GeoAssetStatus::new(true)).ok().unwrap().json);
    let stream = &proxy_outbound(&v)["streamSettings"];
    assert_eq!(stream["network"], "splithttp");
    assert_eq!(stream["splithttpSettings"]["path"], "/");
    assert_eq!(proxy_outbound(&v)["settings"]["servers"][0]["password"], "secret");
}

#[test]
fn xray_rule_count_skips_application_rules() {
    let n = node(Protocol::Vless, Transport::Tcp, Security::Tls);
    let rules = vec![
        SplitTunnelRule::new(1, SplitTunnelTarget::App, "curl".into(), SplitTunnelAction::Direct, None, 0),
        SplitTunnelRule::new(2, SplitTunnelTarget::Domain, ".example.org".into(), SplitTunnelAction::Proxy, None, 0),
        SplitTunnelRule::new(3, SplitTunnelTarget::App, "wget".into(), SplitTunnelAction::Proxy, None, 0),
    ];
    let v = to_value(&generate_config(&n, InboundPorts::default(), &rules, GeoAssetStatus::new(false)).ok().unwrap().json);
    let routing = v["routing"]["rules"].as_array().unwrap();
    assert_eq!(routing.len(), 3);
    assert_eq!(routing[2]["domain"][0], "domain:example.org");
    assert_eq!(v["routing"]["domainStrategy"], "IPIfNonMatch");
    assert_eq!(v["log"]["loglevel"], "warning");
    assert_eq!(v["api"]["services"][0], "StatsService");
    assert_eq!(v["policy"]["levels"]["0"]["statsUserUplink"], true);
}

#[test]
fn singbox_protocol_fields() {
    assert_eq!(protocol_type(&node(Protocol::Hysteria2, Transport::Tcp, Security::Tls)), "block");
    let mut vmess = node(Protocol::Vmess, Transport::Grpc, Security::Plain);
    vmess.alter_id = Some(2);
    vmess.service_name = Some("svc".into());
    let cfg = ironpass::singbox::generate_config(&vmess, ironpass::singbox::InboundPorts::default()).ok().unwrap();
    let v = to_value(&cfg.json);
    let p = proxy_outbound(&v);
    assert_eq!(p["type"], "vmess");
    assert_eq!(p["alter_id"], 2);
    assert_eq!(p["security"], "auto");
    assert_eq!(p["transport"]["type"], "grpc");
    assert_eq!(p["transport"]["service_name"], "svc");
    assert!(p.get("tls").is_none());
    assert_eq!(v["route"]["final_"], "proxy");
    assert_eq!(v["dns"]["servers"][1]["detour"], "direct");
}

#[test]
fn singbox_shadowsocks_credentials() {
    let mut ss = node(Protocol::Shadowsocks, Transport::Tcp, Security::Plain);
    ss.uuid = Some("aes-256-gcm:pa:ss".into());
    assert_eq!(parse_shadowsocks_auth(&ss), Ok(("aes-256-gcm".to_string(), "pa:ss".to_string())));
    ss.uuid = None;
    ss.password = Some("nocolon".into());
    assert_eq!(parse_shadowsocks_auth(&ss), Err("Invalid Shadowsocks credentials".to_string()));
    assert_eq!(
        ironpass::singbox::generate_config(&ss, ironpass::singbox::InboundPorts::default()).err().unwrap(),
        "Invalid Shadowsocks credentials"
    );
    let tuic = node(Protocol::Tuic, Transport::Tcp, Security::Plain);
    assert_eq!(
        ironpass::singbox::generate_config(&tuic, ironpass::singbox::InboundPorts::default()).err().unwrap(),
        "Protocol Tuic not supported by sing-box generator"
    );
}

#[test]
fn singbox_xhttp_headers_merge_after_host() {
    let mut n = node(Protocol::Vless, Transport::Xhttp, Security::Reality);
    n.host = Some("h.example.com".into());
    n.encryption = Some("none".into());
    n.extra = Some(XhttpExtra {
        headers: vec![("X-A".into(), "1".into()), ("Host".into(), "override".into())],
        max_connections: Some(3),
        ..Default::default()
    });
    let v = to_value(&ironpass::singbox::generate_config(&n, ironpass::singbox::InboundPorts::default()).ok().unwrap().json);
    let p = proxy_outbound(&v);
    assert_eq!(p["packet_encoding"], "xudp");
    assert_eq!(p["transport"]["headers"]["Host"], "override");
    assert_eq!(p["transport"]["headers"]["X-A"], "1");
    assert_eq!(p["transport"]["max_connections"], 3);
    assert_eq!(p["tls"]["reality"]["enabled"], true);
}

#[test]
fn backends_generate_with_their_core() {
    let n = node(Protocol::Vless, Transport::Xhttp, Security::Tls);
    let ports = ProxyPorts { socks: Some(1080), http: None, mixed: None };
    let xray = XrayBackend::new();
    let cfg = Backend::generate_config(&xray, &n, ports, &[]).ok().unwrap();
    assert!(to_value(&cfg.json).get("routing").is_some());
    assert_eq!(cfg.socks_port, Some(1080));
    let sing = SingBoxBackend::new();
    let cfg = Backend::generate_config(&sing, &n, ports, &[]).ok().unwrap();
    assert!(to_value(&cfg.json).get("route").is_some());
    assert_eq!(Backend::core_type(&sing), CoreType::SingBox);
    let snap = BackendSnapshot::from_xray(&xray);
    assert_eq!(snap.core_type(), CoreType::Xray);
    assert!(snap.supports(&n));
    assert!(snap.generate_config(&n, ports, &[]).is_ok());
}

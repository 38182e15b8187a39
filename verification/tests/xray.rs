use ironpass::backend::GeoAssetStatus;
use ironpass::json::Json;
use ironpass::models::{Protocol, ProxyNode, Security, Transport, XhttpExtra};
use ironpass::split_tunnel::{SplitTunnelAction, SplitTunnelRule, SplitTunnelTarget};
use ironpass::xray::{generate_config, InboundPorts};
use serde_json::Value;

fn to_value(j: &Json) -> Value {
    match j {
        Json::Null => Value::Null,
        Json::Bool(b) => Value::Bool(*b),
        Json::Num(n) => Value::from(*n),
        Json::Str(s) => Value::String(s.clone()),
        Json::Arr(v) => Value::Array(v.iter().map(to_value).collect()),
        Json::Obj(m) => {
            let mut out = serde_json::Map::new();
            for (k, v) in m {
                out.insert(k.clone(), to_value(v));
            }
            Value::Object(out)
        }
        Json::Raw(s) => serde_json::from_str(s).unwrap_or_else(|_| Value::String(s.clone())),
    }
}

fn sample_vless_reality() -> ProxyNode {
    ProxyNode {
        protocol: Protocol::Vless,
        name: "vless-reality".into(),
        server: "example.com".into(),
        port: 443,
        uuid: Some("550e8400-e29b-41d4-a716-446655440000".into()),
        password: None,
        alter_id: None,
        encryption: Some("none".into()),
        transport: Transport::Tcp,
        security: Security::Reality,
        flow: Some("xtls-rprx-vision".into()),
        sni: Some("sni.example.com".into()),
        fingerprint: Some("chrome".into()),
        public_key: Some("pbk-example".into()),
        short_id: Some("0123456789abcdef".into()),
        spider_x: Some("/spider".into()),
        path: None,
        host: None,
        service_name: None,
        alpn: None,
        extra: None,
        tags: Vec::new(),
        raw_uri: String::new(),
    }
}

fn rule(target: SplitTunnelTarget, value: &str, action: SplitTunnelAction) -> SplitTunnelRule {
    SplitTunnelRule::new(0, target, value.to_string(), action, None, 0)
}

#[test]
fn xray_vless_reality_config_contains_outbound() {
    let node = sample_vless_reality();
    let cfg = generate_config(&node, InboundPorts::default(), &[], GeoAssetStatus::new(true)).unwrap();
    let value = to_value(&cfg.json);
    let outbounds = value.get("outbounds").unwrap().as_array().unwrap();
    let proxy = outbounds
        .iter()
        .find(|o| o.get("tag").unwrap() == "proxy")
        .unwrap();
    assert_eq!(proxy.get("protocol").unwrap(), "vless");
    assert!(proxy.get("streamSettings").is_some());
    assert!(cfg.mixed_port.is_some());
}

#[test]
fn vless_xhttp_extra_is_applied() {
    let mut node = sample_vless_reality();
    node.transport = Transport::Xhttp;
    node.security = Security::Tls;
    node.path = Some("/xhttp".into());
    node.host = Some("host.example.com".into());
    node.extra = Some(XhttpExtra {
        mode: Some("stream-up".into()),
        max_connections: Some(4),
        max_concurrent_uploads: Some(8),
        no_grpc_header: Some(false),
        x_padding_bytes: Some("100-200".into()),
        headers: vec![("X-Custom".into(), "value".into())],
        ..Default::default()
    });

    let cfg = generate_config(
        &node,
        InboundPorts {
            socks_port: Some(1080),
            http_port: Some(8080),
            ..Default::default()
        },
        &[],
        GeoAssetStatus::new(true),
    )
    .unwrap();

    let value = to_value(&cfg.json);
    let outbounds = value.get("outbounds").unwrap().as_array().unwrap();
    let proxy = outbounds
        .iter()
        .find(|o| o.get("tag").unwrap() == "proxy")
        .unwrap();
    let stream = proxy.get("streamSettings").unwrap();
    assert_eq!(stream.get("network").unwrap(), "xhttp");
    let xhttp = stream.get("xhttpSettings").unwrap();
    assert_eq!(xhttp.get("path").unwrap(), "/xhttp");
    assert_eq!(xhttp.get("host").unwrap(), "host.example.com");
    assert_eq!(xhttp.get("mode").unwrap(), "stream-up");
    assert_eq!(xhttp.get("maxConnections").unwrap(), 4);
    assert_eq!(xhttp.get("xPaddingBytes").unwrap(), "100-200");
    let headers = xhttp.get("headers").unwrap();
    assert_eq!(headers.get("X-Custom").unwrap(), "value");
    assert!(cfg.socks_port.is_some());
    assert!(cfg.http_port.is_some());
}

#[test]
fn vless_xhttp_raw_extra_fields_are_forwarded() {
    let mut node = sample_vless_reality();
    node.transport = Transport::Xhttp;
    node.security = Security::Tls;
    node.path = Some("/xhttp".into());
    node.host = Some("host.example.com".into());
    node.extra = Some(XhttpExtra {
        mode: Some("stream-up".into()),
        x_padding_bytes: Some("100-200".into()),
        other: vec![("xmux".into(), "{\"maxConnections\":8}".into())],
        ..Default::default()
    });

    let cfg = generate_config(
        &node,
        InboundPorts {
            socks_port: Some(1080),
            ..Default::default()
        },
        &[],
        GeoAssetStatus::new(true),
    )
    .unwrap();

    let value = to_value(&cfg.json);
    let outbounds = value.get("outbounds").unwrap().as_array().unwrap();
    let proxy = outbounds
        .iter()
        .find(|o| o.get("tag").unwrap() == "proxy")
        .unwrap();
    let xhttp = proxy["streamSettings"]["xhttpSettings"].as_object().unwrap();
    assert_eq!(xhttp.get("mode").unwrap(), "stream-up");
    assert_eq!(xhttp.get("xPaddingBytes").unwrap(), "100-200");
    let xmux = xhttp.get("xmux").unwrap().as_object().unwrap();
    assert_eq!(xmux.get("maxConnections").unwrap(), 8);
}

#[test]
fn trojan_grpc_config_is_generated() {
    let mut node = sample_vless_reality();
    node.protocol = Protocol::Trojan;
    node.password = Some("secret".into());
    node.uuid = None;
    node.security = Security::Tls;
    node.transport = Transport::Grpc;
    node.service_name = Some("MyService".into());
    node.sni = Some("sni.example.com".into());

    let cfg = generate_config(&node, InboundPorts::default(), &[], GeoAssetStatus::new(true)).unwrap();
    let value = to_value(&cfg.json);
    let outbounds = value.get("outbounds").unwrap().as_array().unwrap();
    let proxy = outbounds
        .iter()
        .find(|o| o.get("tag").unwrap() == "proxy")
        .unwrap();
    assert_eq!(proxy.get("protocol").unwrap(), "trojan");
    let stream = proxy.get("streamSettings").unwrap();
    assert_eq!(stream.get("network").unwrap(), "grpc");
    assert_eq!(
        stream
            .get("grpcSettings")
            .unwrap()
            .get("serviceName")
            .unwrap(),
        "MyService"
    );
}

#[test]
fn domain_rule_appears_in_routing() {
    let node = sample_vless_reality();
    let rules = vec![rule(SplitTunnelTarget::Domain, "example.com", SplitTunnelAction::Direct)];
    let cfg = generate_config(&node, InboundPorts::default(), &rules, GeoAssetStatus::new(true)).unwrap();
    let value = to_value(&cfg.json);
    let routing_rules = value["routing"]["rules"].as_array().unwrap();
    // default geoip:private + geosite:ads + 1 custom rule
    assert_eq!(routing_rules.len(), 3);
    let rule = &routing_rules[2];
    assert_eq!(rule.get("outboundTag").unwrap(), "direct");
    let domains = rule.get("domain").unwrap().as_array().unwrap();
    assert!(domains.iter().any(|d| d == "example.com"));
}

#[test]
fn fallback_routing_uses_private_cidrs_and_localhost() {
    let node = sample_vless_reality();
    let cfg = generate_config(
        &node,
        InboundPorts::default(),
        &[],
        GeoAssetStatus::new(false),
    )
    .unwrap();
    let value = to_value(&cfg.json);
    let routing_rules = value["routing"]["rules"].as_array().unwrap();
    assert_eq!(routing_rules.len(), 2);
    assert_eq!(routing_rules[0].get("outboundTag").unwrap(), "direct");
    let ips = routing_rules[0]["ip"].as_array().unwrap();
    assert!(ips.iter().any(|v| v == "10.0.0.0/8"));
    assert!(ips.iter().any(|v| v == "fc00::/7"));
    let domains = routing_rules[1]["domain"].as_array().unwrap();
    assert!(domains.iter().any(|v| v == "localhost"));
}

#[test]
fn geo_routing_uses_geoip_and_geosite() {
    let node = sample_vless_reality();
    let cfg = generate_config(
        &node,
        InboundPorts::default(),
        &[],
        GeoAssetStatus::new(true),
    )
    .unwrap();
    let value = to_value(&cfg.json);
    let routing_rules = value["routing"]["rules"].as_array().unwrap();
    assert_eq!(routing_rules.len(), 2);
    let ips = routing_rules[0]["ip"].as_array().unwrap();
    assert!(ips.iter().any(|v| v == "geoip:private"));
    let domains = routing_rules[1]["domain"].as_array().unwrap();
    assert!(domains.iter().any(|v| v == "geosite:category-ads-all"));
}

#[test]
fn wildcard_domain_uses_domain_prefix() {
    let node = sample_vless_reality();
    let rules = vec![rule(SplitTunnelTarget::Domain, "*.example.com", SplitTunnelAction::Proxy)];
    let cfg = generate_config(&node, InboundPorts::default(), &rules, GeoAssetStatus::new(true)).unwrap();
    let value = to_value(&cfg.json);
    let routing_rules = value["routing"]["rules"].as_array().unwrap();
    let rule = &routing_rules[2];
    assert_eq!(rule.get("outboundTag").unwrap(), "proxy");
    let domains = rule.get("domain").unwrap().as_array().unwrap();
    assert!(domains.iter().any(|d| d == "domain:example.com"));
}

#[test]
fn ip_and_cidr_rules_use_ip_field() {
    let node = sample_vless_reality();
    let rules = vec![
        rule(SplitTunnelTarget::Ip, "1.2.3.4", SplitTunnelAction::Direct),
        rule(SplitTunnelTarget::Cidr, "10.0.0.0/8", SplitTunnelAction::Proxy),
    ];
    let cfg = generate_config(&node, InboundPorts::default(), &rules, GeoAssetStatus::new(true)).unwrap();
    let value = to_value(&cfg.json);
    let routing_rules = value["routing"]["rules"].as_array().unwrap();
    let first = &routing_rules[2];
    assert_eq!(first.get("outboundTag").unwrap(), "direct");
    let ips = first.get("ip").unwrap().as_array().unwrap();
    assert!(ips.iter().any(|v| v == "1.2.3.4"));
    let second = &routing_rules[3];
    assert_eq!(second.get("outboundTag").unwrap(), "proxy");
    let ips = second.get("ip").unwrap().as_array().unwrap();
    assert!(ips.iter().any(|v| v == "10.0.0.0/8"));
}

#[test]
fn app_rules_are_skipped() {
    let node = sample_vless_reality();
    let rules = vec![rule(SplitTunnelTarget::App, "curl", SplitTunnelAction::Direct)];
    let cfg = generate_config(&node, InboundPorts::default(), &rules, GeoAssetStatus::new(true)).unwrap();
    let value = to_value(&cfg.json);
    let routing_rules = value["routing"]["rules"].as_array().unwrap();
    assert_eq!(routing_rules.len(), 2);
}

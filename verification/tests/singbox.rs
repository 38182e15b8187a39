use ironpass::json::Json;
use ironpass::models::{Protocol, ProxyNode, Security, Transport, XhttpExtra};
use ironpass::singbox::{generate_config, requires_singbox, InboundPorts};
use serde_json::Value;

fn to_value(j: &Json) -> Value {
    match j {
        Json::Null => Value::Null,
        Json::Bool(b) => Value::Bool(*b),
        Json::Num(n) => Value::from(*n),
        Json::Str(s) => Value::String(s.clone()),
        Json::Arr(v) => Value::Array(v.iter().map(to_value).collect()),
        Json::Obj(m) => {
            let mut out = serde_json::Map::new();
            for (k, v) in m {
                out.insert(k.clone(), to_value(v));
            }
            Value::Object(out)
        }
        Json::Raw(s) => serde_json::from_str(s).unwrap_or_else(|_| Value::String(s.clone())),
    }
}

fn sample_vless_reality() -> ProxyNode {
    ProxyNode {
        protocol: Protocol::Vless,
        name: "vless-reality".into(),
        server: "example.com".into(),
        port: 443,
        uuid: Some("550e8400-e29b-41d4-a716-446655440000".into()),
        password: None,
        alter_id: None,
        encryption: Some("none".into()),
        transport: Transport::Tcp,
        security: Security::Reality,
        flow: Some("xtls-rprx-vision".into()),
        sni: Some("sni.example.com".into()),
        fingerprint: Some("chrome".into()),
        public_key: Some("pbk-example".into()),
        short_id: Some("0123456789abcdef".into()),
        spider_x: Some("/spider".into()),
        path: None,
        host: None,
        service_name: None,
        alpn: None,
        extra: None,
        tags: Vec::new(),
        raw_uri: String::new(),
    }
}

#[test]
fn singbox_vless_reality_config_contains_outbound() {
    let node = sample_vless_reality();
    let cfg = generate_config(&node, InboundPorts::default()).unwrap();
    let value = to_value(&cfg.json);
    let outbounds = value.get("outbounds").unwrap().as_array().unwrap();
    let proxy = outbounds.iter().find(|o| o.get("tag").unwrap() == "proxy").unwrap();
    assert_eq!(proxy.get("type").unwrap(), "vless");
    assert!(proxy.get("tls").is_some());
    assert!(cfg.mixed_port.is_some());
}

#[test]
fn vless_xhttp_config_contains_transport() {
    let mut node = sample_vless_reality();
    node.transport = Transport::Xhttp;
    node.security = Security::Tls;
    node.path = Some("/xhttp".into());
    node.host = Some("host.example.com".into());
    node.extra = Some(XhttpExtra {
        mode: Some("stream-up".into()),
        max_connections: Some(4),
        max_concurrent_uploads: Some(8),
        no_grpc_header: Some(false),
        x_padding_bytes: Some("100-200".into()),
        headers: Vec::new(),
        other: Vec::new(),
    });

    let cfg = generate_config(
        &node,
        InboundPorts {
            socks_port: Some(1080),
            http_port: Some(8080),
            mixed_port: None,
        },
    )
    .unwrap();
    let value = to_value(&cfg.json);
    let outbounds = value.get("outbounds").unwrap().as_array().unwrap();
    let proxy = outbounds.iter().find(|o| o.get("tag").unwrap() == "proxy").unwrap();
    let transport = proxy.get("transport").unwrap();
    assert_eq!(transport.get("type").unwrap(), "xhttp");
    assert_eq!(transport.get("mode").unwrap(), "stream-up");
    assert!(value.get("inbounds").unwrap().as_array().unwrap().len() == 2);
}

#[test]
fn requires_singbox_for_reality() {
    let node = sample_vless_reality();
    assert!(requires_singbox(&node));
}

#[test]
fn requires_singbox_for_xhttp() {
    let mut node = sample_vless_reality();
    node.security = Security::Tls;
    node.transport = Transport::Xhttp;
    assert!(requires_singbox(&node));
}

use ironpass::backend::{supports_singbox, supports_xray, BackendRegistry, BackendType, CoreType};
use ironpass::models::{Protocol, ProxyNode, Security, Transport};

fn sample_vless(transport: Transport, security: Security) -> ProxyNode {
    ProxyNode {
        protocol: Protocol::Vless,
        name: "test".into(),
        server: "example.com".into(),
        port: 443,
        uuid: Some("550e8400-e29b-41d4-a716-446655440000".into()),
        password: None,
        alter_id: None,
        encryption: Some("none".into()),
        transport,
        security,
        flow: None,
        sni: None,
        fingerprint: None,
        public_key: None,
        short_id: None,
        spider_x: None,
        path: None,
        host: None,
        service_name: None,
        alpn: None,
        extra: None,
        tags: Vec::new(),
        raw_uri: String::new(),
    }
}

#[test]
fn auto_selects_xray_for_xhttp() {
    let node = sample_vless(Transport::Xhttp, Security::Tls);
    let registry = BackendRegistry::new();
    let backend = registry.resolve(BackendType::Auto, &node);
    assert_eq!(backend.core_type(), CoreType::Xray);
}

#[test]
fn auto_selects_xray_for_splithttp() {
    let node = sample_vless(Transport::Splithttp, Security::Tls);
    let registry = BackendRegistry::new();
    let backend = registry.resolve(BackendType::Auto, &node);
    assert_eq!(backend.core_type(), CoreType::Xray);
}

#[test]
fn auto_selects_singbox_for_tcp() {
    let node = sample_vless(Transport::Tcp, Security::Tls);
    let registry = BackendRegistry::new();
    let backend = registry.resolve(BackendType::Auto, &node);
    assert_eq!(backend.core_type(), CoreType::SingBox);
}

#[test]
fn auto_selects_singbox_for_reality() {
    let mut node = sample_vless(Transport::Tcp, Security::Reality);
    node.public_key = Some("pbk".into());
    node.short_id = Some("0123456789abcdef".into());
    let registry = BackendRegistry::new();
    let backend = registry.resolve(BackendType::Auto, &node);
    assert_eq!(backend.core_type(), CoreType::SingBox);
}

#[test]
fn explicit_singbox_overrides_auto() {
    let node = sample_vless(Transport::Xhttp, Security::Tls);
    let registry = BackendRegistry::new();
    let backend = registry.resolve(BackendType::SingBox, &node);
    assert_eq!(backend.core_type(), CoreType::SingBox);
}

#[test]
fn explicit_xray_overrides_auto() {
    let node = sample_vless(Transport::Tcp, Security::Tls);
    let registry = BackendRegistry::new();
    let backend = registry.resolve(BackendType::Xray, &node);
    assert_eq!(backend.core_type(), CoreType::Xray);
}

#[test]
fn xray_does_not_support_ws() {
    let node = sample_vless(Transport::Ws, Security::Tls);
    assert!(!supports_xray(&node));
}

#[test]
fn xray_does_not_support_vmess() {
    let mut node = sample_vless(Transport::Xhttp, Security::Tls);
    node.protocol = Protocol::Vmess;
    assert!(!supports_xray(&node));
}

#[test]
fn backend_type_from_str_accepts_aliases() {
    assert_eq!("auto".parse::<BackendType>().unwrap(), BackendType::Auto);
    assert_eq!(
        "sing-box".parse::<BackendType>().unwrap(),
        BackendType::SingBox
    );
    assert_eq!(
        "singbox".parse::<BackendType>().unwrap(),
        BackendType::SingBox
    );
    assert_eq!("sb".parse::<BackendType>().unwrap(), BackendType::SingBox);
    assert_eq!("xray".parse::<BackendType>().unwrap(), BackendType::Xray);
    assert!("unknown".parse::<BackendType>().is_err());
}

#[test]
fn auto_selects_xray_for_vmess_over_xhttp() {
    let mut node = sample_vless(Transport::Xhttp, Security::Tls);
    node.protocol = Protocol::Vmess;
    let registry = BackendRegistry::new();
    assert_eq!(registry.resolve(BackendType::Auto, &node).core_type(), CoreType::Xray);
}

#[test]
fn singbox_supports_the_nodes_it_can_configure() {
    assert!(supports_singbox(&sample_vless(Transport::Tcp, Security::Tls)));
    assert!(supports_singbox(&sample_vless(Transport::Xhttp, Security::Tls)));
    let mut trojan = sample_vless(Transport::Ws, Security::Tls);
    trojan.protocol = Protocol::Trojan;
    trojan.password = Some("pw".into());
    assert!(supports_singbox(&trojan));
    let mut hy = sample_vless(Transport::Tcp, Security::Tls);
    hy.protocol = Protocol::Hysteria2;
    assert!(!supports_singbox(&hy));
}

use ironpass::api::{NodeWithSubscription, ProxyStatus, StoredSubscription};
use ironpass::cli::{
    first_node_id, node_id_from_target, parse_optional_uuid, proxy_started_lines, split_tunnel_ids,
    subscription_for_target, SplitTunnelAction, SplitTunnelActionArg, SplitTunnelIds, SplitTunnelTargetArg,
};
use ironpass::error::Error;
use ironpass::models::{Protocol, ProxyNode, Security, Transport};
use ironpass::transport::reality_server_key;

const ID_TEXT: &str = "550e8400-e29b-41d4-a716-446655440000";
const ID: u128 = 0x550e8400_e29b_41d4_a716_446655440000;

fn node() -> ProxyNode {
    ProxyNode {
        protocol: Protocol::Vless,
        name: "Tokyo".into(),
        server: "jp.example.com".into(),
        port: 443,
        uuid: None,
        password: None,
        alter_id: None,
        encryption: None,
        transport: Transport::Tcp,
        security: Security::Reality,
        flow: None,
        sni: None,
        fingerprint: None,
        public_key: None,
        short_id: None,
        spider_x: None,
        path: None,
        host: None,
        service_name: None,
        alpn: None,
        extra: None,
        tags: Vec::new(),
        raw_uri: String::new(),
    }
}

#[test]
fn optional_identifiers_parse_as_uuids() {
    assert_eq!(parse_optional_uuid(&None), Ok(None));
    assert_eq!(parse_optional_uuid(&Some(ID_TEXT.into())), Ok(Some(ID)));
    assert_eq!(parse_optional_uuid(&Some("{550e8400-e29b-41d4-a716-446655440000}".into())), Ok(Some(ID)));
    assert!(parse_optional_uuid(&Some("not-a-uuid".into())).is_err());
}

#[test]
fn split_tunnel_commands_read_their_identifiers() {
    let list = SplitTunnelAction::List { node: Some(ID_TEXT.into()) };
    assert_eq!(split_tunnel_ids(&list), Ok(SplitTunnelIds { rule: None, node: Some(ID) }));
    let add = SplitTunnelAction::Add {
        target: SplitTunnelTargetArg::Domain,
        value: "example.com".into(),
        action: SplitTunnelActionArg::Direct,
        node: None,
    };
    assert_eq!(split_tunnel_ids(&add), Ok(SplitTunnelIds { rule: None, node: None }));
    let update = SplitTunnelAction::Update {
        id: ID_TEXT.into(),
        target: SplitTunnelTargetArg::Ip,
        value: "1.1.1.1".into(),
        action: SplitTunnelActionArg::Proxy,
        node: Some("bad".into()),
    };
    assert!(split_tunnel_ids(&update).is_err());
    let remove = SplitTunnelAction::Remove { id: ID_TEXT.into() };
    assert_eq!(split_tunnel_ids(&remove), Ok(SplitTunnelIds { rule: Some(ID), node: None }));
    assert!(split_tunnel_ids(&SplitTunnelAction::Remove { id: "x".into() }).is_err());
}

#[test]
fn proxy_targets_resolve_to_nodes() {
    assert_eq!(node_id_from_target(ID_TEXT), Some(ID));
    assert_eq!(node_id_from_target("https://example.com/sub"), None);
    let subs = vec![
        StoredSubscription::new(1, "https://a.example/sub".into(), None, None, 0),
        StoredSubscription::new(2, "https://b.example/sub".into(), Some("work".into()), None, 0),
    ];
    assert_eq!(subscription_for_target("work", &subs), Ok(2));
    assert_eq!(subscription_for_target("https://a.example/sub", &subs), Ok(1));
    assert_eq!(
        subscription_for_target("home", &subs),
        Err("Node or subscription not found: home. Provide a node UUID.".to_string())
    );
    assert_eq!(first_node_id(&vec![]), Err("Subscription has no nodes".to_string()));
    let nodes = vec![
        NodeWithSubscription { id: 7, subscription_id: 2, subscription_name: None, node: node() },
        NodeWithSubscription { id: 8, subscription_id: 2, subscription_name: None, node: node() },
    ];
    assert_eq!(first_node_id(&nodes), Ok(7));
}

#[test]
fn started_proxy_is_reported_with_its_ports() {
    let status = ProxyStatus {
        running: true,
        selected_node: Some(NodeWithSubscription { id: 7, subscription_id: 2, subscription_name: None, node: node() }),
        socks_port: Some(1080),
        http_port: None,
        mixed_port: Some(11080),
        pid: None,
        uptime_secs: None,
        last_error: None,
        backend: None,
    };
    assert_eq!(
        proxy_started_lines(&status),
        vec![
            "Proxy started",
            "  Node:      Tokyo",
            "  Endpoint:  jp.example.com:443",
            "  Protocol:  Vless",
            "  Transport: Tcp",
            "  SOCKS5:    127.0.0.1:1080",
            "  Mixed:     127.0.0.1:11080",
        ]
    );
}

#[test]
fn reality_needs_a_32_byte_public_key() {
    let mut n = node();
    match reality_server_key(&n) {
        Err(Error::Parse(m)) => assert_eq!(m, "Reality requires public_key (pbk)"),
        _ => panic!("expected a missing key"),
    }
    n.public_key = Some("A".repeat(43));
    assert_eq!(reality_server_key(&n).ok().unwrap(), vec![0u8; 32]);
    n.public_key = Some("AAAA".into());
    match reality_server_key(&n) {
        Err(Error::Parse(m)) => assert_eq!(m, "Invalid pbk length: 3"),
        _ => panic!("expected a short key"),
    }
    n.public_key = Some("***".into());
    match reality_server_key(&n) {
        Err(Error::Parse(m)) => assert!(m.starts_with("Invalid pbk base64: ")),
        _ => panic!("expected a refused key"),
    }
}

use ironpass::api::{
    check_core_available, choose_backend, choose_start_node, node_not_found, nodes_with_subscriptions,
    proxy_status, record_fetch, requested_hwid, selection_cleared_by_delete, ApiError, NodeWithSubscription,
    StoredSubscription,
};
use ironpass::backend::{BackendRegistry, BackendType, CoreType, ProxyPorts};
use ironpass::error::Error;
use ironpass::json::Json;
use ironpass::models::{Protocol, ProxyNode, Security, SubscriptionMetadata, Transport};
use ironpass::split_tunnel::{validate_rule, RuleStore, SplitTunnelAction, SplitTunnelTarget};

fn node(transport: Transport, security: Security) -> ProxyNode {
    ProxyNode {
        protocol: Protocol::Vless,
        name: "n".into(),
        server: "example.com".into(),
        port: 443,
        uuid: Some("550e8400-e29b-41d4-a716-446655440000".into()),
        password: None,
        alter_id: None,
        encryption: None,
        transport,
        security,
        flow: None,
        sni: None,
        fingerprint: None,
        public_key: None,
        short_id: None,
        spider_x: None,
        path: None,
        host: None,
        service_name: None,
        alpn: None,
        extra: None,
        tags: Vec::new(),
        raw_uri: String::new(),
    }
}

fn with_sub(id: u128, sub: u128) -> NodeWithSubscription {
    NodeWithSubscription {
        id,
        subscription_id: sub,
        subscription_name: None,
        node: node(Transport::Tcp, Security::Tls),
    }
}

#[test]
fn errors_become_responses() {
    assert_eq!(ApiError::NotFound("x".into()).status_and_message(), (404, "x".to_string()));
    assert_eq!(ApiError::Conflict("c".into()).status_and_message(), (409, "c".to_string()));
    assert_eq!(
        ApiError::Anyhow("boom".into()).status_and_message(),
        (500, "Internal server error".to_string())
    );
    assert_eq!(
        ApiError::Anyhow("No node selected".into()).status_and_message(),
        (400, "No node selected".to_string())
    );
    assert_eq!(
        ApiError::Core(Error::Network("dns".into())).status_and_message(),
        (502, "Upstream network error".to_string())
    );
    assert_eq!(
        ApiError::Core(Error::DeviceLimitExceeded { current: 3, limit: 2 }).status_and_message(),
        (403, "Device limit exceeded: 3/2".to_string())
    );
    let (status, body) = ApiError::BadRequest("bad".into()).into_response();
    assert_eq!(status, 400);
    match body {
        Json::Obj(members) => {
            assert_eq!(members.len(), 1);
            assert_eq!(members[0].0, "error");
            assert!(matches!(&members[0].1, Json::Str(m) if m == "bad"));
        }
        _ => panic!("expected an object"),
    }
}

#[test]
fn start_node_choice() {
    let id = 0x550e8400_e29b_41d4_a716_446655440000u128;
    match choose_start_node(Some(id), None, Some(with_sub(1, 1))) {
        Err(ApiError::NotFound(m)) => assert_eq!(m, "Node 550e8400-e29b-41d4-a716-446655440000 not found"),
        _ => panic!("expected not found"),
    }
    assert_eq!(choose_start_node(Some(7), Some(with_sub(7, 1)), None).ok().unwrap().id, 7);
    assert_eq!(choose_start_node(None, None, Some(with_sub(9, 1))).ok().unwrap().id, 9);
    match choose_start_node(None, None, None) {
        Err(ApiError::BadRequest(m)) => assert_eq!(m, "No node selected"),
        _ => panic!("expected bad request"),
    }
    assert!(matches!(node_not_found(0), ApiError::NotFound(m) if m == "Node 00000000-0000-0000-0000-000000000000 not found"));
}

#[test]
fn backend_must_support_the_node() {
    let registry = BackendRegistry::new();
    let ws = node(Transport::Ws, Security::Tls);
    match choose_backend(&registry, Some(BackendType::Xray), &ws) {
        Err(ApiError::BadRequest(m)) => assert_eq!(m, "Selected backend does not support this node"),
        _ => panic!("expected bad request"),
    }
    let xhttp = node(Transport::Xhttp, Security::Tls);
    assert_eq!(choose_backend(&registry, None, &xhttp).ok().unwrap().core, CoreType::Xray);
    assert!(check_core_available(CoreType::Xray, false, false).is_err());
    assert!(check_core_available(CoreType::Xray, true, false).is_ok());
    assert!(check_core_available(CoreType::SingBox, false, false).is_ok());
}

#[test]
fn node_rows_get_their_subscription_names() {
    let mut a = StoredSubscription::new(1, "https://a".into(), Some("A".into()), None, 0);
    a.name = Some("A".into());
    let b = StoredSubscription::new(2, "https://b".into(), None, None, 0);
    let rows = vec![(10, 1, node(Transport::Tcp, Security::Tls)), (11, 2, node(Transport::Ws, Security::Tls)), (12, 3, node(Transport::Tcp, Security::Plain))];
    let listed = nodes_with_subscriptions(rows, &vec![a, b]);
    assert_eq!(listed.len(), 3);
    assert_eq!(listed[0].subscription_name.as_deref(), Some("A"));
    assert_eq!(listed[1].subscription_name, None);
    assert_eq!(listed[2].subscription_name, None);
    assert_eq!(listed[1].node.transport, Transport::Ws);
}

#[test]
fn status_and_fetch_bookkeeping() {
    let ports = ProxyPorts { socks: Some(1080), http: None, mixed: None };
    let st = proxy_status(false, None, Some(ports), (Some(5), Some(10), Some("e".into())), BackendType::Auto);
    assert!(!st.running);
    assert_eq!(st.socks_port, Some(1080));
    assert_eq!(st.pid, None);
    let st = proxy_status(true, None, None, (Some(5), Some(10), None), BackendType::Xray);
    assert_eq!(st.pid, Some(5));
    assert_eq!(st.socks_port, None);
    assert_eq!(st.backend, Some(BackendType::Xray));
    assert!(selection_cleared_by_delete(Some(4), 4));
    assert!(!selection_cleared_by_delete(Some(4), 5));
    assert!(!selection_cleared_by_delete(None, 5));
    assert_eq!(requested_hwid(None, Some("s".into())), Some("s".to_string()));
    assert_eq!(requested_hwid(Some("o".into()), Some("s".into())), Some("o".to_string()));
    let s = StoredSubscription::new(1, "https://a".into(), None, None, 0);
    let r = record_fetch(s, 77, SubscriptionMetadata::default(), Some(1), Some(2), None);
    assert_eq!(r.last_updated, Some(77));
    assert_eq!(r.traffic_total, Some(2));
    assert_eq!(r.url, "https://a");
}

#[test]
fn rule_values_are_validated() {
    assert!(validate_rule(SplitTunnelTarget::Ip, "10.1.2.3").is_ok());
    assert!(validate_rule(SplitTunnelTarget::Ip, "fe80::1").is_ok());
    assert!(validate_rule(SplitTunnelTarget::Cidr, "10.0.0.0/8").is_ok());
    assert!(validate_rule(SplitTunnelTarget::Domain, "example.com").is_ok());
    match validate_rule(SplitTunnelTarget::Domain, "  ") {
        Err(ApiError::Anyhow(m)) => assert_eq!(m, "Rule value cannot be empty"),
        _ => panic!("expected a refusal"),
    }
    match validate_rule(SplitTunnelTarget::Ip, "10.0.0.0/8") {
        Err(ApiError::Anyhow(m)) => assert_eq!(m, "Invalid IP address: 10.0.0.0/8"),
        _ => panic!("expected a refusal"),
    }
    match validate_rule(SplitTunnelTarget::Cidr, "10.0.0.1") {
        Err(ApiError::Anyhow(m)) => assert_eq!(m, "Invalid CIDR: 10.0.0.1"),
        _ => panic!("expected a refusal"),
    }
}

#[test]
fn rule_store_adds_updates_and_deletes() {
    let mut store = RuleStore::new();
    let r = store.add_rule(1, SplitTunnelTarget::Domain, "a.com".into(), SplitTunnelAction::Direct, None, 10).ok().unwrap();
    assert_eq!(r.created_at, 10);
    store.add_rule(2, SplitTunnelTarget::Ip, "1.1.1.1".into(), SplitTunnelAction::Proxy, None, 11).ok().unwrap();
    assert!(store.add_rule(3, SplitTunnelTarget::Ip, "nope".into(), SplitTunnelAction::Proxy, None, 12).is_err());
    assert_eq!(store.rules.len(), 2);
    let existing = Some(store.rules[0].copy());
    let u = store
        .update_rule(1, existing, SplitTunnelTarget::Domain, "b.com".into(), SplitTunnelAction::Proxy, Some(5), 20)
        .ok()
        .unwrap();
    assert_eq!(u.value, "b.com");
    assert_eq!(u.created_at, 10);
    assert_eq!(u.updated_at, 20);
    assert_eq!(store.rules[0].value, "b.com");
    match store.update_rule(9, None, SplitTunnelTarget::Domain, "c.com".into(), SplitTunnelAction::Proxy, None, 21) {
        Err(ApiError::NotFound(m)) => assert_eq!(m, "Rule 00000000-0000-0000-0000-000000000009 not found"),
        _ => panic!("expected not found"),
    }
    store.delete_rule(1, true);
    assert_eq!(store.rules.len(), 1);
    assert_eq!(store.rules[0].id, 2);
}

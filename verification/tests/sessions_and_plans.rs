use ironpass::api::StoredSubscription as ApiSubscription;
use ironpass::backend::BackendRegistry;
use ironpass::config::StoredSubscription;
use ironpass::error::Error;
use ironpass::models::{Protocol, ProxyNode, Security, Transport, XhttpExtra};
use ironpass::socks5::{SessionAction, SessionState, Socks5Session};
use ironpass::split_tunnel::{
    action_to_string, parse_action, parse_target, target_to_string, SplitTunnelAction, SplitTunnelTarget,
};
use ironpass::transport::{
    check_trojan_response, check_vless_response, grpc_request, https_uri, remote_kind, splithttp_down_path,
    splithttp_requests, ws_request, xhttp2_request, xhttp_request, xhttp_status_accepted,
    trojan_connect_plan, trojan_request_is_framed, vless_connect_plan, xhttp2_uri, ConnectPlan, RemoteKind,
    RxBuffer, XhttpMode,
};

fn node(protocol: Protocol, transport: Transport, security: Security) -> ProxyNode {
    ProxyNode {
        protocol,
        name: "n".into(),
        server: "edge.example".into(),
        port: 443,
        uuid: None,
        password: None,
        alter_id: None,
        encryption: None,
        transport,
        security,
        flow: None,
        sni: None,
        fingerprint: None,
        public_key: None,
        short_id: None,
        spider_x: None,
        path: None,
        host: None,
        service_name: None,
        alpn: None,
        extra: None,
        tags: Vec::new(),
        raw_uri: String::new(),
    }
}

#[test]
fn socks5_session_walks_through_its_states() {
    let mut s = Socks5Session::new();
    match s.on_client_data(&[5, 1, 0]) {
        SessionAction::Reply(r) => assert_eq!(r, vec![5, 0]),
        other => panic!("unexpected {:?}", other),
    }
    assert_eq!(s.state, SessionState::AwaitRequest);
    match s.on_client_data(&[5, 1, 0, 3, 3, b'a', b'b', b'c', 0, 80]) {
        SessionAction::Connect(h, p) => {
            assert_eq!(h, "abc");
            assert_eq!(p, 80);
        }
        other => panic!("unexpected {:?}", other),
    }
    assert_eq!(s.state, SessionState::Connecting);
    match s.on_connect_result(Ok(())) {
        SessionAction::ReplyAndRelay(r) => assert_eq!(r, vec![5, 0, 0, 1, 0, 0, 0, 0, 0, 0]),
        other => panic!("unexpected {:?}", other),
    }
    assert_eq!(s.state, SessionState::Relaying);
    match s.on_client_data(&[1]) {
        SessionAction::Close(Error::Custom(m)) => assert_eq!(m, "Unexpected client data"),
        other => panic!("unexpected {:?}", other),
    }
    assert_eq!(s.state, SessionState::Closed);
}

#[test]
fn socks5_session_refusals_close_it() {
    let mut s = Socks5Session::new();
    match s.on_client_data(&[4, 1]) {
        SessionAction::Close(Error::Parse(m)) => assert_eq!(m, "Invalid SOCKS5 auth negotiation"),
        other => panic!("unexpected {:?}", other),
    }
    let mut t = Socks5Session::new();
    t.on_client_data(&[5, 1, 0]);
    t.on_client_data(&[5, 1, 0, 1, 127, 0, 0, 1, 0, 22]);
    match t.on_connect_result(Err(Error::Network("refused".into()))) {
        SessionAction::ReplyAndClose(r) => {
            assert_eq!(r, vec![5, 5, 0, 1, 0, 0, 0, 0, 0, 0]);
        }
        other => panic!("unexpected {:?}", other),
    }
}

#[test]
fn transport_addresses_and_modes() {
    assert_eq!(https_uri("h.example", "//api/x"), "https://h.example/api/x");
    assert_eq!(xhttp2_uri("h.example", "/"), "https://h.example//");
    assert_eq!(xhttp2_uri("h.example", "/p"), "https://h.example/p");
    assert_eq!(splithttp_down_path("/sh"), "/sh/down");
    let mut extra = XhttpExtra::default();
    assert_eq!(XhttpMode::from_extra(None), XhttpMode::Auto);
    assert_eq!(XhttpMode::from_extra(Some(&extra)), XhttpMode::Auto);
    extra.mode = Some("packet-up".into());
    assert_eq!(XhttpMode::from_extra(Some(&extra)), XhttpMode::H2);
    let mut rx = RxBuffer::new();
    rx.extend(&[1, 2, 3]);
    assert_eq!(rx.take(2), vec![1, 2]);
    assert_eq!(rx.take(5), vec![3]);
    assert!(rx.is_empty());
}

#[test]
fn connection_plans_follow_transport_and_security() {
    let mut g = node(Protocol::Trojan, Transport::Grpc, Security::Tls);
    g.service_name = Some("svc".into());
    match trojan_connect_plan(&g) {
        Ok(ConnectPlan::Grpc { sni, path }) => {
            assert_eq!(sni, "edge.example");
            assert_eq!(path, "/svc/Tunnel");
        }
        other => panic!("unexpected {:?}", other),
    }
    match trojan_connect_plan(&node(Protocol::Trojan, Transport::Ws, Security::Tls)) {
        Err(Error::UnsupportedProtocol(m)) => assert_eq!(m, "Trojan transport Ws not yet supported"),
        other => panic!("unexpected {:?}", other),
    }
    let mut r = node(Protocol::Vless, Transport::Tcp, Security::Reality);
    r.sni = Some("www.example".into());
    match vless_connect_plan(&r) {
        Ok(ConnectPlan::Reality { sni }) => assert_eq!(sni, "www.example"),
        other => panic!("unexpected {:?}", other),
    }
    match vless_connect_plan(&node(Protocol::Vless, Transport::Grpc, Security::Tls)) {
        Ok(ConnectPlan::Grpc { path, .. }) => assert_eq!(path, "/VLESS/Tunnel"),
        other => panic!("unexpected {:?}", other),
    }
    match vless_connect_plan(&node(Protocol::Vless, Transport::Tcp, Security::Plain)) {
        Err(Error::UnsupportedProtocol(m)) => assert_eq!(m, "Plaintext VLESS not supported"),
        other => panic!("unexpected {:?}", other),
    }
    assert!(matches!(remote_kind(&g), Ok(RemoteKind::Trojan)));
    match remote_kind(&node(Protocol::Vmess, Transport::Tcp, Security::Tls)) {
        Err(Error::UnsupportedProtocol(m)) => assert_eq!(m, "Vmess"),
        other => panic!("unexpected {:?}", other),
    }
    assert!(trojan_request_is_framed(&g));
    assert!(!trojan_request_is_framed(&r));
}

#[test]
fn server_answers_are_checked() {
    assert!(check_trojan_response(0).is_ok());
    match check_trojan_response(3) {
        Err(Error::Custom(m)) => assert_eq!(m, "Trojan server rejected connection: status=3"),
        other => panic!("unexpected {:?}", other),
    }
    assert!(check_vless_response(&[0, 0], true).is_ok());
    match check_vless_response(&[0, 2], true) {
        Err(Error::Custom(m)) => assert_eq!(m, "VLESS server rejected connection: version=0 status=2"),
        other => panic!("unexpected {:?}", other),
    }
    match check_vless_response(&[7, 0], false) {
        Err(Error::Custom(m)) => assert_eq!(m, "VLESS server rejected connection: status=7"),
        other => panic!("unexpected {:?}", other),
    }
}

#[test]
fn registry_geo_status_and_legacy_subscriptions() {
    let reg = BackendRegistry::new();
    assert!(reg.xray_geo_status().available);
    assert!(!reg.sing_box_geo_status().available);
    let legacy = StoredSubscription {
        url: "https://s.example".into(),
        name: Some("S".into()),
        added_at: 5,
        last_updated: None,
        hwid: Some("h".into()),
        is_active: false,
    };
    let s = ApiSubscription::from_legacy(42, &legacy);
    assert_eq!(s.id, 42);
    assert_eq!(s.url, "https://s.example");
    assert_eq!(s.name.as_deref(), Some("S"));
    assert_eq!(s.added_at, 5);
    assert!(!s.is_active);
    assert!(s.traffic_used.is_none());
}

#[test]
fn rule_targets_and_actions_have_stored_names() {
    assert_eq!(target_to_string(SplitTunnelTarget::Cidr), "cidr");
    assert_eq!(action_to_string(SplitTunnelAction::Proxy), "proxy");
    assert_eq!(parse_target(&target_to_string(SplitTunnelTarget::App)), SplitTunnelTarget::App);
    assert_eq!(parse_action(&action_to_string(SplitTunnelAction::Direct)), SplitTunnelAction::Direct);
}

fn header_pairs(h: &[(String, String)]) -> Vec<(&str, &str)> {
    h.iter().map(|(k, v)| (k.as_str(), v.as_str())).collect()
}

#[test]
fn tunnel_requests_carry_their_headers() {
    let g = grpc_request("edge.example", "/svc/Tunnel");
    assert_eq!(g.method, "POST");
    assert_eq!(g.uri, "https://edge.example/svc/Tunnel");
    assert_eq!(
        header_pairs(&g.headers),
        vec![("content-type", "application/grpc"), ("te", "trailers"), ("user-agent", "grpc-go/1.62.0")]
    );
    let w = ws_request("cdn.example", "/ws");
    assert_eq!(w.method, "GET");
    assert_eq!(w.uri, "https://cdn.example/ws");
    assert_eq!(header_pairs(&w.headers)[0], ("Host", "cdn.example"));
    let extra = vec![("X-Forwarded-For".to_string(), "1.1.1.1".to_string())];
    let x = xhttp_request("h.example", "", &extra, Some(16));
    assert_eq!(x.uri, "https://h.example/");
    assert_eq!(x.padding_len, Some(16));
    assert_eq!(header_pairs(&x.headers)[2], ("Transfer-Encoding", "chunked"));
    assert_eq!(header_pairs(&x.headers)[5], ("X-Forwarded-For", "1.1.1.1"));
    let x2 = xhttp2_request("h.example", "", &extra);
    assert_eq!(x2.uri, "https://h.example//");
    assert_eq!(header_pairs(&x2.headers)[2], ("Content-Type", "application/octet-stream"));
    let (up, down) = splithttp_requests("h.example", "/sh", &extra);
    assert_eq!(up.uri, "https://h.example/sh");
    assert_eq!(down.uri, "https://h.example/sh/down");
    assert_eq!(down.headers.len(), 6);
    assert!(xhttp_status_accepted(101));
    assert!(xhttp_status_accepted(200));
    assert!(!xhttp_status_accepted(404));
}

#[test]
fn socks5_failed_connect_answers_and_ends_quietly() {
    let mut s = Socks5Session::new();
    match s.on_client_data(&[0x05, 0x01, 0x00]) {
        SessionAction::Reply(r) => assert_eq!(r, vec![0x05, 0x00]),
        other => panic!("unexpected {:?}", other),
    }
    let request = [0x05, 0x01, 0x00, 0x03, 7, b'e', b'x', b'a', b'm', b'p', b'l', b'e', 0x01, 0xbb];
    match s.on_client_data(&request) {
        SessionAction::Connect(h, p) => {
            assert_eq!(h, "example");
            assert_eq!(p, 443);
        }
        other => panic!("unexpected {:?}", other),
    }
    match s.on_connect_result(Err(Error::Network("connection refused".into()))) {
        SessionAction::ReplyAndClose(r) => assert_eq!(r, vec![0x05, 0x05, 0x00, 0x01, 0, 0, 0, 0, 0, 0]),
        other => panic!("unexpected {:?}", other),
    }
}

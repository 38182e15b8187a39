use ironpass::analysis::{analysis_json, analysis_lines, tally};
use ironpass::json::Json;
use ironpass::models::{Protocol, ProxyNode, Security, Subscription, SubscriptionMetadata, Transport};

fn node(name: &str, protocol: Protocol, transport: Transport) -> ProxyNode {
    ProxyNode {
        protocol,
        name: name.into(),
        server: "10.0.0.1".into(),
        port: 443,
        uuid: None,
        password: None,
        alter_id: None,
        encryption: None,
        transport,
        security: Security::Tls,
        flow: None,
        sni: Some("cdn.example".into()),
        fingerprint: None,
        public_key: None,
        short_id: None,
        spider_x: None,
        path: None,
        host: None,
        service_name: None,
        alpn: None,
        extra: None,
        tags: Vec::new(),
        raw_uri: String::new(),
    }
}

#[test]
fn tally_counts_in_order_of_first_occurrence() {
    assert_eq!(
        tally(&vec!["Vless", "Trojan", "Vless"]),
        vec![("Vless".to_string(), 2), ("Trojan".to_string(), 1)]
    );
    assert_eq!(tally(&vec![]), vec![]);
}

#[test]
fn analysis_counts_only_real_nodes() {
    let nodes = vec![
        node("A", Protocol::Vless, Transport::Grpc),
        node("Expired", Protocol::Vless, Transport::Tcp),
        node("B", Protocol::Trojan, Transport::Grpc),
    ];
    let sub = Subscription {
        id: 9,
        url: "https://x.example/s".into(),
        name: None,
        nodes,
        fetched_at: 0,
        expires_at: None,
        traffic_used: None,
        traffic_total: Some(2048),
        metadata: SubscriptionMetadata::default(),
    };
    let lines = analysis_lines(&sub, &vec![false, true, false], true).unwrap();
    let expected: Vec<String> = vec![
        "=== Subscription Analysis ===",
        "URL:         https://x.example/s",
        "Fetched at:  1970-01-01 00:00:00 UTC",
        "",
        "Nodes:       3 total (2 real, 1 placeholder)",
        "  Total:     2.0 kiB",
        "",
        "Protocols:",
        "  Vless           1",
        "  Trojan          1",
        "",
        "Transports:",
        "  Grpc            2",
        "",
        "Security:",
        "  Tls             2",
        "",
        "=== Real Nodes ===",
        "",
        "  Name:       A",
        "  Server:     10.0.0.1:443",
        "  Protocol:   Vless",
        "  Transport:  Grpc",
        "  Security:   Tls",
        "  SNI:        cdn.example",
        "",
        "  Name:       B",
        "  Server:     10.0.0.1:443",
        "  Protocol:   Trojan",
        "  Transport:  Grpc",
        "  Security:   Tls",
        "  SNI:        cdn.example",
    ]
    .into_iter()
    .map(String::from)
    .collect();
    assert_eq!(lines, expected);
    let brief = analysis_lines(&sub, &vec![true, true, true], true).unwrap();
    assert_eq!(brief[4], "Nodes:       3 total (0 real, 3 placeholder)");
    assert_eq!(brief.len(), 6);
}

fn member<'a>(j: &'a Json, key: &str) -> &'a Json {
    match j {
        Json::Obj(members) => &members.iter().find(|(k, _)| k == key).expect("member").1,
        other => panic!("not an object: {:?}", other),
    }
}

fn num(j: &Json) -> u64 {
    match j {
        Json::Num(n) => *n,
        other => panic!("not a number: {:?}", other),
    }
}

#[test]
fn analysis_json_reports_counts_traffic_and_time() {
    let nodes = vec![
        node("A", Protocol::Vless, Transport::Grpc),
        node("Expired", Protocol::Vless, Transport::Tcp),
        node("B", Protocol::Trojan, Transport::Grpc),
    ];
    let sub = Subscription {
        id: 9,
        url: "https://x.example/s".into(),
        name: None,
        nodes,
        fetched_at: 1_700_000_000_500,
        expires_at: None,
        traffic_used: None,
        traffic_total: Some(2048),
        metadata: SubscriptionMetadata::default(),
    };
    let j = analysis_json(&sub, &vec![false, true, false]).unwrap();
    assert_eq!(num(member(&j, "total_nodes")), 3);
    assert_eq!(num(member(&j, "real_nodes")), 2);
    assert_eq!(num(member(&j, "placeholder_nodes")), 1);
    assert_eq!(num(member(member(&j, "protocols"), "Vless")), 1);
    assert_eq!(num(member(member(&j, "protocols"), "Trojan")), 1);
    assert_eq!(num(member(member(&j, "transports"), "Grpc")), 2);
    assert_eq!(num(member(member(&j, "securities"), "Tls")), 2);
    assert!(matches!(member(&j, "traffic_used"), Json::Null));
    assert_eq!(num(member(&j, "traffic_total")), 2048);
    assert!(matches!(member(&j, "fetched_at"), Json::Str(t) if t == "2023-11-14T22:13:20.500Z"));
    assert!(analysis_json(&sub, &vec![true, true, true]).is_some());
}

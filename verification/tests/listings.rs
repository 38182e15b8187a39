use ironpass::config::StoredSubscription;
use ironpass::models::{Protocol, ProxyNode, Security, Subscription, SubscriptionMetadata, Transport};
use ironpass::output::{byte_prefix, nodes_table_lines, rule, subscription_list_lines, table_header, table_row};

fn node(name: &str) -> ProxyNode {
    ProxyNode {
        protocol: Protocol::Trojan,
        name: name.into(),
        server: "1.2.3.4".into(),
        port: 8443,
        uuid: None,
        password: Some("p".into()),
        alter_id: None,
        encryption: None,
        transport: Transport::Grpc,
        security: Security::Tls,
        flow: None,
        sni: None,
        fingerprint: None,
        public_key: None,
        short_id: None,
        spider_x: None,
        path: None,
        host: None,
        service_name: None,
        alpn: None,
        extra: None,
        tags: Vec::new(),
        raw_uri: String::new(),
    }
}

#[test]
fn saved_subscriptions_are_listed_with_their_details() {
    let subs = vec![
        StoredSubscription {
            url: "https://a.example/sub".into(),
            name: Some("Work".into()),
            added_at: 0,
            last_updated: Some(90_061_000),
            hwid: Some("0123456789abcdef0123".into()),
            is_active: true,
        },
        StoredSubscription {
            url: "https://b.example/sub".into(),
            name: None,
            added_at: 0,
            last_updated: None,
            hwid: None,
            is_active: false,
        },
    ];
    let brief = subscription_list_lines(&subs, false).unwrap();
    assert_eq!(
        brief,
        vec![
            "Saved Subscriptions".to_string(),
            "\u{2500}".repeat(70),
            "  1. https://a.example/sub [ACTIVE]".to_string(),
            "     Name:     Work".to_string(),
            "  2. https://b.example/sub [INACTIVE]".to_string(),
        ]
    );
    let detailed = subscription_list_lines(&subs, true).unwrap();
    assert_eq!(
        &detailed[2..7],
        &[
            "  1. https://a.example/sub [ACTIVE]".to_string(),
            "     Name:     Work".to_string(),
            "     Added:    1970-01-01 00:00 UTC".to_string(),
            "     Updated:  1970-01-02 01:01 UTC".to_string(),
            "     HWID:     0123456789abcdef...".to_string(),
        ]
    );
    assert_eq!(detailed[8], "     Added:    1970-01-01 00:00 UTC");
    assert_eq!(detailed.len(), 9);
}

#[test]
fn byte_prefix_keeps_whole_characters() {
    assert_eq!(byte_prefix("abcdef", 4), "abcd");
    assert_eq!(byte_prefix("ab", 16), "ab");
    assert_eq!(byte_prefix("a\u{00e9}b", 2), "a");
    assert_eq!(byte_prefix("a\u{00e9}b", 3), "a\u{00e9}");
    assert_eq!(rule(3), "\u{2500}\u{2500}\u{2500}");
}

#[test]
fn subscription_node_table_has_a_summary_block() {
    let nodes = vec![node("Frankfurt"), node("Paris")];
    let sub = Subscription {
        id: 1,
        url: "https://a.example/sub".into(),
        name: None,
        nodes: nodes.clone(),
        fetched_at: 1_000,
        expires_at: None,
        traffic_used: Some(512),
        traffic_total: Some(1536),
        metadata: SubscriptionMetadata::default(),
    };
    let lines = nodes_table_lines(&nodes, &sub).unwrap();
    let rule90 = "\u{2500}".repeat(90);
    assert_eq!(
        lines,
        vec![
            "IronPass Subscription".to_string(),
            rule90.clone(),
            "  URL:        https://a.example/sub".to_string(),
            "  Fetched:    1970-01-01 00:00:01 UTC".to_string(),
            "  Traffic:    512 B used".to_string(),
            "    Total:    1.5 kiB".to_string(),
            "  Nodes:      2".to_string(),
            rule90.clone(),
            String::new(),
            table_header(),
            rule90,
            table_row(0, &nodes[0]),
            table_row(1, &nodes[1]),
        ]
    );
    assert!(lines[11].starts_with("1    Frankfurt"));
}

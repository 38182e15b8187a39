use ironpass::error::Error;
use ironpass::hwid::{
    compute_hwid, generate_new, linux_device_model, linux_os_description, pretty_name, trim, trim_char,
    username_or_unknown, SystemHwidProvider,
};
use ironpass::models::{HwidInfo, Protocol, ProxyNode, Security, Transport};
use ironpass::node_sort::{sort_key, sort_nodes, SortKey};
use ironpass::output::{display_width, pad_to_width, table_header, table_row, truncate_to_width, unicode_is_wide};
use sha2::Digest;

#[test]
fn hwid_is_the_sha256_of_the_identity() {
    let expected = hex::encode(sha2::Sha256::digest(b"host:user:machine:model"));
    assert_eq!(compute_hwid("host", "user", "machine", "model"), expected);
    assert_eq!(expected.len(), 64);
}

#[test]
fn device_information_from_the_identity() {
    let info = generate_new("h".into(), "u".into(), Ok("m".into()), "d".into(), "o".into()).ok().unwrap();
    assert_eq!(info.hwid, compute_hwid("h", "u", "m", "d"));
    assert_eq!(info.os, "o");
    match generate_new("h".into(), "u".into(), Err("denied".into()), "d".into(), "o".into()) {
        Err(Error::Hwid(m)) => assert_eq!(m, "Failed to get machine UID: denied"),
        other => panic!("unexpected {:?}", other),
    }
}

#[test]
fn provider_paths_and_model_string() {
    let p = SystemHwidProvider::in_config_dir(Some("/home/u/.config".into()));
    assert_eq!(p.storage_path, "/home/u/.config/ironpass");
    assert_eq!(p.hwid_file(), "/home/u/.config/ironpass/hwid.json");
    assert_eq!(SystemHwidProvider::in_config_dir(None).storage_path, "./ironpass");
    let info = HwidInfo {
        hwid: "x".into(),
        device_model: "ThinkPad".into(),
        os: "Ubuntu 22.04".into(),
        hostname: "h".into(),
        username: "u".into(),
        machine_id: "m".into(),
    };
    assert_eq!(p.device_model_string(&Some(info)), "ThinkPad/Ubuntu 22.04");
    assert_eq!(p.device_model_string(&None), "Unknown");
}

#[test]
fn username_falls_back() {
    assert_eq!(username_or_unknown(Some("a".into()), Some("b".into())), "a");
    assert_eq!(username_or_unknown(None, Some("b".into())), "b");
    assert_eq!(username_or_unknown(None, None), "unknown");
}

#[test]
fn linux_description_from_os_release() {
    let release = "NAME=\"Ubuntu\"\r\nPRETTY_NAME=\"Ubuntu 22.04.3 LTS\"\r\nID=ubuntu\n";
    assert_eq!(pretty_name(release), Some("Ubuntu 22.04.3 LTS".to_string()));
    assert_eq!(pretty_name("ID=arch\r\nPRETTY_NAME=Arch\r\n"), Some("Arch".to_string()));
    assert_eq!(pretty_name("ID=arch\nPRETTY_NAME=\"Arch\"\r"), Some("Arch\"\r".to_string()));
    assert_eq!(
        linux_os_description(Some("6.5.0-generic\n".into()), Some(release.into())),
        "Ubuntu 22.04.3 LTS (6.5.0-generic)"
    );
    assert_eq!(linux_os_description(None, Some(release.into())), "Ubuntu 22.04.3 LTS");
    assert_eq!(linux_os_description(Some("5.10".into()), Some("ID=alpine\n".into())), "Linux (5.10)");
    assert_eq!(linux_os_description(Some("  ".into()), None), "Linux");
}

#[test]
fn linux_device_model_choice() {
    assert_eq!(linux_device_model(Some("XPS 13\n".into()), Some("Dell".into()), "h".into()), "XPS 13");
    assert_eq!(
        linux_device_model(Some("System Product Name\n".into()), Some(" ASUS \n".into()), "h".into()),
        "ASUS"
    );
    assert_eq!(linux_device_model(None, Some("   ".into()), "host".into()), "host");
}

#[test]
fn trimming() {
    assert_eq!(trim("\t a b \n"), "a b");
    assert_eq!(trim_char("\"quoted\"", '"'), "quoted");
    assert_eq!(trim_char("\"\"", '"'), "");
}

#[test]
fn display_widths_count_wide_characters_twice() {
    assert!(unicode_is_wide('中'));
    assert!(unicode_is_wide('🇩'));
    assert!(!unicode_is_wide('a'));
    assert_eq!(display_width("中a"), 3);
    assert_eq!(display_width(""), 0);
}

#[test]
fn truncation_keeps_room_for_the_ellipsis() {
    assert_eq!(truncate_to_width("abcdef", 5), "ab...");
    assert_eq!(truncate_to_width("ab", 5), "ab");
    assert_eq!(truncate_to_width("abc", 5), "ab...");
    assert_eq!(truncate_to_width("中文字", 6), "中...");
    assert_eq!(truncate_to_width("abc", 2), "...");
    assert!(display_width(&truncate_to_width("中文字中文字", 7)) <= 7);
}

#[test]
fn padding_fills_to_the_column() {
    assert_eq!(pad_to_width("ab", 5), "ab   ");
    assert_eq!(pad_to_width("中", 4), "中  ");
    assert_eq!(pad_to_width("abcdef", 5), "ab...");
    assert_eq!(display_width(&pad_to_width("中x", 9)), 9);
}

fn node(name: &str, server: &str, port: u16, protocol: Protocol) -> ProxyNode {
    ProxyNode {
        protocol,
        name: name.into(),
        server: server.into(),
        port,
        uuid: None,
        password: None,
        alter_id: None,
        encryption: None,
        transport: Transport::Tcp,
        security: Security::Plain,
        flow: None,
        sni: None,
        fingerprint: None,
        public_key: None,
        short_id: None,
        spider_x: None,
        path: None,
        host: None,
        service_name: None,
        alpn: None,
        extra: None,
        tags: Vec::new(),
        raw_uri: String::new(),
    }
}

#[test]
fn table_rows_are_laid_out_in_columns() {
    let n = node("Tokyo 01", "jp.example.com", 443, Protocol::Vless);
    let row = table_row(0, &n);
    let expected = format!(
        "{:<4} {:<30} {:<22} {:<10} {:<8} {:<8}",
        1, "Tokyo 01", "jp.example.com:443", "Vless", "Tcp", "None"
    );
    assert_eq!(row, expected);
    let header = format!("{:<4} {:<30} {:<22} {:<10} {:<8} {:<8}", "#", "NAME", "SERVER", "PROTO", "TRANS", "SEC");
    assert_eq!(table_header(), header);
}

#[test]
fn sorting_is_stable_by_the_chosen_field() {
    let nodes = vec![
        node("b", "s2", 443, Protocol::Vless),
        node("a", "s1", 80, Protocol::Trojan),
        node("c", "s3", 443, Protocol::Vless),
        node("a", "s0", 8080, Protocol::AnyTls),
    ];
    let by_port: Vec<String> = sort_nodes(nodes.clone(), SortKey::Port).into_iter().map(|n| n.server).collect();
    assert_eq!(by_port, vec!["s1", "s2", "s3", "s0"]);
    let by_name: Vec<String> = sort_nodes(nodes.clone(), SortKey::Name).into_iter().map(|n| n.server).collect();
    assert_eq!(by_name, vec!["s1", "s0", "s2", "s3"]);
    let by_protocol: Vec<String> = sort_nodes(nodes.clone(), SortKey::Protocol).into_iter().map(|n| n.server).collect();
    assert_eq!(by_protocol, vec!["s0", "s1", "s2", "s3"]);
    let unsorted: Vec<String> = sort_nodes(nodes, sort_key("speed")).into_iter().map(|n| n.server).collect();
    assert_eq!(unsorted, vec!["s2", "s1", "s3", "s0"]);
    assert_eq!(sort_key("server"), SortKey::Server);
}

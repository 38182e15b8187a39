use ironpass::error::Error;
use ironpass::models::{Protocol, ProxyNode, Security, Transport};
use ironpass::socks5::{check_greeting, connect_reply, greeting_reply, parse_connect_request};
use ironpass::wire::push_target_address;
use ironpass::transport::{grpc_payload, RxBuffer};
use ironpass::trojan::{grpc_frame, TrojanClient};
use ironpass::uuid::{uuid_bytes, uuid_to_string};
use ironpass::vless::{parse_uuid, VlessClient, VlessFlow};

fn node(protocol: Protocol) -> ProxyNode {
    ProxyNode {
        protocol,
        name: "n".into(),
        server: "example.com".into(),
        port: 443,
        uuid: Some("550e8400-e29b-41d4-a716-446655440000".into()),
        password: Some("password".into()),
        alter_id: None,
        encryption: None,
        transport: Transport::Tcp,
        security: Security::Tls,
        flow: None,
        sni: None,
        fingerprint: None,
        public_key: None,
        short_id: None,
        spider_x: None,
        path: None,
        host: None,
        service_name: None,
        alpn: None,
        extra: None,
        tags: Vec::new(),
        raw_uri: String::new(),
    }
}

#[test]
fn trojan_request_starts_with_the_sha224_of_the_password() {
    let client = TrojanClient::new(node(Protocol::Trojan)).ok().unwrap();
    let req = client.encode_connect_request("1.2.3.4", 80);
    let hash = "d63dc919e201d7bc4c825630d2cf25fdc93d4b2f0d46706d29038d01";
    assert_eq!(&req[..56], hash.as_bytes());
    assert_eq!(&req[56..], &[13, 10, 1, 1, 1, 2, 3, 4, 0, 80, 13, 10]);
}

#[test]
fn trojan_without_password_is_refused() {
    let mut n = node(Protocol::Trojan);
    n.password = None;
    match TrojanClient::new(n) {
        Err(Error::Parse(m)) => assert_eq!(m, "Trojan requires password"),
        _ => panic!("expected a parse error"),
    }
}

#[test]
fn grpc_frame_round_trip() {
    let payload = b"hello upstream".to_vec();
    let frame = grpc_frame(&payload);
    assert_eq!(&frame[..5], &[0, 0, 0, 0, 14]);
    assert_eq!(grpc_payload(&frame), Some(payload));
    assert_eq!(grpc_payload(&frame[..10]), None);
    assert_eq!(grpc_payload(&[0, 0, 0]), None);
}

#[test]
fn grpc_trojan_request_is_framed() {
    let client = TrojanClient::new(node(Protocol::Trojan)).ok().unwrap();
    let plain = client.encode_connect_request("example.com", 443);
    let framed = client.encode_connect_request_grpc("example.com", 443);
    assert_eq!(grpc_payload(&framed), Some(plain));
}

#[test]
fn received_bytes_come_out_in_order() {
    let mut rx = RxBuffer::new();
    assert!(rx.is_empty());
    rx.extend(b"abc");
    rx.extend(b"def");
    assert_eq!(rx.take(4), b"abcd".to_vec());
    assert_eq!(rx.take(10), b"ef".to_vec());
    assert!(rx.is_empty());
}

#[test]
fn vless_uuid_parses_to_its_bytes() {
    let bytes = parse_uuid("550e8400-e29b-41d4-a716-446655440000").ok().unwrap();
    assert_eq!(
        bytes,
        vec![0x55, 0x0e, 0x84, 0x00, 0xe2, 0x9b, 0x41, 0xd4, 0xa7, 0x16, 0x44, 0x66, 0x55, 0x44, 0x00, 0x00]
    );
    assert!(matches!(parse_uuid("550e8400e29b41d4a716446655440000"), Err(Error::Parse(_))));
    assert!(matches!(parse_uuid("zz0e8400-e29b-41d4-a716-446655440000"), Err(Error::Parse(_))));
}

#[test]
fn uuid_text_of_an_identifier() {
    assert_eq!(
        uuid_to_string(0x550e8400_e29b_41d4_a716_446655440000),
        "550e8400-e29b-41d4-a716-446655440000"
    );
    assert_eq!(uuid_to_string(0), "00000000-0000-0000-0000-000000000000");
}

#[test]
fn vless_client_request_carries_the_uuid() {
    let client = VlessClient::new(node(Protocol::Vless)).ok().unwrap();
    let req = client.encode_connect_request("10.0.0.1", 8080);
    assert_eq!(req[0], 0);
    assert_eq!(&req[1..17], &parse_uuid("550e8400-e29b-41d4-a716-446655440000").ok().unwrap()[..]);
    assert_eq!(&req[17..], &[1, 0, 0x1f, 0x90, 1, 10, 0, 0, 1]);
    assert_eq!(VlessFlow::parse("xtls-rprx-vision"), VlessFlow::XtlsRprxVision);
    assert_eq!(VlessFlow::parse("other"), VlessFlow::Plain);
}

#[test]
fn socks5_greeting_and_replies() {
    assert!(check_greeting(&[5, 1, 0]).is_ok());
    match check_greeting(&[4, 1, 0]) {
        Err(Error::Parse(m)) => assert_eq!(m, "Invalid SOCKS5 auth negotiation"),
        _ => panic!("expected a parse error"),
    }
    assert_eq!(greeting_reply(), vec![5, 0]);
    assert_eq!(connect_reply(true), vec![5, 0, 0, 1, 0, 0, 0, 0, 0, 0]);
    assert_eq!(connect_reply(false), vec![5, 5, 0, 1, 0, 0, 0, 0, 0, 0]);
}

#[test]
fn socks5_connect_requests() {
    let mut req = vec![5, 1, 0, 3, 11];
    req.extend_from_slice(b"example.com");
    req.extend_from_slice(&[1, 187]);
    assert_eq!(parse_connect_request(&req).ok().unwrap(), ("example.com".to_string(), 443));
    assert_eq!(
        parse_connect_request(&[5, 1, 0, 1, 127, 0, 0, 1, 0, 80]).ok().unwrap(),
        ("127.0.0.1".to_string(), 80)
    );
    let mut v6 = vec![5, 1, 0, 4];
    v6.extend_from_slice(&[0; 15]);
    v6.push(1);
    v6.extend_from_slice(&[4, 56]);
    assert_eq!(parse_connect_request(&v6).ok().unwrap(), ("::1".to_string(), 1080));
    match parse_connect_request(&[5, 1, 0, 9, 0, 0]) {
        Err(Error::Parse(m)) => assert_eq!(m, "Unknown address type: 9"),
        _ => panic!("expected a parse error"),
    }
    match parse_connect_request(&[5, 1, 0, 1, 1]) {
        Err(Error::Parse(m)) => assert_eq!(m, "Too short for IPv4"),
        _ => panic!("expected a parse error"),
    }
}

#[test]
fn ipv4_connect_target_is_forwarded_as_the_same_octets() {
    let (host, port) = parse_connect_request(&[5, 1, 0, 1, 192, 168, 1, 10, 0x1F, 0x90]).ok().unwrap();
    assert_eq!(host, "192.168.1.10");
    assert_eq!(port, 8080);
    let mut buf: Vec<u8> = Vec::new();
    push_target_address(&mut buf, &host);
    assert_eq!(buf, vec![1, 192, 168, 1, 10]);
}

#[test]
fn identifier_text_parses_back_to_its_bytes() {
    let id: u128 = 0x550e8400_e29b_41d4_a716_446655440000;
    let bytes = parse_uuid(&uuid_to_string(id)).ok().unwrap();
    assert_eq!(bytes, uuid_bytes(id));
    assert_eq!(bytes[0], 0x55);
    assert_eq!(bytes[15], 0x00);
    assert_eq!(bytes.len(), 16);
}

#[test]
fn trojan_request_lengths_for_a_domain() {
    let client = TrojanClient::new(node(Protocol::Trojan)).ok().unwrap();
    let plain = client.encode_connect_request("example.com", 443);
    assert_eq!(plain.len(), 76);
    let framed = client.encode_connect_request_grpc("example.com", 443);
    assert_eq!(framed.len(), 81);
    assert_eq!(&framed[..5], &[0, 0, 0, 0, 76]);
    assert_eq!(&framed[5..], &plain[..]);
}

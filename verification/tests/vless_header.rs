use ironpass::models::{Protocol, ProxyNode, Security, Transport};
use ironpass::vless::{encode_vless_request, CMD_TCP};
use ironpass::wire::ATYP_DOMAIN;

#[test]
fn test_encode_domain() {
    let uuid = vec![0u8; 16];
    let node = ProxyNode {
        protocol: Protocol::Vless,
        name: "test".into(),
        server: "example.com".into(),
        port: 443,
        uuid: Some("00000000-0000-0000-0000-000000000000".into()),
        password: None,
        alter_id: None,
        encryption: None,
        transport: Transport::Tcp,
        security: Security::Reality,
        flow: Some("xtls-rprx-vision".into()),
        sni: None,
        fingerprint: None,
        public_key: None,
        short_id: None,
        spider_x: None,
        path: None,
        host: None,
        service_name: None,
        alpn: None,
        extra: None,
        tags: vec![],
        raw_uri: String::new(),
    };

    let buf = encode_vless_request(&uuid, "example.com", 443, &node);

    // VLESS request layout: ver(1) + uuid(16) + cmd(1) + rsv/proto(1) + port(2) + atyp(1) + addr
    assert_eq!(buf[0], 0); // version
    assert_eq!(buf[17], CMD_TCP); // command
    assert_eq!(buf[18], 0); // flow / rsv + proto
    assert_eq!(buf[19], 1); // port high byte
    assert_eq!(buf[20], 187); // port low byte (443)
    assert_eq!(buf[21], ATYP_DOMAIN); // address type
    assert_eq!(buf[22], 11); // domain length
    assert_eq!(&buf[23..34], b"example.com");
}

use ironpass::models::{OutputFormat, Protocol, Security, SubscriptionFormat, Transport};

#[test]
fn model_names_read_back() {
    for p in [
        Protocol::Vless,
        Protocol::Vmess,
        Protocol::Trojan,
        Protocol::Shadowsocks,
        Protocol::Hysteria2,
        Protocol::Tuic,
        Protocol::WireGuard,
        Protocol::AnyTls,
    ] {
        assert_eq!(Protocol::from_name(p.name()), Some(p));
    }
    for t in [
        Transport::Tcp,
        Transport::Ws,
        Transport::Grpc,
        Transport::H2,
        Transport::Xhttp,
        Transport::Splithttp,
        Transport::Kcp,
    ] {
        assert_eq!(Transport::from_name(&t.to_string()), Some(t));
    }
    for s in [Security::Plain, Security::Tls, Security::Reality, Security::RealityPsk] {
        assert_eq!(Security::from_name(s.name()), Some(s));
    }
    assert_eq!(Security::Plain.name(), "none");
    assert_eq!(Protocol::WireGuard.name(), "wire_guard");
    assert_eq!(OutputFormat::from_name("quantumult_x"), Some(OutputFormat::QuantumultX));
    assert_eq!(OutputFormat::from_name("QuantumultX"), None);
    assert_eq!(SubscriptionFormat::ClashYaml.to_string(), "Clash YAML");
}

use ironpass::net::parse_authority;

#[test]
fn parse_authority_ipv4_with_port() {
    assert_eq!(parse_authority("127.0.0.1:8080").unwrap(), ("127.0.0.1".to_string(), 8080));
}

#[test]
fn parse_authority_domain_with_port() {
    assert_eq!(parse_authority("example.com:443").unwrap(), ("example.com".to_string(), 443));
}

#[test]
fn parse_authority_no_port_defaults_to_80() {
    assert_eq!(parse_authority("example.com").unwrap(), ("example.com".to_string(), 80));
}

#[test]
fn parse_authority_ipv6_with_port() {
    assert_eq!(parse_authority("[::1]:1080").unwrap(), ("[::1]".to_string(), 1080));
}

#[test]
fn parse_authority_ipv6_no_port_defaults_to_80() {
    assert_eq!(parse_authority("[::1]").unwrap(), ("[::1]".to_string(), 80));
}

use ironpass::error::Error;
use ironpass::http_proxy::{
    connect_reply, connect_target, BAD_GATEWAY_REPLY, BAD_REQUEST_REPLY, ESTABLISHED_REPLY,
    METHOD_NOT_ALLOWED_REPLY,
};
use ironpass::net::{is_ip_addr, parse_authority, parse_ipv4};
use ironpass::text::{split_once_char, split_whitespace, trim_start_char};

#[test]
fn authority_round_trip_with_host_and_port() {
    assert_eq!(parse_authority("example.com:8443").unwrap(), ("example.com".to_string(), 8443));
    assert_eq!(parse_authority(":443").unwrap(), ("".to_string(), 443));
}

#[test]
fn bracketed_authority_round_trip() {
    assert_eq!(
        parse_authority("[2001:db8::1]:443").unwrap(),
        ("[2001:db8::1]".to_string(), 443)
    );
}

#[test]
fn authority_with_bad_port_is_a_parse_error() {
    match parse_authority("example.com:http") {
        Err(Error::Parse(m)) => assert_eq!(m, "Invalid port in authority: example.com:http"),
        other => panic!("unexpected {:?}", other),
    }
    match parse_authority("example.com:70000") {
        Err(Error::Parse(m)) => assert_eq!(m, "Invalid port in authority: example.com:70000"),
        other => panic!("unexpected {:?}", other),
    }
}

#[test]
fn unclosed_ipv6_authority_is_refused() {
    match parse_authority("[::1") {
        Err(Error::Parse(m)) => assert_eq!(m, "Invalid IPv6 authority: [::1"),
        other => panic!("unexpected {:?}", other),
    }
}

#[test]
fn ip_addresses_are_recognised() {
    assert!(is_ip_addr("1.2.3.4"));
    assert!(is_ip_addr("::1"));
    assert!(is_ip_addr("2001:db8::8a2e:370:7334"));
    assert!(!is_ip_addr("1.2.3.256"));
    assert!(!is_ip_addr("example.com"));
    assert_eq!(parse_ipv4("10.0.0.1"), Some(vec![10, 0, 0, 1]));
    assert_eq!(parse_ipv4("01.2.3.4"), None);
}

#[test]
fn words_split_on_any_whitespace() {
    assert_eq!(
        split_whitespace("  CONNECT\texample.com:443  HTTP/1.1\r\n"),
        vec!["CONNECT".to_string(), "example.com:443".to_string(), "HTTP/1.1".to_string()]
    );
    assert!(split_whitespace(" \t\r\n").is_empty());
}

#[test]
fn split_once_uses_the_first_separator() {
    assert_eq!(
        split_once_char("aes-128-gcm:pass:word", ':'),
        Some(("aes-128-gcm".to_string(), "pass:word".to_string()))
    );
    assert_eq!(split_once_char("nocolon", ':'), None);
}

#[test]
fn leading_characters_are_trimmed() {
    assert_eq!(trim_start_char("///a/b", '/'), "a/b");
    assert_eq!(trim_start_char("***", '*'), "");
}

#[test]
fn connect_request_line_gives_the_target() {
    let (h, p) = connect_target("CONNECT example.com:443 HTTP/1.1\r\n").ok().unwrap();
    assert_eq!(h, "example.com");
    assert_eq!(p, 443);
    let (h, p) = connect_target("connect [::1]:8080 HTTP/1.1").ok().unwrap();
    assert_eq!(h, "[::1]");
    assert_eq!(p, 8080);
}

#[test]
fn short_request_line_is_a_bad_request() {
    let refusal = connect_target("CONNECT example.com:443\r\n").err().unwrap();
    assert_eq!(refusal.reply, Some(BAD_REQUEST_REPLY));
    match refusal.error {
        Error::Parse(m) => assert_eq!(m, "Invalid HTTP request line"),
        other => panic!("unexpected {:?}", other),
    }
}

#[test]
fn other_methods_are_not_allowed() {
    let refusal = connect_target("GET http://example.com/ HTTP/1.1").err().unwrap();
    assert_eq!(refusal.reply, Some(METHOD_NOT_ALLOWED_REPLY));
    match refusal.error {
        Error::UnsupportedProtocol(m) => assert_eq!(m, "HTTP proxy only supports CONNECT, got GET"),
        other => panic!("unexpected {:?}", other),
    }
}

#[test]
fn bad_authority_gets_no_reply() {
    let refusal = connect_target("CONNECT example.com:x HTTP/1.1").err().unwrap();
    assert_eq!(refusal.reply, None);
    match refusal.error {
        Error::Parse(m) => assert_eq!(m, "Invalid port in authority: example.com:x"),
        other => panic!("unexpected {:?}", other),
    }
}

#[test]
fn tunnel_replies() {
    assert_eq!(connect_reply(true), ESTABLISHED_REPLY);
    assert_eq!(connect_reply(false), BAD_GATEWAY_REPLY);
    assert_eq!(BAD_GATEWAY_REPLY, "HTTP/1.1 502 Bad Gateway\r\nContent-Length: 0\r\n\r\n");
}

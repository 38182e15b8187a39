//! Network addresses in text: IPv4 and IPv6 literals and `host:port`
//! authorities.

use vstd::prelude::*;
use crate::num::{all_digits, digits_value, spec_parse_unsigned};
use crate::split::{split_on, split_chars};
use crate::text::dec_digits;

verus! {

/// One field of a dotted-quad address as `str::parse::<Ipv4Addr>` accepts
/// it: one to three digits, no leading zero, at most 255.
pub open spec fn ipv4_field_ok(p: Seq<char>) -> bool {
    &&& 1 <= p.len() <= 3
    &&& all_digits(p)
    &&& (p.len() > 1 ==> p[0] != '0')
    &&& digits_value(p) <= 255
}

/// What `str::parse::<Ipv4Addr>` gives, as the four octets.
pub open spec fn spec_parse_ipv4(s: Seq<char>) -> Option<Seq<u8>> {
    let parts = split_on(s, '.');
    if parts.len() == 4 && ipv4_field_ok(parts[0]) && ipv4_field_ok(parts[1])
        && ipv4_field_ok(parts[2]) && ipv4_field_ok(parts[3]) {
        Some(seq![
            digits_value(parts[0]) as u8,
            digits_value(parts[1]) as u8,
            digits_value(parts[2]) as u8,
            digits_value(parts[3]) as u8,
        ])
    } else {
        None
    }
}

fn parse_ipv4_field(p: &Vec<char>) -> (r: Option<u8>)
    ensures
        match r {
            Some(v) => ipv4_field_ok(p@) && v as nat == digits_value(p@),
            None => !ipv4_field_ok(p@),
        },
{
    let n = p.len();
    if n < 1 || n > 3 {
        return None;
    }
    if n > 1 && p[0] == '0' {
        return None;
    }
    let mut v: u32 = 0;
    let mut i: usize = 0;
    while i < n
        invariant
            n == p@.len(),
            1 <= n <= 3,
            i <= n,
            all_digits(p@.subrange(0, i as int)),
            v as nat == digits_value(p@.subrange(0, i as int)),
            i == 0 ==> v == 0,
            i <= 1 ==> v < 10,
            i <= 2 ==> v < 100,
            v < 1000,
        decreases n - i,
    {
        let c = p[i];
        if !('0' <= c && c <= '9') {
            return None;
        }
        proof {
            assert(p@.subrange(0, i + 1).drop_last() =~= p@.subrange(0, i as int));
        }
        v = v * 10 + (c as u32 - 48);
        i = i + 1;
    }
    proof {
        assert(p@.subrange(0, n as int) =~= p@);
    }
    if v > 255 {
        return None;
    }
    Some(v as u8)
}

/// Parses a dotted-quad IPv4 address the way `str::parse::<Ipv4Addr>` does.
pub fn parse_ipv4(s: &str) -> (r: Option<Vec<u8>>)
    ensures
        match r {
            Some(v) => spec_parse_ipv4(s@) == Some(v@),
            None => spec_parse_ipv4(s@) is None,
        },
{
    let cs = crate::text::str_chars(s);
    let parts = split_chars(&cs, '.');
    if parts.len() != 4 {
        return None;
    }
    let a = parse_ipv4_field(&parts[0]);
    let b = parse_ipv4_field(&parts[1]);
    let c = parse_ipv4_field(&parts[2]);
    let d = parse_ipv4_field(&parts[3]);
    match (a, b, c, d) {
        (Some(a), Some(b), Some(c), Some(d)) => {
            let mut v: Vec<u8> = Vec::new();
            v.push(a);
            v.push(b);
            v.push(c);
            v.push(d);
            proof {
                assert(v@ =~= spec_parse_ipv4(s@).unwrap());
            }
            Some(v)
        },
        _ => None,
    }
}

/// The dotted-quad text of four octets.
pub open spec fn spec_ipv4_text(o: Seq<u8>) -> Seq<char> {
    dec_digits(o[0] as nat) + "."@ + dec_digits(o[1] as nat) + "."@ + dec_digits(o[2] as nat)
        + "."@ + dec_digits(o[3] as nat)
}

/// Formats four octets the way `Ipv4Addr`'s `Display` does.
pub fn ipv4_to_string(o: &[u8]) -> (s: String)
    requires
        o@.len() == 4,
    ensures
        s@ == spec_ipv4_text(o@),
{
    let mut s = String::new();
    crate::text::push_decimal(&mut s, o[0] as u64);
    s.push('.');
    crate::text::push_decimal(&mut s, o[1] as u64);
    s.push('.');
    crate::text::push_decimal(&mut s, o[2] as u64);
    s.push('.');
    crate::text::push_decimal(&mut s, o[3] as u64);
    proof {
        reveal_strlit(".");
        assert(s@ =~= spec_ipv4_text(o@));
    }
    s
}

/// What `str::parse::<Ipv6Addr>` gives, as the sixteen octets.
pub uninterp spec fn spec_parse_ipv6(s: Seq<char>) -> Option<Seq<u8>>;

/// Parses an IPv6 address with `str::parse::<core::net::Ipv6Addr>`; the
/// octets are those of `Ipv6Addr::octets`. The accepted grammar (groups,
/// `::` compression, an embedded dotted quad) is left unstated.
#[verifier::external_body]
pub(crate) fn parse_ipv6(s: &str) -> (r: Option<Vec<u8>>)
    ensures
        match r {
            Some(v) => spec_parse_ipv6(s@) == Some(v@) && v@.len() == 16,
            None => spec_parse_ipv6(s@) is None,
        },
{
    match s.parse::<core::net::Ipv6Addr>() {
        Ok(a) => Some(a.octets().to_vec()),
        Err(_) => None,
    }
}

/// The text that `Ipv6Addr`'s `Display` gives for sixteen octets.
pub uninterp spec fn spec_ipv6_text(o: Seq<u8>) -> Seq<char>;

/// Formats sixteen octets with `core::net::Ipv6Addr`'s `Display`; the
/// compressed form it chooses is left unstated.
#[verifier::external_body]
pub(crate) fn ipv6_to_string(o: &[u8]) -> (s: String)
    requires
        o@.len() == 16,
    ensures
        s@ == spec_ipv6_text(o@),
{
    let mut a = [0u8; 16];
    a.copy_from_slice(o);
    core::net::Ipv6Addr::from(a).to_string()
}

/// Whether `str::parse::<IpAddr>` accepts the text: a dotted quad or an
/// IPv6 address.
pub open spec fn spec_is_ip_addr(s: Seq<char>) -> bool {
    spec_parse_ipv4(s) is Some || spec_parse_ipv6(s) is Some
}

/// Whether the text is an IPv4 or IPv6 address.
pub fn is_ip_addr(s: &str) -> (r: bool)
    ensures
        r == spec_is_ip_addr(s@),
{
    parse_ipv4(s).is_some() || parse_ipv6(s).is_some()
}

/// The index of the last occurrence of `c` in `s`.
pub open spec fn last_index_of(s: Seq<char>, c: char) -> Option<int>
    decreases s.len(),
{
    if s.len() == 0 {
        None
    } else if s.last() == c {
        Some(s.len() - 1)
    } else {
        last_index_of(s.drop_last(), c)
    }
}

pub proof fn lemma_last_index_of(s: Seq<char>, c: char)
    ensures
        match last_index_of(s, c) {
            Some(i) => 0 <= i < s.len() && s[i] == c
                && forall|j: int| i < j < s.len() ==> s[j] != c,
            None => forall|j: int| 0 <= j < s.len() ==> s[j] != c,
        },
    decreases s.len(),
{
    if s.len() > 0 && s.last() != c {
        lemma_last_index_of(s.drop_last(), c);
        assert forall|j: int| 0 <= j < s.len() - 1 implies s.drop_last()[j] == s[j] by {}
    }
}

fn find_last(cs: &Vec<char>, c: char) -> (r: Option<usize>)
    ensures
        match r {
            Some(i) => last_index_of(cs@, c) == Some(i as int),
            None => last_index_of(cs@, c) is None,
        },
{
    let mut i: usize = cs.len();
    proof {
        assert(cs@.subrange(0, i as int) =~= cs@);
    }
    while i > 0
        invariant
            i <= cs@.len(),
            last_index_of(cs@, c) == last_index_of(cs@.subrange(0, i as int), c),
        decreases i,
    {
        let ghost pre = cs@.subrange(0, i as int);
        if cs[i - 1] == c {
            return Some(i - 1);
        }
        proof {
            assert(pre.drop_last() =~= cs@.subrange(0, i - 1));
        }
        i = i - 1;
    }
    None
}

/// The port of an authority: the text after the last `:`.
pub open spec fn authority_port(s: Seq<char>, colon: int) -> Option<nat> {
    spec_parse_unsigned(s.subrange(colon + 1, s.len() as int), 65535)
}

/// How `host:port` authorities of `CONNECT` requests are read. Without a
/// `:` the whole text is the host and the port is 80; a bracketed IPv6
/// host keeps its brackets, and a `:` inside the brackets is no port.
/// `Err` holds the error message.
pub open spec fn spec_parse_authority(s: Seq<char>) -> Result<(Seq<char>, u16), Seq<char>> {
    match last_index_of(s, ':') {
        None => Ok((s, 80u16)),
        Some(end) => {
            if s[0] == '[' {
                match last_index_of(s, ']') {
                    None => Err("Invalid IPv6 authority: "@ + s),
                    Some(be) => {
                        if end <= be {
                            Ok((s, 80u16))
                        } else {
                            match authority_port(s, end) {
                                Some(p) => Ok((s.subrange(0, be + 1), p as u16)),
                                None => Err("Invalid port in authority: "@ + s),
                            }
                        }
                    },
                }
            } else {
                match authority_port(s, end) {
                    Some(p) => Ok((s.subrange(0, end), p as u16)),
                    None => Err("Invalid port in authority: "@ + s),
                }
            }
        },
    }
}

fn port_after(cs: &Vec<char>, colon: usize) -> (r: Option<u16>)
    requires
        colon < cs@.len(),
    ensures
        match r {
            Some(p) => authority_port(cs@, colon as int) == Some(p as nat),
            None => authority_port(cs@, colon as int) is None,
        },
{
    let n = cs.len();
    let t = crate::text::string_from_chars(cs.as_slice(), colon + 1, n);
    crate::num::parse_u16(t.as_str())
}

fn concat_message(prefix: &str, s: &str) -> (m: String)
    ensures
        m@ == prefix@ + s@,
{
    let mut m = prefix.to_owned();
    m.append(s);
    m
}

/// Splits a `CONNECT` authority into host and port.
pub fn parse_authority(authority: &str) -> (r: Result<(String, u16), crate::error::Error>)
    ensures
        match r {
            Ok((h, p)) => spec_parse_authority(authority@) == Ok::<(Seq<char>, u16), Seq<char>>((h@, p)),
            Err(e) => spec_parse_authority(authority@) is Err && (e matches crate::error::Error::Parse(m)
                && spec_parse_authority(authority@) == Err::<(Seq<char>, u16), Seq<char>>(m@)),
        },
{
    let cs = crate::text::str_chars(authority);
    proof {
        lemma_last_index_of(cs@, ':');
    }
    match find_last(&cs, ':') {
        None => Ok((authority.to_owned(), 80)),
        Some(end) => {
            if cs[0] == '[' {
                match find_last(&cs, ']') {
                    None => Err(crate::error::Error::Parse(concat_message("Invalid IPv6 authority: ", authority))),
                    Some(be) => {
                        if end <= be {
                            Ok((authority.to_owned(), 80))
                        } else {
                            match port_after(&cs, end) {
                                Some(p) => {
                                    let host = crate::text::string_from_chars(cs.as_slice(), 0, be + 1);
                                    Ok((host, p))
                                },
                                None => Err(crate::error::Error::Parse(concat_message("Invalid port in authority: ", authority))),
                            }
                        }
                    },
                }
            } else {
                match port_after(&cs, end) {
                    Some(p) => {
                        let host = crate::text::string_from_chars(cs.as_slice(), 0, end);
                        Ok((host, p))
                    },
                    None => Err(crate::error::Error::Parse(concat_message("Invalid port in authority: ", authority))),
                }
            }
        },
    }
}

} // verus!

//! Byte-level building blocks of the proxy wire protocols: big-endian
//! integers and the SOCKS-style target address shared by Trojan and VLESS.

use vstd::prelude::*;
use vstd::string::*;
use vstd::utf8::encode_utf8;
use crate::net::{spec_parse_ipv4, spec_parse_ipv6, parse_ipv4, parse_ipv6};

verus! {

pub const ATYP_IPV4: u8 = 0x01;
pub const ATYP_DOMAIN: u8 = 0x03;
pub const ATYP_IPV6: u8 = 0x04;

/// Appends bytes to a buffer.
pub fn append_bytes(buf: &mut Vec<u8>, src: &[u8])
    ensures
        final(buf)@ == old(buf)@ + src@,
{
    let n = src.len();
    let mut i: usize = 0;
    while i < n
        invariant
            n == src@.len(),
            i <= n,
            buf@ == old(buf)@ + src@.subrange(0, i as int),
        decreases n - i,
    {
        buf.push(src[i]);
        i = i + 1;
        proof {
            assert(buf@ =~= old(buf)@ + src@.subrange(0, i as int));
        }
    }
    proof {
        assert(src@.subrange(0, n as int) =~= src@);
    }
}

/// A 16-bit value in network byte order.
pub open spec fn be16(v: u16) -> Seq<u8> {
    seq![(v / 256) as u8, (v % 256) as u8]
}

/// A 32-bit value in network byte order.
pub open spec fn be32(v: u32) -> Seq<u8> {
    seq![(v / 0x100_0000) as u8, ((v / 0x1_0000) % 256) as u8, ((v / 256) % 256) as u8, (v % 256) as u8]
}

pub fn push_be16(buf: &mut Vec<u8>, v: u16)
    ensures
        final(buf)@ == old(buf)@ + be16(v),
{
    buf.push((v / 256) as u8);
    buf.push((v % 256) as u8);
    proof {
        assert(buf@ =~= old(buf)@ + be16(v));
    }
}

pub fn push_be32(buf: &mut Vec<u8>, v: u32)
    ensures
        final(buf)@ == old(buf)@ + be32(v),
{
    buf.push((v / 0x100_0000) as u8);
    buf.push(((v / 0x1_0000) % 256) as u8);
    buf.push(((v / 256) % 256) as u8);
    buf.push((v % 256) as u8);
    proof {
        assert(buf@ =~= old(buf)@ + be32(v));
    }
}

/// The address of a target host: a dotted quad as type 1 and four octets,
/// an IPv6 literal as type 4 and sixteen octets, anything else as a domain
/// of type 3 with a one-byte length (the UTF-8 length, truncated to a byte)
/// and its UTF-8 bytes.
pub open spec fn spec_target_address(host: Seq<char>) -> Seq<u8> {
    match spec_parse_ipv4(host) {
        Some(o) => seq![ATYP_IPV4] + o,
        None => match spec_parse_ipv6(host) {
            Some(o) => seq![ATYP_IPV6] + o,
            None => seq![ATYP_DOMAIN, (encode_utf8(host).len() % 256) as u8] + encode_utf8(host),
        },
    }
}

/// Appends the address of `host` to a request.
pub fn push_target_address(buf: &mut Vec<u8>, host: &str)
    ensures
        final(buf)@ == old(buf)@ + spec_target_address(host@),
{
    match parse_ipv4(host) {
        Some(o) => {
            buf.push(ATYP_IPV4);
            let ghost mid = buf@;
            append_bytes(buf, o.as_slice());
            proof {
                assert(buf@ =~= old(buf)@ + spec_target_address(host@));
            }
        },
        None => match parse_ipv6(host) {
            Some(o) => {
                buf.push(ATYP_IPV6);
                append_bytes(buf, o.as_slice());
                proof {
                    assert(buf@ =~= old(buf)@ + spec_target_address(host@));
                }
            },
            None => {
                buf.push(ATYP_DOMAIN);
                let bytes = host.as_bytes();
                let len = bytes.len();
                buf.push((len % 256) as u8);
                append_bytes(buf, bytes);
                proof {
                    assert(buf@ =~= old(buf)@ + spec_target_address(host@));
                }
            },
        },
    }
}

} // verus!

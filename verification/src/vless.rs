//! The VLESS client's request header and UUID handling.

use vstd::prelude::*;
use vstd::string::*;
use vstd::utf8::encode_utf8;
use crate::digest::{spec_hex_decode, hex_decode};
use crate::error::Error;
use crate::models::ProxyNode;
use crate::split::{split_on, split_chars};
use crate::text::str_eq;
use crate::wire::{append_bytes, be16, push_be16, push_target_address, spec_target_address};

verus! {

pub const VLESS_VERSION: u8 = 0;
pub const CMD_TCP: u8 = 0x01;

/// The flow control a VLESS node asks for.
#[derive(Debug, Clone, Copy, PartialEq, Eq, Structural)]
pub enum VlessFlow {
    Plain,
    XtlsRprxVision,
}

impl VlessFlow {
    pub open spec fn spec_parse(s: Seq<char>) -> VlessFlow {
        if s == "xtls-rprx-vision"@ { VlessFlow::XtlsRprxVision } else { VlessFlow::Plain }
    }

    /// `xtls-rprx-vision` selects Vision; any other text means no flow.
    pub fn parse(s: &str) -> (f: VlessFlow)
        ensures
            f == VlessFlow::spec_parse(s@),
    {
        if str_eq(s, "xtls-rprx-vision") { VlessFlow::XtlsRprxVision } else { VlessFlow::Plain }
    }
}

/// The bytes of a UUID written as five `-`-separated hexadecimal groups:
/// the groups' decoded bytes in order. The group lengths are not checked.
pub open spec fn spec_parse_uuid(s: Seq<char>) -> Option<Seq<u8>> {
    let parts = split_on(s, '-');
    if parts.len() != 5 {
        None
    } else {
        match (
            spec_hex_decode(encode_utf8(parts[0])),
            spec_hex_decode(encode_utf8(parts[1])),
            spec_hex_decode(encode_utf8(parts[2])),
            spec_hex_decode(encode_utf8(parts[3])),
            spec_hex_decode(encode_utf8(parts[4])),
        ) {
            (Some(a), Some(b), Some(c), Some(d), Some(e)) => Some(a + b + c + d + e),
            _ => None,
        }
    }
}

/// Parses a UUID into its bytes.
pub fn parse_uuid(uuid_str: &str) -> (r: Result<Vec<u8>, Error>)
    ensures
        match r {
            Ok(v) => spec_parse_uuid(uuid_str@) == Some(v@),
            Err(e) => spec_parse_uuid(uuid_str@) is None && (e matches Error::Parse(m) && if split_on(uuid_str@, '-').len() != 5 {
                m@ == "Invalid UUID format: "@ + uuid_str@
            } else {
                exists|d: Seq<char>| m@ == "Invalid UUID hex: "@ + d
            }),
        },
{
    let cs = crate::text::str_chars(uuid_str);
    let parts = split_chars(&cs, '-');
    if parts.len() != 5 {
        let mut m = "Invalid UUID format: ".to_owned();
        m.append(uuid_str);
        return Err(Error::Parse(m));
    }
    let ghost sp = split_on(uuid_str@, '-');
    let mut bytes: Vec<u8> = Vec::new();
    let mut i: usize = 0;
    while i < 5
        invariant
            parts@.len() == 5,
            sp.len() == 5,
            forall|k: int| 0 <= k < 5 ==> #[trigger] parts@[k]@ == sp[k],
            sp == split_on(uuid_str@, '-'),
            i <= 5,
            forall|k: int| 0 <= k < i ==> #[trigger] spec_hex_decode(encode_utf8(sp[k])) is Some,
            bytes@ == decoded_prefix(sp, i as int),
        decreases 5 - i,
    {
        let part = crate::text::string_from_chars(parts[i].as_slice(), 0, parts[i].len());
        proof {
            assert(part@ =~= sp[i as int]);
        }
        match hex_decode(part.as_str()) {
            Ok(b) => {
                append_bytes(&mut bytes, b.as_slice());
            },
            Err(msg) => {
                let mut m = "Invalid UUID hex: ".to_owned();
                m.append(msg.as_str());
                proof {
                    assert(m@ == "Invalid UUID hex: "@ + msg@);
                }
                return Err(Error::Parse(m));
            },
        }
        i = i + 1;
    }
    proof {
        assert(spec_hex_decode(encode_utf8(sp[0])) is Some);
        assert(spec_hex_decode(encode_utf8(sp[1])) is Some);
        assert(spec_hex_decode(encode_utf8(sp[2])) is Some);
        assert(spec_hex_decode(encode_utf8(sp[3])) is Some);
        assert(spec_hex_decode(encode_utf8(sp[4])) is Some);
        reveal_with_fuel(decoded_prefix, 6);
        assert(bytes@ =~= spec_parse_uuid(uuid_str@).unwrap());
    }
    Ok(bytes)
}

/// The decoded bytes of the first `i` groups.
pub open spec fn decoded_prefix(parts: Seq<Seq<char>>, i: int) -> Seq<u8>
    decreases i,
{
    if i <= 0 {
        Seq::empty()
    } else {
        decoded_prefix(parts, i - 1) + spec_hex_decode(encode_utf8(parts[i - 1])).unwrap()
    }
}

/// The VLESS request header: version 0, the UUID bytes, the TCP command, a
/// zero add-ons byte, the port in network order, then the target address.
/// The flow of the node does not change these bytes.
pub open spec fn spec_vless_request(uuid: Seq<u8>, host: Seq<char>, port: u16) -> Seq<u8> {
    seq![VLESS_VERSION] + uuid + seq![CMD_TCP, 0x00u8] + be16(port) + spec_target_address(host)
}

/// Encodes the VLESS request header for a tunnel to `target_host:target_port`.
pub fn encode_vless_request(uuid: &[u8], target_host: &str, target_port: u16, node: &ProxyNode) -> (r: Vec<u8>)
    ensures
        r@ == spec_vless_request(uuid@, target_host@, target_port),
{
    let _flow = match &node.flow {
        Some(f) => VlessFlow::parse(f.as_str()),
        None => VlessFlow::Plain,
    };
    let mut buf: Vec<u8> = Vec::new();
    buf.push(VLESS_VERSION);
    append_bytes(&mut buf, uuid);
    buf.push(CMD_TCP);
    buf.push(0x00);
    push_be16(&mut buf, target_port);
    push_target_address(&mut buf, target_host);
    proof {
        assert(buf@ =~= spec_vless_request(uuid@, target_host@, target_port));
    }
    buf
}

/// A VLESS client for one node.
pub struct VlessClient {
    node: ProxyNode,
    uuid: Vec<u8>,
}

impl VlessClient {
    pub closed spec fn spec_node(&self) -> ProxyNode {
        self.node
    }

    pub closed spec fn spec_uuid(&self) -> Seq<u8> {
        self.uuid@
    }

    /// Creates a client; the node must carry a UUID in hexadecimal groups.
    pub fn new(node: ProxyNode) -> (r: Result<VlessClient, Error>)
        ensures
            match node.uuid {
                None => r matches Err(e) && e matches Error::Parse(m) && m@ == "VLESS requires UUID"@,
                Some(u) => match spec_parse_uuid(u@) {
                    Some(b) => r matches Ok(c) && c.spec_node() == node && c.spec_uuid() == b,
                    None => r matches Err(e) && e matches Error::Parse(_),
                },
            },
    {
        let uuid = match &node.uuid {
            Some(u) => match parse_uuid(u.as_str()) {
                Ok(b) => b,
                Err(e) => {
                    return Err(e);
                },
            },
            None => {
                return Err(Error::Parse("VLESS requires UUID".to_owned()));
            },
        };
        Ok(VlessClient { node, uuid })
    }

    /// The node this client connects through.
    pub fn node(&self) -> (n: &ProxyNode)
        ensures
            *n == self.spec_node(),
    {
        &self.node
    }

    /// Encodes the request header for a tunnel to `target_host:target_port`.
    pub fn encode_connect_request(&self, target_host: &str, target_port: u16) -> (r: Vec<u8>)
        ensures
            r@ == spec_vless_request(self.spec_uuid(), target_host@, target_port),
    {
        encode_vless_request(self.uuid.as_slice(), target_host, target_port, &self.node)
    }
}

} // verus!

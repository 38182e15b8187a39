//! The Trojan client's connect request.

use vstd::prelude::*;
use vstd::string::*;
use vstd::utf8::encode_utf8;
use crate::digest::{spec_hex_lower, spec_sha224, hex_encode, sha224_digest};
use crate::error::Error;
use crate::models::ProxyNode;
use crate::wire::{append_bytes, be16, be32, push_be16, push_be32, push_target_address, spec_target_address};

verus! {

pub const CMD_TCP: u8 = 0x01;

/// The credential a Trojan server checks: the lower-case hex SHA-224 digest
/// of the UTF-8 password.
pub open spec fn spec_password_hash(password: Seq<char>) -> Seq<char> {
    spec_hex_lower(spec_sha224(encode_utf8(password)))
}

/// The Trojan request: credential, CRLF, the TCP command, the target
/// address and port, and CRLF.
pub open spec fn spec_connect_request(hash: Seq<char>, host: Seq<char>, port: u16) -> Seq<u8> {
    encode_utf8(hash) + seq![13u8, 10u8] + seq![CMD_TCP] + spec_target_address(host) + be16(port)
        + seq![13u8, 10u8]
}

/// The request in a gRPC message: no compression, the length in four
/// big-endian bytes (modulo 2^32), then the request.
pub open spec fn spec_grpc_frame(payload: Seq<u8>) -> Seq<u8> {
    seq![0u8] + be32((payload.len() % 0x1_0000_0000) as u32) + payload
}

/// A Trojan client for one node.
pub struct TrojanClient {
    node: ProxyNode,
    password_hash: String,
}

impl TrojanClient {
    pub closed spec fn spec_node(&self) -> ProxyNode {
        self.node
    }

    pub closed spec fn spec_hash(&self) -> Seq<char> {
        self.password_hash@
    }

    /// The credential is a SHA-224 digest in hex: 56 ASCII characters.
    pub open spec fn wf(&self) -> bool {
        &&& self.spec_hash().len() == 56
        &&& vstd::utf8::is_ascii_chars(self.spec_hash())
    }

    /// Creates a client; the node must carry a password.
    pub fn new(node: ProxyNode) -> (r: Result<TrojanClient, Error>)
        ensures
            match node.password {
                Some(p) => r matches Ok(c) && c.spec_node() == node
                    && c.spec_hash() == spec_password_hash(p@) && c.wf(),
                None => r matches Err(e) && e matches Error::Parse(m)
                    && m@ == "Trojan requires password"@,
            },
    {
        let hash = match &node.password {
            Some(p) => {
                let digest = sha224_digest(p.as_str().as_bytes());
                proof {
                    crate::uuid::lemma_hex_lower_len(digest@);
                    crate::digest::lemma_hex_round_trip(digest@);
                }
                hex_encode(digest.as_slice())
            },
            None => {
                return Err(Error::Parse("Trojan requires password".to_owned()));
            },
        };
        Ok(TrojanClient { node, password_hash: hash })
    }

    /// The node this client connects through.
    pub fn node(&self) -> (n: &ProxyNode)
        ensures
            *n == self.spec_node(),
    {
        &self.node
    }

    /// Encodes the request that opens a tunnel to `target_host:target_port`.
    pub fn encode_connect_request(&self, target_host: &str, target_port: u16) -> (r: Vec<u8>)
        ensures
            r@ == spec_connect_request(self.spec_hash(), target_host@, target_port),
    {
        let mut buf: Vec<u8> = Vec::new();
        append_bytes(&mut buf, self.password_hash.as_str().as_bytes());
        buf.push(13);
        buf.push(10);
        buf.push(CMD_TCP);
        push_target_address(&mut buf, target_host);
        push_be16(&mut buf, target_port);
        buf.push(13);
        buf.push(10);
        proof {
            assert(buf@ =~= spec_connect_request(self.spec_hash(), target_host@, target_port));
        }
        buf
    }

    /// Encodes the request as a gRPC message, for nodes on the gRPC
    /// transport.
    pub fn encode_connect_request_grpc(&self, target_host: &str, target_port: u16) -> (r: Vec<u8>)
        ensures
            r@ == spec_grpc_frame(spec_connect_request(self.spec_hash(), target_host@, target_port)),
    {
        let payload = self.encode_connect_request(target_host, target_port);
        grpc_frame(&payload)
    }
}

/// Wraps a payload in a gRPC message frame.
pub fn grpc_frame(payload: &[u8]) -> (r: Vec<u8>)
    ensures
        r@ == spec_grpc_frame(payload@),
{
    let mut frame: Vec<u8> = Vec::new();
    frame.push(0);
    let len: u32 = (payload.len() as u64 % 0x1_0000_0000) as u32;
    push_be32(&mut frame, len);
    append_bytes(&mut frame, payload);
    proof {
        assert(frame@ =~= spec_grpc_frame(payload@));
    }
    frame
}

} // verus!

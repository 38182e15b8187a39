//! Identifiers of subscriptions, nodes and rules: 128-bit UUIDs and their
//! hyphenated text.

use vstd::prelude::*;
use crate::digest::{spec_hex_lower, hex_encode, hex_char};

verus! {

/// The last `n` bytes of `v` in big-endian order.
pub open spec fn be_bytes(v: nat, n: nat) -> Seq<u8>
    decreases n,
{
    if n == 0 { Seq::empty() } else { be_bytes(v / 256, (n - 1) as nat).push((v % 256) as u8) }
}

pub proof fn lemma_be_bytes_len(v: nat, n: nat)
    ensures
        be_bytes(v, n).len() == n,
    decreases n,
{
    if n > 0 {
        lemma_be_bytes_len(v / 256, (n - 1) as nat);
    }
}

fn push_be_bytes(buf: &mut Vec<u8>, v: u128, n: u32)
    requires
        n <= 16,
    ensures
        final(buf)@ == old(buf)@ + be_bytes(v as nat, n as nat),
    decreases n,
{
    if n > 0 {
        push_be_bytes(buf, v / 256, n - 1);
        let ghost mid = buf@;
        buf.push((v % 256) as u8);
        proof {
            assert(buf@ =~= old(buf)@ + be_bytes(v as nat, n as nat));
        }
    }
}

/// The sixteen bytes of an identifier, most significant first.
pub fn uuid_bytes(id: u128) -> (b: Vec<u8>)
    ensures
        b@ == be_bytes(id as nat, 16),
{
    let mut b: Vec<u8> = Vec::new();
    push_be_bytes(&mut b, id, 16);
    proof {
        assert(b@ =~= be_bytes(id as nat, 16));
    }
    b
}

pub proof fn lemma_hex_lower_len(d: Seq<u8>)
    ensures
        spec_hex_lower(d).len() == 2 * d.len(),
    decreases d.len(),
{
    if d.len() > 0 {
        lemma_hex_lower_len(d.drop_last());
    }
}

/// The hyphenated text of an identifier: 32 lower-case hexadecimal digits
/// in groups of 8, 4, 4, 4 and 12.
pub open spec fn spec_uuid_text(id: u128) -> Seq<char> {
    let h = spec_hex_lower(be_bytes(id as nat, 16));
    h.subrange(0, 8) + "-"@ + h.subrange(8, 12) + "-"@ + h.subrange(12, 16) + "-"@ + h.subrange(16, 20)
        + "-"@ + h.subrange(20, 32)
}

/// Formats an identifier the way `uuid::Uuid`'s `Display` does.
pub fn uuid_to_string(id: u128) -> (s: String)
    ensures
        s@ == spec_uuid_text(id),
{
    let bytes = uuid_bytes(id);
    let h = hex_encode(bytes.as_slice());
    proof {
        lemma_be_bytes_len(id as nat, 16);
        lemma_hex_lower_len(bytes@);
    }
    let cs = crate::text::str_chars(h.as_str());
    let mut s = crate::text::string_from_chars(cs.as_slice(), 0, 8);
    s.push('-');
    let p2 = crate::text::string_from_chars(cs.as_slice(), 8, 12);
    s.append(p2.as_str());
    s.push('-');
    let p3 = crate::text::string_from_chars(cs.as_slice(), 12, 16);
    s.append(p3.as_str());
    s.push('-');
    let p4 = crate::text::string_from_chars(cs.as_slice(), 16, 20);
    s.append(p4.as_str());
    s.push('-');
    let p5 = crate::text::string_from_chars(cs.as_slice(), 20, 32);
    s.append(p5.as_str());
    proof {
        reveal_strlit("-");
        assert(s@ =~= spec_uuid_text(id));
    }
    s
}

/// What `uuid::Uuid::parse_str` reads from a text, as the identifier's
/// 128-bit value, or `None` where it refuses the text.
pub uninterp spec fn spec_uuid_parse(s: Seq<char>) -> Option<u128>;

/// Parses an identifier with `uuid::Uuid::parse_str`, which takes the
/// simple, hyphenated, braced and URN forms. Which texts it accepts is
/// named, not stated, except that the hyphenated text of an identifier
/// parses back as that identifier; a refusal carries the error's text.
#[verifier::external_body]
pub(crate) fn uuid_parse(s: &str) -> (r: Result<u128, String>)
    ensures
        match r {
            Ok(id) => spec_uuid_parse(s@) == Some(id),
            Err(_) => spec_uuid_parse(s@) is None,
        },
        r is Err ==> forall|id: u128| #[trigger] spec_uuid_text(id) != s@,
        r matches Ok(v) ==> forall|id: u128| #[trigger] spec_uuid_text(id) == s@ ==> v == id,
{
    match uuid::Uuid::parse_str(s) {
        Ok(u) => Ok(u.as_u128()),
        Err(e) => Err(e.to_string()),
    }
}

} // verus!

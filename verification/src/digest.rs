//! Hash digests and hexadecimal text, from the `sha2` and `hex` crates.

use vstd::prelude::*;
use vstd::string::*;

verus! {

/// The SHA-224 digest of a byte string.
pub uninterp spec fn spec_sha224(data: Seq<u8>) -> Seq<u8>;

/// The SHA-256 digest of a byte string.
pub uninterp spec fn spec_sha256(data: Seq<u8>) -> Seq<u8>;

/// Computes `sha2::Sha224::digest`; the digest is 28 bytes long, and its
/// value is named, not stated.
#[verifier::external_body]
pub(crate) fn sha224_digest(data: &[u8]) -> (r: Vec<u8>)
    ensures
        r@ == spec_sha224(data@),
        r@.len() == 28,
{
    <sha2::Sha224 as sha2::Digest>::digest(data).to_vec()
}

/// Computes `sha2::Sha256::digest`; the digest is 32 bytes long, and its
/// value is named, not stated.
#[verifier::external_body]
pub(crate) fn sha256_digest(data: &[u8]) -> (r: Vec<u8>)
    ensures
        r@ == spec_sha256(data@),
        r@.len() == 32,
{
    <sha2::Sha256 as sha2::Digest>::digest(data).to_vec()
}

/// The lower-case hexadecimal digit for a value below sixteen.
pub open spec fn hex_char(n: int) -> char {
    if n < 10 { ((n + 48) as u8) as char } else { ((n - 10 + 97) as u8) as char }
}

/// Two lower-case hexadecimal digits per byte, high nibble first.
pub open spec fn spec_hex_lower(data: Seq<u8>) -> Seq<char>
    decreases data.len(),
{
    if data.len() == 0 {
        Seq::empty()
    } else {
        spec_hex_lower(data.drop_last()).push(hex_char(data.last() as int / 16)).push(
            hex_char(data.last() as int % 16),
        )
    }
}

/// The hexadecimal text of two byte strings side by side is the two texts
/// side by side.
pub proof fn lemma_hex_lower_concat(a: Seq<u8>, b: Seq<u8>)
    ensures
        spec_hex_lower(a + b) == spec_hex_lower(a) + spec_hex_lower(b),
    decreases b.len(),
{
    if b.len() == 0 {
        assert(a + b =~= a);
        assert(spec_hex_lower(a) + spec_hex_lower(b) =~= spec_hex_lower(a));
    } else {
        lemma_hex_lower_concat(a, b.drop_last());
        assert((a + b).drop_last() =~= a + b.drop_last());
        assert((a + b).last() == b.last());
        let x = hex_char(b.last() as int / 16);
        let y = hex_char(b.last() as int % 16);
        assert(spec_hex_lower(a) + spec_hex_lower(b.drop_last()).push(x).push(y)
            =~= (spec_hex_lower(a) + spec_hex_lower(b.drop_last())).push(x).push(y));
    }
}

/// A digit's byte reads back as its value, and it is neither `-` nor
/// outside ASCII.
pub proof fn lemma_hex_char(n: int)
    requires
        0 <= n < 16,
    ensures
        hex_val(hex_char(n) as u8) == Some(n as nat),
        hex_char(n) != '-',
        '\0' <= hex_char(n) <= '\u{7f}',
{
}

/// Hexadecimal text is ASCII, has no `-`, and decodes back to the bytes it
/// was made from.
pub proof fn lemma_hex_round_trip(d: Seq<u8>)
    ensures
        vstd::utf8::is_ascii_chars(spec_hex_lower(d)),
        forall|i: int| 0 <= i < spec_hex_lower(d).len() ==> spec_hex_lower(d)[i] != '-',
        spec_hex_decode(vstd::utf8::encode_utf8(spec_hex_lower(d))) == Some(d),
    decreases d.len(),
{
    let h = spec_hex_lower(d);
    if d.len() == 0 {
        assert(h =~= Seq::<char>::empty());
        assert(vstd::utf8::encode_utf8(h) =~= Seq::<u8>::empty());
        assert(d =~= Seq::<u8>::empty());
    } else {
        let dp = d.drop_last();
        let hp = spec_hex_lower(dp);
        lemma_hex_round_trip(dp);
        let x = hex_char(d.last() as int / 16);
        let y = hex_char(d.last() as int % 16);
        lemma_hex_char(d.last() as int / 16);
        lemma_hex_char(d.last() as int % 16);
        assert(h == hp.push(x).push(y));
        assert forall|i: int| 0 <= i < h.len() implies '\0' <= #[trigger] h[i] <= '\u{7f}' && h[i] != '-' by {
            if i < hp.len() {
                assert(h[i] == hp[i]);
            }
        }
        vstd::utf8::is_ascii_chars_encode_utf8(h);
        vstd::utf8::is_ascii_chars_encode_utf8(hp);
        let e = vstd::utf8::encode_utf8(h);
        let ep = vstd::utf8::encode_utf8(hp);
        assert(e.len() == h.len());
        assert(e.subrange(0, e.len() - 2) =~= ep) by {
            assert forall|i: int| 0 <= i < ep.len() implies e[i] == ep[i] by {
                assert(h[i] == hp[i]);
            }
        }
        assert(e[e.len() - 2] == x as u8);
        assert(e[e.len() - 1] == y as u8);
        assert((d.last() as int / 16) * 16 + d.last() as int % 16 == d.last() as int);
        assert(dp.push(d.last()) =~= d);
    }
}

/// Encodes bytes with `hex::encode`: lower-case digits, two per byte.
#[verifier::external_body]
pub(crate) fn hex_encode(data: &[u8]) -> (s: String)
    ensures
        s@ == spec_hex_lower(data@),
{
    hex::encode(data)
}

/// The value of one hexadecimal digit byte, either case.
pub open spec fn hex_val(b: u8) -> Option<nat> {
    if 48 <= b <= 57 {
        Some((b - 48) as nat)
    } else if 97 <= b <= 102 {
        Some((b - 97 + 10) as nat)
    } else if 65 <= b <= 70 {
        Some((b - 65 + 10) as nat)
    } else {
        None
    }
}

/// What `hex::decode` gives: an even number of hexadecimal digits, two per
/// byte, high nibble first.
pub open spec fn spec_hex_decode(s: Seq<u8>) -> Option<Seq<u8>>
    decreases s.len(),
{
    if s.len() == 0 {
        Some(Seq::empty())
    } else if s.len() == 1 {
        None
    } else {
        match (spec_hex_decode(s.subrange(0, s.len() - 2)), hex_val(s[s.len() - 2]), hex_val(s[s.len() - 1])) {
            (Some(p), Some(h), Some(l)) => Some(p.push((h * 16 + l) as u8)),
            _ => None,
        }
    }
}

/// Decodes hexadecimal text with `hex::decode`; a refusal carries the
/// error's `Display` text, whose wording is left unstated.
#[verifier::external_body]
pub(crate) fn hex_decode(s: &str) -> (r: Result<Vec<u8>, String>)
    ensures
        match r {
            Ok(v) => spec_hex_decode(s.spec_bytes()) == Some(v@),
            Err(_) => spec_hex_decode(s.spec_bytes()) is None,
        },
{
    match hex::decode(s) {
        Ok(v) => Ok(v),
        Err(e) => Err(e.to_string()),
    }
}

} // verus!

//! What the command-line client prints: the node table with display widths
//! of wide (CJK, emoji) characters, truncation with an ellipsis and padding
//! to a column; the summary block of a fetched subscription; and the list of
//! saved subscriptions.

use vstd::prelude::*;
use vstd::string::*;
use crate::models::{ProxyNode, Subscription};
use crate::config::StoredSubscription;
use crate::assets::views;
use crate::text::{dec_digits, push_decimal};

verus! {

/// Whether a character takes two terminal columns: the CJK, Hangul and
/// full-width blocks, and the emoji and symbol blocks.
pub open spec fn spec_is_wide(c: char) -> bool {
    let cp = c as int;
    ||| 0x1100 <= cp <= 0x115F
    ||| 0x2E80 <= cp <= 0x303E
    ||| 0x3041 <= cp <= 0x33BF
    ||| 0x3400 <= cp <= 0x4DBF
    ||| 0x4E00 <= cp <= 0x9FFF
    ||| 0xA000 <= cp <= 0xA4CF
    ||| 0xAC00 <= cp <= 0xD7AF
    ||| 0xF900 <= cp <= 0xFAFF
    ||| 0xFE30 <= cp <= 0xFE6F
    ||| 0xFF01 <= cp <= 0xFF60
    ||| 0xFFE0 <= cp <= 0xFFE6
    ||| 0x20000 <= cp <= 0x2FA1F
    ||| 0x30000 <= cp <= 0x3134F
    ||| 0x1F1E0 <= cp <= 0x1F1FF
    ||| 0x1F300 <= cp <= 0x1F9FF
    ||| 0x1FA00 <= cp <= 0x1FA6F
    ||| 0x1FA70 <= cp <= 0x1FAFF
    ||| 0x2600 <= cp <= 0x26FF
    ||| 0x2700 <= cp <= 0x27BF
    ||| 0x2300 <= cp <= 0x23FF
}

/// The columns a character takes.
pub open spec fn spec_char_width(c: char) -> nat {
    if spec_is_wide(c) { 2 } else { 1 }
}

/// The columns a text takes.
pub open spec fn spec_display_width(s: Seq<char>) -> nat
    decreases s.len(),
{
    if s.len() == 0 { 0 } else { spec_display_width(s.drop_last()) + spec_char_width(s.last()) }
}

/// The room left for characters when a text is cut to `max` columns: three
/// columns are kept for the ellipsis.
pub open spec fn spec_room(max: nat) -> nat {
    if max >= 3 { (max - 3) as nat } else { 0 }
}

/// The characters of `s` that fit in `room` columns after `used` ones,
/// followed by `...` if some character does not fit.
pub open spec fn spec_cut(s: Seq<char>, room: nat, used: nat) -> Seq<char>
    decreases s.len(),
{
    if s.len() == 0 {
        Seq::empty()
    } else if used + spec_char_width(s[0]) > room {
        "..."@
    } else {
        seq![s[0]] + spec_cut(s.drop_first(), room, used + spec_char_width(s[0]))
    }
}

/// `s` cut to `max` columns.
pub open spec fn spec_truncate_to_width(s: Seq<char>, max: nat) -> Seq<char> {
    spec_cut(s, spec_room(max), 0)
}

/// `n` spaces.
pub open spec fn spaces(n: nat) -> Seq<char> {
    Seq::new(n, |i: int| ' ')
}

/// `s` padded with spaces to `target` columns, or cut to them when it is
/// as wide or wider.
pub open spec fn spec_pad_to_width(s: Seq<char>, target: nat) -> Seq<char> {
    if spec_display_width(s) >= target {
        spec_truncate_to_width(s, target)
    } else {
        s + spaces((target - spec_display_width(s)) as nat)
    }
}

/// `s` left-aligned in a field of `n` characters, as `{:<n}` formats it.
pub open spec fn spec_left(s: Seq<char>, n: nat) -> Seq<char> {
    if s.len() >= n { s } else { s + spaces((n - s.len()) as nat) }
}

pub proof fn lemma_width_bound(s: Seq<char>)
    ensures
        spec_display_width(s) <= 2 * s.len(),
    decreases s.len(),
{
    if s.len() > 0 {
        lemma_width_bound(s.drop_last());
    }
}

/// Whether a character takes two terminal columns.
pub fn unicode_is_wide(c: char) -> (r: bool)
    ensures
        r == spec_is_wide(c),
{
    let cp = c as u32;
    (0x1100 <= cp && cp <= 0x115F)
        || (0x2E80 <= cp && cp <= 0x303E)
        || (0x3041 <= cp && cp <= 0x33BF)
        || (0x3400 <= cp && cp <= 0x4DBF)
        || (0x4E00 <= cp && cp <= 0x9FFF)
        || (0xA000 <= cp && cp <= 0xA4CF)
        || (0xAC00 <= cp && cp <= 0xD7AF)
        || (0xF900 <= cp && cp <= 0xFAFF)
        || (0xFE30 <= cp && cp <= 0xFE6F)
        || (0xFF01 <= cp && cp <= 0xFF60)
        || (0xFFE0 <= cp && cp <= 0xFFE6)
        || (0x20000 <= cp && cp <= 0x2FA1F)
        || (0x30000 <= cp && cp <= 0x3134F)
        || (0x1F1E0 <= cp && cp <= 0x1F1FF)
        || (0x1F300 <= cp && cp <= 0x1F9FF)
        || (0x1FA00 <= cp && cp <= 0x1FA6F)
        || (0x1FA70 <= cp && cp <= 0x1FAFF)
        || (0x2600 <= cp && cp <= 0x26FF)
        || (0x2700 <= cp && cp <= 0x27BF)
        || (0x2300 <= cp && cp <= 0x23FF)
}

fn char_width(c: char) -> (w: usize)
    ensures
        w == spec_char_width(c),
{
    if unicode_is_wide(c) { 2 } else { 1 }
}

/// The columns a text takes.
pub fn display_width(s: &str) -> (w: usize)
    requires
        2 * s@.len() <= usize::MAX,
    ensures
        w == spec_display_width(s@),
{
    let n = s.unicode_len();
    let mut w: usize = 0;
    let mut i: usize = 0;
    while i < n
        invariant
            n == s@.len(),
            2 * n <= usize::MAX,
            i <= n,
            w == spec_display_width(s@.take(i as int)),
        decreases n - i,
    {
        proof {
            assert(s@.take(i + 1).drop_last() =~= s@.take(i as int));
            lemma_width_bound(s@.take(i as int));
        }
        w = w + char_width(s.get_char(i));
        i = i + 1;
    }
    proof {
        assert(s@.take(n as int) =~= s@);
    }
    w
}

/// Cuts a text to `max_width` columns: the characters that fit in three
/// columns less, then `...` if any character is left out.
pub fn truncate_to_width(s: &str, max_width: usize) -> (r: String)
    ensures
        r@ == spec_truncate_to_width(s@, max_width as nat),
{
    let room: usize = if max_width >= 3 { max_width - 3 } else { 0 };
    let n = s.unicode_len();
    let mut result = String::new();
    let mut used: usize = 0;
    let mut i: usize = 0;
    proof {
        assert(s@.subrange(0, n as int) =~= s@);
    }
    while i < n
        invariant
            n == s@.len(),
            i <= n,
            room == spec_room(max_width as nat),
            used <= room,
            room + 3 <= usize::MAX,
            result@ + spec_cut(s@.subrange(i as int, n as int), room as nat, used as nat)
                == spec_truncate_to_width(s@, max_width as nat),
        decreases n - i,
    {
        let c = s.get_char(i);
        let w = char_width(c);
        let ghost rest = s@.subrange(i as int, n as int);
        proof {
            assert(rest[0] == c);
            assert(rest.drop_first() =~= s@.subrange(i + 1, n as int));
        }
        if used + w > room {
            result.append("...");
            return result;
        }
        let ghost before = result@;
        result.push(c);
        proof {
            assert(spec_cut(rest, room as nat, used as nat) == seq![c] + spec_cut(rest.drop_first(), room as nat, (used + w) as nat));
            assert(result@ + spec_cut(s@.subrange(i + 1, n as int), room as nat, (used + w) as nat)
                =~= before + (seq![c] + spec_cut(s@.subrange(i + 1, n as int), room as nat, (used + w) as nat)));
        }
        used = used + w;
        i = i + 1;
    }
    proof {
        assert(spec_cut(s@.subrange(n as int, n as int), room as nat, used as nat) =~= Seq::<char>::empty());
        assert(result@ + Seq::<char>::empty() =~= result@);
    }
    result
}

fn push_spaces(s: &mut String, n: usize)
    ensures
        final(s)@ == old(s)@ + spaces(n as nat),
{
    let mut i: usize = 0;
    while i < n
        invariant
            i <= n,
            s@ == old(s)@ + spaces(i as nat),
        decreases n - i,
    {
        s.push(' ');
        i = i + 1;
        proof {
            assert(s@ =~= old(s)@ + spaces(i as nat));
        }
    }
}

/// Pads a text with spaces to `target_width` columns, or cuts it to them
/// when it is as wide or wider.
pub fn pad_to_width(s: &str, target_width: usize) -> (r: String)
    requires
        2 * s@.len() <= usize::MAX,
    ensures
        r@ == spec_pad_to_width(s@, target_width as nat),
{
    let current = display_width(s);
    if current >= target_width {
        truncate_to_width(s, target_width)
    } else {
        let mut r = s.to_owned();
        push_spaces(&mut r, target_width - current);
        r
    }
}

/// Left-aligns a text in a field of `n` characters.
pub(crate) fn push_left(out: &mut String, s: &str, n: usize)
    ensures
        final(out)@ == old(out)@ + spec_left(s@, n as nat),
{
    out.append(s);
    let len = s.unicode_len();
    if len < n {
        push_spaces(out, n - len);
    }
    proof {
        assert(out@ =~= old(out)@ + spec_left(s@, n as nat));
    }
}

/// The header of the node table.
pub open spec fn spec_table_header() -> Seq<char> {
    spec_left("#"@, 4) + " "@ + spec_left("NAME"@, 30) + " "@ + spec_left("SERVER"@, 22) + " "@
        + spec_left("PROTO"@, 10) + " "@ + spec_left("TRANS"@, 8) + " "@ + spec_left("SEC"@, 8)
}

pub fn table_header() -> (s: String)
    ensures
        s@ == spec_table_header(),
{
    let mut s = String::new();
    push_left(&mut s, "#", 4);
    s.append(" ");
    push_left(&mut s, "NAME", 30);
    s.append(" ");
    push_left(&mut s, "SERVER", 22);
    s.append(" ");
    push_left(&mut s, "PROTO", 10);
    s.append(" ");
    push_left(&mut s, "TRANS", 8);
    s.append(" ");
    push_left(&mut s, "SEC", 8);
    proof {
        assert(s@ =~= spec_table_header());
    }
    s
}

/// The row of the node at position `index` (counted from zero): its number,
/// name cut and padded to 30 columns, `server:port` padded to 22 columns,
/// and the protocol, transport and security names.
pub open spec fn spec_table_row(index: nat, node: ProxyNode) -> Seq<char> {
    spec_left(dec_digits(index + 1), 4) + " "@
        + spec_pad_to_width(spec_truncate_to_width(node.name@, 30), 30) + " "@
        + spec_pad_to_width(node.server@ + ":"@ + dec_digits(node.port as nat), 22) + " "@
        + spec_left(node.protocol.spec_debug_name(), 10) + " "@
        + spec_left(node.transport.spec_debug_name(), 8) + " "@
        + spec_left(node.security.spec_debug_name(), 8)
}

pub proof fn lemma_cut_len(s: Seq<char>, room: nat, used: nat)
    ensures
        spec_cut(s, room, used).len() <= s.len() + 3,
    decreases s.len(),
{
    reveal_strlit("...");
    if s.len() > 0 && used + spec_char_width(s[0]) <= room {
        lemma_cut_len(s.drop_first(), room, used + spec_char_width(s[0]));
    }
}

/// The row of one node in the table.
pub fn table_row(index: u64, node: &ProxyNode) -> (s: String)
    requires
        index < u64::MAX,
        2 * (node.name@.len() + 3) <= usize::MAX,
        2 * (node.server@.len() + 6) <= usize::MAX,
    ensures
        s@ == spec_table_row(index as nat, *node),
{
    let mut num = String::new();
    push_decimal(&mut num, index + 1);
    let mut s = String::new();
    push_left(&mut s, num.as_str(), 4);
    s.append(" ");
    let name = truncate_to_width(node.name.as_str(), 30);
    proof {
        lemma_cut_len(node.name@, spec_room(30), 0);
    }
    let name_padded = pad_to_width(name.as_str(), 30);
    s.append(name_padded.as_str());
    s.append(" ");
    let server = node.server_addr();
    proof {
        reveal_strlit(":");
        lemma_dec_digits_short(node.port as nat);
    }
    let server_padded = pad_to_width(server.as_str(), 22);
    s.append(server_padded.as_str());
    s.append(" ");
    push_left(&mut s, node.protocol.debug_name(), 10);
    s.append(" ");
    push_left(&mut s, node.transport.debug_name(), 8);
    s.append(" ");
    push_left(&mut s, node.security.debug_name(), 8);
    proof {
        assert(num@ =~= dec_digits(index as nat + 1));
        assert(s@ =~= spec_table_row(index as nat, *node));
    }
    s
}

/// A port has at most five decimal digits.
pub proof fn lemma_dec_digits_short(n: nat)
    requires
        n < 100000,
    ensures
        dec_digits(n).len() <= 5,
{
    if n >= 10 {
        let a = n / 10;
        assert(dec_digits(n).len() == dec_digits(a).len() + 1);
        if a >= 10 {
            let b = a / 10;
            assert(dec_digits(a).len() == dec_digits(b).len() + 1);
            if b >= 10 {
                let c = b / 10;
                assert(dec_digits(b).len() == dec_digits(c).len() + 1);
                if c >= 10 {
                    let d = c / 10;
                    assert(dec_digits(c).len() == dec_digits(d).len() + 1);
                    assert(dec_digits(d).len() == 1);
                }
            }
        }
    }
}

// ---------------------------------------------------------------------------
// Times, sizes and text cut at a byte length
// ---------------------------------------------------------------------------

/// The pattern of dates shown to the minute.
pub open spec fn spec_minutes_pattern() -> Seq<char> {
    "%Y-%m-%d %H:%M UTC"@
}

/// The pattern of dates shown to the second.
pub open spec fn spec_seconds_pattern() -> Seq<char> {
    "%Y-%m-%d %H:%M:%S UTC"@
}

/// What `chrono` writes for a UTC instant, given in Unix milliseconds, with
/// a `strftime` pattern; `None` for an instant outside its calendar range.
pub uninterp spec fn spec_utc_format(ms: i64, pattern: Seq<char>) -> Option<Seq<char>>;

/// Formats a UTC instant with `chrono::DateTime::format`, after
/// `DateTime::from_timestamp_millis` read the milliseconds; the text is
/// named, not stated. Only the two patterns this library shows are passed.
#[verifier::external_body]
pub(crate) fn utc_format(ms: i64, pattern: &str) -> (r: Option<String>)
    requires
        pattern@ == spec_minutes_pattern() || pattern@ == spec_seconds_pattern(),
    ensures
        match r {
            Some(t) => spec_utc_format(ms, pattern@) == Some(t@),
            None => spec_utc_format(ms, pattern@) is None,
        },
{
    match chrono::DateTime::from_timestamp_millis(ms) {
        Some(t) => Some(t.format(pattern).to_string()),
        None => None,
    }
}

/// The RFC 3339 text that `chrono` writes for a UTC instant, given in Unix
/// milliseconds (as its serde form does); `None` for an instant outside its
/// calendar range.
pub uninterp spec fn spec_utc_rfc3339(ms: i64) -> Option<Seq<char>>;

/// Writes a UTC instant with `chrono::DateTime::to_rfc3339_opts`, seconds
/// with as many fraction digits as needed and `Z` for the offset, after
/// `DateTime::from_timestamp_millis` read the milliseconds; the text is
/// named, not stated.
#[verifier::external_body]
pub(crate) fn utc_rfc3339(ms: i64) -> (r: Option<String>)
    ensures
        match r {
            Some(t) => spec_utc_rfc3339(ms) == Some(t@),
            None => spec_utc_rfc3339(ms) is None,
        },
{
    match chrono::DateTime::from_timestamp_millis(ms) {
        Some(t) => Some(t.to_rfc3339_opts(chrono::SecondsFormat::AutoSi, true)),
        None => None,
    }
}

/// What `bytesize::to_string` writes for a byte count.
pub uninterp spec fn spec_byte_size_text(bytes: u64, si_prefix: bool) -> Seq<char>;

/// Writes a byte count with `bytesize::to_string`: counts below one unit
/// (1024 with `si_prefix`, else 1000) as the number and ` B`; larger ones
/// with one decimal and a unit, whose text is named, not stated.
#[verifier::external_body]
pub(crate) fn byte_size_text(bytes: u64, si_prefix: bool) -> (r: String)
    ensures
        r@ == spec_byte_size_text(bytes, si_prefix),
        bytes < (if si_prefix { 1024u64 } else { 1000u64 }) ==> r@ == dec_digits(bytes as nat) + " B"@,
{
    bytesize::to_string(bytes, si_prefix)
}

/// How many bytes UTF-8 takes for a character.
pub open spec fn spec_utf8_width(c: char) -> nat {
    if (c as u32) <= 0x7F {
        1
    } else if (c as u32) <= 0x7FF {
        2
    } else if (c as u32) <= 0xFFFF {
        3
    } else {
        4
    }
}

/// The UTF-8 length of a text.
pub open spec fn spec_utf8_len(s: Seq<char>) -> nat
    decreases s.len(),
{
    if s.len() == 0 { 0 } else { spec_utf8_width(s[0]) + spec_utf8_len(s.drop_first()) }
}

/// These lengths are those of the UTF-8 encoding.
pub proof fn lemma_utf8_len(s: Seq<char>)
    ensures
        spec_utf8_len(s) == vstd::utf8::encode_utf8(s).len(),
    decreases s.len(),
{
    if s.len() > 0 {
        lemma_utf8_len(s.drop_first());
        vstd::utf8::char_is_scalar(s[0]);
    }
}

/// The longest start of a text whose UTF-8 length is at most `n` bytes.
pub open spec fn spec_byte_prefix(s: Seq<char>, n: nat) -> Seq<char>
    decreases s.len(),
{
    if s.len() == 0 || spec_utf8_width(s[0]) > n {
        Seq::empty()
    } else {
        seq![s[0]] + spec_byte_prefix(s.drop_first(), (n - spec_utf8_width(s[0])) as nat)
    }
}

/// Whether the first `n` bytes of a text end on a character boundary (or
/// the text is no longer): where slicing the text there does not panic.
pub open spec fn spec_cuts_at_boundary(s: Seq<char>, n: nat) -> bool {
    spec_utf8_len(s) <= n || spec_utf8_len(spec_byte_prefix(s, n)) == n
}

fn utf8_width(c: char) -> (w: usize)
    ensures
        w == spec_utf8_width(c),
{
    let v = c as u32;
    if v <= 0x7F {
        1
    } else if v <= 0x7FF {
        2
    } else if v <= 0xFFFF {
        3
    } else {
        4
    }
}

/// The start of `s` that fits in `n` bytes, whole characters only.
pub fn byte_prefix(s: &str, n: usize) -> (r: String)
    ensures
        r@ == spec_byte_prefix(s@, n as nat),
{
    let cs = crate::text::str_chars(s);
    let mut r = String::new();
    let mut room: usize = n;
    let mut i: usize = 0;
    proof {
        assert(cs@.subrange(0, cs@.len() as int) =~= cs@);
        assert(r@ + spec_byte_prefix(cs@, n as nat) =~= spec_byte_prefix(cs@, n as nat));
    }
    while i < cs.len()
        invariant
            cs@ == s@,
            i <= cs@.len(),
            r@ + spec_byte_prefix(cs@.subrange(i as int, cs@.len() as int), room as nat)
                == spec_byte_prefix(cs@, n as nat),
        decreases cs@.len() - i,
    {
        let c = cs[i];
        let w = utf8_width(c);
        let ghost rest = cs@.subrange(i as int, cs@.len() as int);
        proof {
            assert(rest[0] == c);
            assert(rest.drop_first() =~= cs@.subrange(i + 1, cs@.len() as int));
        }
        if w > room {
            proof {
                assert(spec_byte_prefix(rest, room as nat) =~= Seq::<char>::empty());
                assert(r@ =~= r@ + Seq::<char>::empty());
            }
            return r;
        }
        proof {
            assert(spec_byte_prefix(rest, room as nat)
                == seq![c] + spec_byte_prefix(rest.drop_first(), (room - w) as nat));
        }
        let ghost before = r@;
        r.push(c);
        room = room - w;
        i = i + 1;
        proof {
            assert(r@ =~= before.push(c));
            assert(before + (seq![c] + spec_byte_prefix(cs@.subrange(i as int, cs@.len() as int), room as nat))
                =~= r@ + spec_byte_prefix(cs@.subrange(i as int, cs@.len() as int), room as nat));
        }
    }
    proof {
        assert(cs@.subrange(i as int, cs@.len() as int) =~= Seq::<char>::empty());
        assert(r@ + Seq::<char>::empty() =~= r@);
    }
    r
}

// ---------------------------------------------------------------------------
// The saved-subscription list
// ---------------------------------------------------------------------------

/// A horizontal rule of `n` box-drawing characters.
pub open spec fn spec_rule(n: nat) -> Seq<char> {
    Seq::new(n, |i: int| '\u{2500}')
}

/// Whether the listing can take the first sixteen bytes of a
/// subscription's HWID: they end on a character boundary, or the HWID is
/// shorter.
pub open spec fn spec_hwid_cuts(s: StoredSubscription) -> bool {
    match s.hwid {
        Some(h) => spec_cuts_at_boundary(h@, 16),
        None => true,
    }
}

/// A subscription's state as the list shows it.
pub open spec fn spec_active_text(active: bool) -> Seq<char> {
    if active { "ACTIVE"@ } else { "INACTIVE"@ }
}

/// The lines of the subscription at position `i` (from zero) in the list:
/// its number, URL and state, its name, and when `detailed` the times it
/// was added and updated and the start of its HWID; `None` when a time
/// lies outside the calendar.
pub open spec fn spec_sub_entry(i: nat, s: StoredSubscription, detailed: bool) -> Option<Seq<Seq<char>>> {
    let head = seq!["  "@ + dec_digits(i + 1) + ". "@ + s.url@ + " ["@ + spec_active_text(s.is_active) + "]"@];
    let named = match s.name {
        Some(n) => head.push("     Name:     "@ + n@),
        None => head,
    };
    if !detailed {
        Some(named)
    } else {
        match spec_utc_format(s.added_at, spec_minutes_pattern()) {
            None => None,
            Some(added) => {
                let with_added = named.push("     Added:    "@ + added);
                let updated = match s.last_updated {
                    None => Some(with_added),
                    Some(t) => match spec_utc_format(t, spec_minutes_pattern()) {
                        Some(u) => Some(with_added.push("     Updated:  "@ + u)),
                        None => None,
                    },
                };
                match updated {
                    None => None,
                    Some(lines) => Some(match s.hwid {
                        Some(h) => lines.push("     HWID:     "@ + spec_byte_prefix(h@, 16) + "..."@),
                        None => lines,
                    }),
                }
            },
        }
    }
}

/// The saved-subscription list: a title and a rule, then each
/// subscription's lines; `None` when a time lies outside the calendar.
pub open spec fn spec_sub_list(subs: Seq<StoredSubscription>, detailed: bool) -> Option<Seq<Seq<char>>>
    decreases subs.len(),
{
    if subs.len() == 0 {
        Some(seq!["Saved Subscriptions"@, spec_rule(70)])
    } else {
        match (spec_sub_list(subs.drop_last(), detailed), spec_sub_entry((subs.len() - 1) as nat, subs.last(), detailed)) {
            (Some(a), Some(b)) => Some(a + b),
            _ => None,
        }
    }
}

/// A rule of `n` box-drawing characters.
pub fn rule(n: usize) -> (r: String)
    ensures
        r@ == spec_rule(n as nat),
{
    let mut r = String::new();
    let mut i: usize = 0;
    while i < n
        invariant
            i <= n,
            r@ =~= spec_rule(i as nat),
        decreases n - i,
    {
        r.push('\u{2500}');
        i = i + 1;
    }
    r
}

pub(crate) fn push_line(v: &mut Vec<String>, s: String)
    ensures
        views(final(v)@) == views(old(v)@).push(s@),
{
    v.push(s);
    proof {
        assert(views(v@) =~= views(old(v)@).push(s@));
    }
}

fn sub_entry(i: usize, s: &StoredSubscription, detailed: bool) -> (r: Option<Vec<String>>)
    requires
        i < usize::MAX,
        spec_hwid_cuts(*s),
    ensures
        match r {
            Some(v) => spec_sub_entry(i as nat, *s, detailed) == Some(views(v@)),
            None => spec_sub_entry(i as nat, *s, detailed) is None,
        },
{
    let mut v: Vec<String> = Vec::new();
    let mut head = "  ".to_owned();
    push_decimal(&mut head, (i + 1) as u64);
    head.append(". ");
    head.append(s.url.as_str());
    head.append(" [");
    head.append(if s.is_active { "ACTIVE" } else { "INACTIVE" });
    head.append("]");
    push_line(&mut v, head);
    proof {
        assert(views(v@) =~= seq!["  "@ + dec_digits(i as nat + 1) + ". "@ + s.url@ + " ["@
            + spec_active_text(s.is_active) + "]"@]);
    }
    match &s.name {
        Some(n) => {
            let mut l = "     Name:     ".to_owned();
            l.append(n.as_str());
            push_line(&mut v, l);
        },
        None => {},
    }
    if !detailed {
        return Some(v);
    }
    let added = match utc_format(s.added_at, "%Y-%m-%d %H:%M UTC") {
        Some(t) => t,
        None => return None,
    };
    let mut l = "     Added:    ".to_owned();
    l.append(added.as_str());
    push_line(&mut v, l);
    match s.last_updated {
        Some(t) => {
            match utc_format(t, "%Y-%m-%d %H:%M UTC") {
                Some(u) => {
                    let mut l2 = "     Updated:  ".to_owned();
                    l2.append(u.as_str());
                    push_line(&mut v, l2);
                },
                None => return None,
            }
        },
        None => {},
    }
    match &s.hwid {
        Some(h) => {
            let mut l3 = "     HWID:     ".to_owned();
            let p = byte_prefix(h.as_str(), 16);
            l3.append(p.as_str());
            l3.append("...");
            push_line(&mut v, l3);
        },
        None => {},
    }
    Some(v)
}

/// The lines `sub list` prints for the saved subscriptions; `None` when a
/// time lies outside the calendar. Each HWID must cut at its sixteenth byte
/// on a character boundary, where the listing takes its first sixteen bytes.
pub fn subscription_list_lines(subs: &Vec<StoredSubscription>, detailed: bool) -> (r: Option<Vec<String>>)
    requires
        subs@.len() < usize::MAX,
        forall|i: int| 0 <= i < subs@.len() ==> spec_hwid_cuts(#[trigger] subs@[i]),
    ensures
        match r {
            Some(v) => spec_sub_list(subs@, detailed) == Some(views(v@)),
            None => spec_sub_list(subs@, detailed) is None,
        },
{
    let mut v: Vec<String> = Vec::new();
    push_line(&mut v, "Saved Subscriptions".to_owned());
    push_line(&mut v, rule(70));
    proof {
        assert(subs@.take(0) =~= Seq::<StoredSubscription>::empty());
        assert(views(v@) =~= seq!["Saved Subscriptions"@, spec_rule(70)]);
    }
    let n = subs.len();
    let mut i: usize = 0;
    while i < n
        invariant
            n == subs@.len(),
            n < usize::MAX,
            i <= n,
            forall|k: int| 0 <= k < subs@.len() ==> spec_hwid_cuts(#[trigger] subs@[k]),
            spec_sub_list(subs@.take(i as int), detailed) == Some(views(v@)),
        decreases n - i,
    {
        let entry = sub_entry(i, &subs[i], detailed);
        proof {
            let t = subs@.take(i + 1);
            assert(t.drop_last() =~= subs@.take(i as int));
            assert(t.last() == subs@[i as int]);
        }
        match entry {
            Some(e) => {
                let ghost before = views(v@);
                let mut j: usize = 0;
                while j < e.len()
                    invariant
                        j <= e@.len(),
                        views(v@) == before + views(e@).take(j as int),
                    decreases e@.len() - j,
                {
                    let line = e[j].clone();
                    push_line(&mut v, line);
                    j = j + 1;
                    proof {
                        assert(views(e@).take(j as int) =~= views(e@).take(j - 1).push(e@[j - 1]@));
                        assert(before + views(e@).take(j as int) =~= (before + views(e@).take(j - 1)).push(e@[j - 1]@));
                    }
                }
                proof {
                    assert(views(e@).take(e@.len() as int) =~= views(e@));
                }
            },
            None => {
                proof {
                    lemma_sub_list_none_stays(subs@, i as nat, detailed);
                }
                return None;
            },
        }
        i = i + 1;
    }
    proof {
        assert(subs@.take(n as int) =~= subs@);
    }
    Some(v)
}

/// Once a prefix of the list cannot be written, no longer prefix can.
proof fn lemma_sub_list_none_stays(subs: Seq<StoredSubscription>, i: nat, detailed: bool)
    requires
        i < subs.len(),
        spec_sub_entry(i, subs[i as int], detailed) is None,
    ensures
        spec_sub_list(subs, detailed) is None,
    decreases subs.len(),
{
    if i + 1 == subs.len() {
        assert(subs.last() == subs[i as int]);
    } else {
        let d = subs.drop_last();
        assert(d[i as int] == subs[i as int]);
        lemma_sub_list_none_stays(d, i, detailed);
    }
}

// ---------------------------------------------------------------------------
// The node table of a subscription
// ---------------------------------------------------------------------------

/// The rows of the node table, one per node.
pub open spec fn spec_table_rows(nodes: Seq<ProxyNode>) -> Seq<Seq<char>> {
    Seq::new(nodes.len(), |i: int| spec_table_row(i as nat, nodes[i]))
}

/// The node table of a subscription: a block with its URL, when it was
/// fetched, its traffic when known and the node count, then the column
/// header and one row per node; `None` when the fetch time lies outside the
/// calendar.
pub open spec fn spec_nodes_table(nodes: Seq<ProxyNode>, sub: Subscription) -> Option<Seq<Seq<char>>> {
    match spec_utc_format(sub.fetched_at, spec_seconds_pattern()) {
        None => None,
        Some(fetched) => {
            let head = seq![
                "IronPass Subscription"@,
                spec_rule(90),
                "  URL:        "@ + sub.url@,
                "  Fetched:    "@ + fetched,
            ];
            let used = match sub.traffic_used {
                Some(u) => seq!["  Traffic:    "@ + spec_byte_size_text(u, true) + " used"@],
                None => Seq::empty(),
            };
            let total = match sub.traffic_total {
                Some(t) => seq!["    Total:    "@ + spec_byte_size_text(t, true)],
                None => Seq::empty(),
            };
            let tail = seq![
                "  Nodes:      "@ + dec_digits(nodes.len()),
                spec_rule(90),
                Seq::<char>::empty(),
                spec_table_header(),
                spec_rule(90),
            ];
            Some(head + used + total + tail + spec_table_rows(nodes))
        },
    }
}

/// Whether a node's texts are short enough for the row arithmetic.
pub open spec fn spec_row_fits(node: ProxyNode) -> bool {
    &&& 2 * (node.name@.len() + 3) <= usize::MAX
    &&& 2 * (node.server@.len() + 6) <= usize::MAX
}

/// The lines the node table of a subscription prints; `None` when the
/// fetch time lies outside the calendar.
pub fn nodes_table_lines(nodes: &Vec<ProxyNode>, sub: &Subscription) -> (r: Option<Vec<String>>)
    requires
        nodes@.len() < usize::MAX,
        forall|i: int| 0 <= i < nodes@.len() ==> spec_row_fits(#[trigger] nodes@[i]),
    ensures
        match r {
            Some(v) => spec_nodes_table(nodes@, *sub) == Some(views(v@)),
            None => spec_nodes_table(nodes@, *sub) is None,
        },
{
    let fetched = match utc_format(sub.fetched_at, "%Y-%m-%d %H:%M:%S UTC") {
        Some(t) => t,
        None => return None,
    };
    let mut v: Vec<String> = Vec::new();
    push_line(&mut v, "IronPass Subscription".to_owned());
    push_line(&mut v, rule(90));
    let mut url = "  URL:        ".to_owned();
    url.append(sub.url.as_str());
    push_line(&mut v, url);
    let mut f = "  Fetched:    ".to_owned();
    f.append(fetched.as_str());
    push_line(&mut v, f);
    let ghost mut want: Seq<Seq<char>> = seq![
        "IronPass Subscription"@,
        spec_rule(90),
        "  URL:        "@ + sub.url@,
        "  Fetched:    "@ + fetched@,
    ];
    proof {
        assert(views(v@) =~= want);
    }
    match sub.traffic_used {
        Some(u) => {
            let mut l = "  Traffic:    ".to_owned();
            let t = byte_size_text(u, true);
            l.append(t.as_str());
            l.append(" used");
            push_line(&mut v, l);
            proof { want = want.push("  Traffic:    "@ + spec_byte_size_text(u, true) + " used"@); }
        },
        None => {},
    }
    match sub.traffic_total {
        Some(t) => {
            let mut l = "    Total:    ".to_owned();
            let x = byte_size_text(t, true);
            l.append(x.as_str());
            push_line(&mut v, l);
            proof { want = want.push("    Total:    "@ + spec_byte_size_text(t, true)); }
        },
        None => {},
    }
    let mut count = "  Nodes:      ".to_owned();
    push_decimal(&mut count, nodes.len() as u64);
    push_line(&mut v, count);
    push_line(&mut v, rule(90));
    push_line(&mut v, String::new());
    push_line(&mut v, table_header());
    push_line(&mut v, rule(90));
    proof {
        want = want + seq![
            "  Nodes:      "@ + dec_digits(nodes@.len()),
            spec_rule(90),
            Seq::<char>::empty(),
            spec_table_header(),
            spec_rule(90),
        ];
        assert(views(v@) =~= want);
    }
    let ghost before = want;
    let n = nodes.len();
    let mut i: usize = 0;
    while i < n
        invariant
            n == nodes@.len(),
            n < usize::MAX,
            i <= n,
            forall|k: int| 0 <= k < nodes@.len() ==> spec_row_fits(#[trigger] nodes@[k]),
            views(v@) == before + spec_table_rows(nodes@).take(i as int),
        decreases n - i,
    {
        proof {
            assert(spec_row_fits(nodes@[i as int]));
        }
        let row = table_row(i as u64, &nodes[i]);
        push_line(&mut v, row);
        i = i + 1;
        proof {
            assert(spec_table_rows(nodes@).take(i as int)
                =~= spec_table_rows(nodes@).take(i - 1).push(spec_table_row((i - 1) as nat, nodes@[i - 1])));
            assert(before + spec_table_rows(nodes@).take(i as int)
                =~= (before + spec_table_rows(nodes@).take(i - 1)).push(spec_table_row((i - 1) as nat, nodes@[i - 1])));
        }
    }
    proof {
        assert(spec_table_rows(nodes@).take(n as int) =~= spec_table_rows(nodes@));
    }
    Some(v)
}

} // verus!

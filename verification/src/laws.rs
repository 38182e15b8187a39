//! Properties that hold across the library's functions: round trips between
//! text forms and values, the backend choice, the core supervisor's restart
//! policy, the targets the proxy forwards, the saved-subscription store, the
//! analysis counts, the generated configurations' inbounds and routing, and
//! the table layout.

use vstd::prelude::*;
use vstd::string::*;
use crate::ascii::{ascii_lower, eq_ignore_ascii_case};
use crate::backend::{BackendType, CoreType, GeoAssetStatus, ProxyPorts, spec_generate, spec_resolve, spec_supports_singbox};
use crate::models::Transport;
use crate::core_process::{
    BASE_BACKOFF_MS, ExitDecision, MAX_RESTART_ATTEMPTS, pow2, spec_backoff_ms, spec_exit_decision,
    spec_restarts_after_exit, spec_run_decisions,
};
use crate::models::ProxyNode;
use crate::net::{authority_port, last_index_of, lemma_last_index_of, spec_parse_authority};
use crate::num::{all_digits, digit_value, digits_value, is_digit, spec_parse_unsigned, unsigned_digits};
use crate::split_tunnel::{
    SplitTunnelAction, SplitTunnelRule, SplitTunnelTarget, spec_action_text, spec_parse_action,
    spec_parse_target, spec_target_text,
};
use crate::text::{dec_digits, digit_char, is_whitespace, spec_words};
use crate::config::{StoredSubscription, spec_has_url, spec_named_by};
use crate::output::{
    spaces, spec_char_width, spec_cut, spec_display_width, spec_is_wide, spec_pad_to_width, spec_room,
    spec_truncate_to_width,
};
use crate::transport::spec_grpc_payload;
use crate::trojan::{spec_connect_request, spec_grpc_frame, TrojanClient};
use crate::wire::{be16, be32, spec_target_address};
use crate::net::{ipv4_field_ok, spec_ipv4_text, spec_parse_ipv4};
use crate::socks5::{be_u16, spec_parse_connect, CMD_CONNECT, SOCKS5_VERSION};
use crate::split::{lemma_split_join, lemma_split_no_sep, split_on};
use crate::digest::{lemma_hex_lower_concat, lemma_hex_round_trip, spec_hex_lower};
use crate::uuid::{be_bytes, lemma_be_bytes_len, lemma_hex_lower_len, spec_uuid_text};
use crate::vless::spec_parse_uuid;
use crate::analysis::{spec_has_name, spec_tally, spec_tally_add};
use crate::xray::{
    opt_or, spec_block_outbound, spec_direct_outbound, spec_inbounds, spec_outbound, spec_ports, spec_proxy_outbound,
    spec_routing_rule, spec_rule_values, spec_vless_settings, spec_vless_user, spec_with_stream, spec_xray_config,
    InboundPorts,
};
use crate::json::{jat, jget, jhas, opt_str_entry, JsonV};
use crate::models::{OutputFormat, Protocol, Security};
use crate::cli::{spec_export_format, ExportTarget};

verus! {

/// Every split-tunnel target and action reads back from its stored text as
/// itself.
pub proof fn law_split_tunnel_text_round_trip(t: SplitTunnelTarget, a: SplitTunnelAction)
    ensures
        spec_parse_target(spec_target_text(t)) == t,
        spec_parse_action(spec_action_text(a)) == a,
{
    reveal_strlit("domain");
    reveal_strlit("ip");
    reveal_strlit("cidr");
    reveal_strlit("app");
    reveal_strlit("direct");
    reveal_strlit("proxy");
    assert("domain"@ =~= seq!['d', 'o', 'm', 'a', 'i', 'n']);
    assert("ip"@ =~= seq!['i', 'p']);
    assert("cidr"@ =~= seq!['c', 'i', 'd', 'r']);
    assert("app"@ =~= seq!['a', 'p', 'p']);
    assert("direct"@ =~= seq!['d', 'i', 'r', 'e', 'c', 't']);
    assert("proxy"@ =~= seq!['p', 'r', 'o', 'x', 'y']);
}

/// Every backend type but sing-box parses back from its display name; the
/// display name of sing-box, `sing_box`, is not one the parser accepts.
pub proof fn law_backend_name_round_trip(t: BackendType)
    requires
        t != BackendType::SingBox,
    ensures
        BackendType::spec_from_str(t.spec_as_str()) == Some(t),
{
    reveal_strlit("auto");
    reveal_strlit("sing-box");
    reveal_strlit("xray");
    reveal_strlit("singbox");
    reveal_strlit("sb");
    reveal_strlit("xray-core");
    assert("auto"@ =~= seq!['a', 'u', 't', 'o']);
    assert("sing-box"@ =~= seq!['s', 'i', 'n', 'g', '-', 'b', 'o', 'x']);
    assert("xray"@ =~= seq!['x', 'r', 'a', 'y']);
    assert(eq_ignore_ascii_case(t.spec_as_str(), t.spec_as_str()));
}

/// An explicit backend choice is always honoured, and `Auto` picks
/// Xray-core exactly for the XHTTP and SplitHTTP nodes.
pub proof fn law_backend_choice(node: ProxyNode)
    ensures
        spec_resolve(BackendType::SingBox, node) == CoreType::SingBox,
        spec_resolve(BackendType::Xray, node) == CoreType::Xray,
        (spec_resolve(BackendType::Auto, node) == CoreType::Xray)
            == (node.transport == Transport::Xhttp || node.transport == Transport::Splithttp),
{
}

/// A node that the sing-box backend supports gets a sing-box
/// configuration, whatever the ports, rules and geo assets.
pub proof fn law_singbox_supported_nodes_generate(
    node: ProxyNode,
    geo: GeoAssetStatus,
    ports: ProxyPorts,
    rules: Seq<SplitTunnelRule>,
)
    ensures
        spec_supports_singbox(node) <==> spec_generate(CoreType::SingBox, geo, node, ports, rules) is Ok,
{
}

/// The supervisor waits one second before the first restart and twice as
/// long before each later one.
pub proof fn law_backoff_doubles(attempt: nat)
    requires
        attempt >= 1,
    ensures
        spec_backoff_ms(1) == BASE_BACKOFF_MS as nat,
        spec_backoff_ms(attempt + 1) == 2 * spec_backoff_ms(attempt),
{
    assert(pow2(0) == 1);
    assert(pow2(attempt) == 2 * pow2((attempt - 1) as nat));
    assert((BASE_BACKOFF_MS as nat) * (2 * pow2((attempt - 1) as nat))
        == 2 * ((BASE_BACKOFF_MS as nat) * pow2((attempt - 1) as nat))) by (nonlinear_arith);
}

// ---------------------------------------------------------------------------
// Decimal text
// ---------------------------------------------------------------------------

/// The decisions of a whole supervised run: five restarts, after 1, 2, 4, 8
/// and 16 seconds, then giving up.
pub open spec fn spec_full_run() -> Seq<ExitDecision> {
    seq![
        ExitDecision::Restart { attempt: 1, backoff_ms: 1000 },
        ExitDecision::Restart { attempt: 2, backoff_ms: 2000 },
        ExitDecision::Restart { attempt: 3, backoff_ms: 4000 },
        ExitDecision::Restart { attempt: 4, backoff_ms: 8000 },
        ExitDecision::Restart { attempt: 5, backoff_ms: 16000 },
        ExitDecision::GiveUp,
    ]
}

/// What a supervised run decides, exit after exit, from a fresh start when
/// every restart brings the core back up: five restarts, after 1, 2, 4, 8
/// and 16 seconds, and on the sixth exit it gives up; later exits are not
/// seen.
pub proof fn law_supervised_run(exits: nat)
    ensures
        spec_run_decisions(0, exits) == spec_full_run().take(if exits < 6 { exits as int } else { 6 }),
{
    lemma_run_from(0, exits);
    assert(spec_full_run().subrange(0, 6) =~= spec_full_run());
}

/// From `k` restarts on, a run decides the rest of the full run.
proof fn lemma_run_from(k: nat, exits: nat)
    requires
        k <= 5,
    ensures
        spec_run_decisions(k, exits) == spec_full_run().subrange(k as int, 6).take(
            if exits < 6 - k { exits as int } else { 6 - k },
        ),
    decreases 5 - k, exits,
{
    let full = spec_full_run();
    let n: int = if exits < 6 - k { exits as int } else { 6 - k };
    if exits == 0 {
        assert(full.subrange(k as int, 6).take(0) =~= Seq::<ExitDecision>::empty());
    } else if k == 5 {
        assert(spec_exit_decision(5) == ExitDecision::GiveUp);
        assert(full.subrange(5, 6).take(1) =~= seq![ExitDecision::GiveUp]);
    } else {
        reveal_with_fuel(pow2, 5);
        assert(spec_backoff_ms(k + 1) == 1000 * pow2(k));
        assert(spec_exit_decision(k) == full[k as int]) by {
            if k == 0 {} else if k == 1 {} else if k == 2 {} else if k == 3 {} else {}
        }
        assert(spec_restarts_after_exit(k) == k + 1);
        lemma_run_from(k + 1, (exits - 1) as nat);
        assert(full.subrange(k as int, 6).take(n)
            =~= seq![full[k as int]] + full.subrange((k + 1) as int, 6).take(n - 1));
    }
}

/// A Trojan request is the 56-byte credential, CRLF, the command, the
/// target address, the port and CRLF; its gRPC message adds five bytes.
pub proof fn law_trojan_request_length(c: TrojanClient, host: Seq<char>, port: u16)
    requires
        c.wf(),
    ensures
        spec_connect_request(c.spec_hash(), host, port).len() == 63 + spec_target_address(host).len(),
        spec_grpc_frame(spec_connect_request(c.spec_hash(), host, port)).len()
            == spec_connect_request(c.spec_hash(), host, port).len() + 5,
{
    vstd::utf8::is_ascii_chars_encode_utf8(c.spec_hash());
}

/// The decimal text of a number is a non-empty run of digits that denotes
/// the number.
pub proof fn lemma_dec_digits_value(n: nat)
    ensures
        dec_digits(n).len() > 0,
        all_digits(dec_digits(n)),
        digits_value(dec_digits(n)) == n,
        dec_digits(n)[0] != '+',
    decreases n,
{
    if n < 10 {
        assert(digit_value(digit_char(n as int)) == n);
        assert(dec_digits(n).drop_last() =~= Seq::<char>::empty());
        assert(digits_value(Seq::<char>::empty()) == 0);
    } else {
        lemma_dec_digits_value(n / 10);
        let d = dec_digits(n);
        assert(d.drop_last() =~= dec_digits(n / 10));
        assert(digit_value(digit_char((n % 10) as int)) == n % 10);
        assert(d.last() == digit_char((n % 10) as int));
        assert(digits_value(d) == digits_value(d.drop_last()) * 10 + digit_value(d.last()));
        assert((n / 10) * 10 + n % 10 == n);
        assert forall|i: int| 0 <= i < d.len() implies is_digit(#[trigger] d[i]) by {
            if i < d.len() - 1 {
                assert(d[i] == dec_digits(n / 10)[i]);
            }
        }
        assert(d[0] == dec_digits(n / 10)[0]);
    }
}

/// A port's decimal text parses back as the port.
pub proof fn lemma_port_text_parses(p: u16)
    ensures
        spec_parse_unsigned(dec_digits(p as nat), 65535) == Some(p as nat),
{
    lemma_dec_digits_value(p as nat);
    assert(unsigned_digits(dec_digits(p as nat)) == dec_digits(p as nat));
}

/// `host:port` splits back into the host and the port, for a host without
/// `:` that does not start with `[`.
pub proof fn law_authority_round_trip(host: Seq<char>, port: u16)
    requires
        forall|i: int| 0 <= i < host.len() ==> host[i] != ':',
        host.len() == 0 || host[0] != '[',
    ensures
        spec_parse_authority(host + ":"@ + dec_digits(port as nat)) == Ok::<(Seq<char>, u16), Seq<char>>((host, port)),
{
    reveal_strlit(":");
    let d = dec_digits(port as nat);
    let s = host + ":"@ + d;
    lemma_dec_digits_value(port as nat);
    lemma_port_text_parses(port);
    lemma_last_index_of(s, ':');
    assert(s[host.len() as int] == ':');
    assert forall|j: int| host.len() < j < s.len() implies s[j] != ':' by {
        assert(s[j] == d[j - host.len() - 1]);
        assert(is_digit(d[j - host.len() - 1]));
    }
    assert(last_index_of(s, ':') == Some(host.len() as int));
    assert(s.subrange(host.len() as int + 1, s.len() as int) =~= d);
    assert(s.subrange(0, host.len() as int) =~= host);
    if host.len() == 0 {
        assert(s[0] == ':');
    } else {
        assert(s[0] == host[0]);
    }
}

/// `[inner]:port` splits back into the bracketed host and the port, for an
/// IPv6 literal `inner` without `]`.
pub proof fn law_bracketed_authority_round_trip(inner: Seq<char>, port: u16)
    requires
        forall|i: int| 0 <= i < inner.len() ==> inner[i] != ']',
    ensures
        spec_parse_authority("["@ + inner + "]"@ + ":"@ + dec_digits(port as nat))
            == Ok::<(Seq<char>, u16), Seq<char>>(("["@ + inner + "]"@, port)),
{
    reveal_strlit(":");
    reveal_strlit("[");
    reveal_strlit("]");
    let d = dec_digits(port as nat);
    let host = "["@ + inner + "]"@;
    let s = host + ":"@ + d;
    lemma_dec_digits_value(port as nat);
    lemma_port_text_parses(port);
    lemma_last_index_of(s, ':');
    lemma_last_index_of(s, ']');
    let hl = host.len() as int;
    assert(s[hl] == ':');
    assert forall|j: int| hl < j < s.len() implies s[j] != ':' && s[j] != ']' by {
        assert(s[j] == d[j - hl - 1]);
        assert(is_digit(d[j - hl - 1]));
    }
    assert(s[hl - 1] == ']');
    assert(last_index_of(s, ':') == Some(hl));
    assert(last_index_of(s, ']') == Some(hl - 1));
    assert(s[0] == '[');
    assert(s.subrange(hl + 1, s.len() as int) =~= d);
    assert(s.subrange(0, hl) =~= host);
}


// ---------------------------------------------------------------------------
// Forwarded targets
// ---------------------------------------------------------------------------

/// The decimal text of a byte is a dotted-quad field that denotes the byte.
pub proof fn lemma_byte_text_is_field(n: nat)
    requires
        n <= 255,
    ensures
        ipv4_field_ok(dec_digits(n)),
        digits_value(dec_digits(n)) == n,
        forall|i: int| 0 <= i < dec_digits(n).len() ==> dec_digits(n)[i] != '.',
{
    lemma_dec_digits_value(n);
    let d = dec_digits(n);
    if n >= 10 {
        let a = n / 10;
        assert(d[0] == dec_digits(a)[0]);
        if a < 10 {
            assert(dec_digits(a) == seq![digit_char(a as int)]);
            assert(d.len() == 2);
        } else {
            let b = a / 10;
            assert(b < 10);
            assert(dec_digits(a)[0] == dec_digits(b)[0]);
            assert(dec_digits(b) == seq![digit_char(b as int)]);
            assert(d.len() == 3);
        }
        assert(d[0] != '0');
    }
    assert forall|i: int| 0 <= i < d.len() implies d[i] != '.' by {
        assert(is_digit(d[i]));
    }
}

/// The dotted-quad text of four octets reads back as the same octets.
pub proof fn lemma_ipv4_text_parses(o: Seq<u8>)
    requires
        o.len() == 4,
    ensures
        spec_parse_ipv4(spec_ipv4_text(o)) == Some(o),
{
    reveal_strlit(".");
    let dot = seq!['.'];
    assert("."@ =~= dot);
    let d0 = dec_digits(o[0] as nat);
    let d1 = dec_digits(o[1] as nat);
    let d2 = dec_digits(o[2] as nat);
    let d3 = dec_digits(o[3] as nat);
    lemma_byte_text_is_field(o[0] as nat);
    lemma_byte_text_is_field(o[1] as nat);
    lemma_byte_text_is_field(o[2] as nat);
    lemma_byte_text_is_field(o[3] as nat);
    let a1 = d0 + dot + d1;
    let a2 = a1 + dot + d2;
    let t = a2 + dot + d3;
    assert(spec_ipv4_text(o) =~= t);
    lemma_split_join(a2, d3, '.');
    lemma_split_join(a1, d2, '.');
    lemma_split_join(d0, d1, '.');
    lemma_split_no_sep(d0, '.');
    lemma_split_no_sep(d1, '.');
    lemma_split_no_sep(d2, '.');
    lemma_split_no_sep(d3, '.');
    assert(split_on(t, '.') =~= seq![d0, d1, d2, d3]);
    assert(seq![
        digits_value(d0) as u8,
        digits_value(d1) as u8,
        digits_value(d2) as u8,
        digits_value(d3) as u8,
    ] =~= o);
}

/// A SOCKS5 `CONNECT` to an IPv4 address is read as that address and port,
/// and the address is written to the upstream request header as the same
/// four octets: the proxy forwards the target the client asked for.
pub proof fn law_socks5_ipv4_target_forwarded(o: Seq<u8>, port: u16)
    requires
        o.len() == 4,
    ensures
        spec_parse_connect(seq![SOCKS5_VERSION, CMD_CONNECT, 0u8, crate::socks5::ATYP_IPV4] + o + be16(port))
            == Ok::<(Seq<char>, u16), Seq<char>>((spec_ipv4_text(o), port)),
        spec_target_address(spec_ipv4_text(o)) == seq![crate::wire::ATYP_IPV4] + o,
{
    let req = seq![SOCKS5_VERSION, CMD_CONNECT, 0u8, crate::socks5::ATYP_IPV4] + o + be16(port);
    assert(req.subrange(4, 8) =~= o);
    assert(req[8] == (port / 256) as u8 && req[9] == (port % 256) as u8);
    assert(be_u16(req[8], req[9]) == port);
    lemma_ipv4_text_parses(o);
}

/// The hyphenated text of an identifier reads back, as a VLESS user id, as
/// the identifier's sixteen bytes.
pub proof fn law_uuid_text_parses(id: u128)
    ensures
        spec_parse_uuid(spec_uuid_text(id)) == Some(be_bytes(id as nat, 16)),
{
    reveal_strlit("-");
    let dash = seq!['-'];
    assert("-"@ =~= dash);
    let b = be_bytes(id as nat, 16);
    lemma_be_bytes_len(id as nat, 16);
    let b0 = b.subrange(0, 4);
    let b1 = b.subrange(4, 6);
    let b2 = b.subrange(6, 8);
    let b3 = b.subrange(8, 10);
    let b4 = b.subrange(10, 16);
    assert(b =~= b0 + b1 + b2 + b3 + b4);
    lemma_hex_lower_concat(b0, b1);
    lemma_hex_lower_concat(b0 + b1, b2);
    lemma_hex_lower_concat(b0 + b1 + b2, b3);
    lemma_hex_lower_concat(b0 + b1 + b2 + b3, b4);
    let h0 = spec_hex_lower(b0);
    let h1 = spec_hex_lower(b1);
    let h2 = spec_hex_lower(b2);
    let h3 = spec_hex_lower(b3);
    let h4 = spec_hex_lower(b4);
    lemma_hex_lower_len(b0);
    lemma_hex_lower_len(b1);
    lemma_hex_lower_len(b2);
    lemma_hex_lower_len(b3);
    lemma_hex_lower_len(b4);
    let h = spec_hex_lower(b);
    assert(h =~= h0 + h1 + h2 + h3 + h4);
    assert(h.subrange(0, 8) =~= h0);
    assert(h.subrange(8, 12) =~= h1);
    assert(h.subrange(12, 16) =~= h2);
    assert(h.subrange(16, 20) =~= h3);
    assert(h.subrange(20, 32) =~= h4);
    lemma_hex_round_trip(b0);
    lemma_hex_round_trip(b1);
    lemma_hex_round_trip(b2);
    lemma_hex_round_trip(b3);
    lemma_hex_round_trip(b4);
    let a1 = h0 + dash + h1;
    let a2 = a1 + dash + h2;
    let a3 = a2 + dash + h3;
    let t = a3 + dash + h4;
    assert(spec_uuid_text(id) =~= t);
    lemma_split_join(a3, h4, '-');
    lemma_split_join(a2, h3, '-');
    lemma_split_join(a1, h2, '-');
    lemma_split_join(h0, h1, '-');
    lemma_split_no_sep(h0, '-');
    lemma_split_no_sep(h1, '-');
    lemma_split_no_sep(h2, '-');
    lemma_split_no_sep(h3, '-');
    lemma_split_no_sep(h4, '-');
    assert(split_on(t, '-') =~= seq![h0, h1, h2, h3, h4]);
}

// ---------------------------------------------------------------------------
// Counting nodes by kind
// ---------------------------------------------------------------------------

/// How often `x` occurs in `s`.
pub open spec fn occurrences(s: Seq<Seq<char>>, x: Seq<char>) -> nat
    decreases s.len(),
{
    if s.len() == 0 {
        0
    } else {
        occurrences(s.drop_last(), x) + if s.last() == x { 1nat } else { 0nat }
    }
}

proof fn lemma_absent_occurs_never(s: Seq<Seq<char>>, x: Seq<char>)
    requires
        forall|i: int| 0 <= i < s.len() ==> s[i] != x,
    ensures
        occurrences(s, x) == 0,
    decreases s.len(),
{
    if s.len() > 0 {
        lemma_absent_occurs_never(s.drop_last(), x);
    }
}

/// The analysis tally lists every name once, and counts each name as often
/// as it occurs.
pub proof fn law_tally_counts(names: Seq<Seq<char>>)
    ensures
        forall|a: int, b: int| 0 <= a < b < spec_tally(names).len()
            ==> (#[trigger] spec_tally(names)[a]).0 != (#[trigger] spec_tally(names)[b]).0,
        forall|k: int| 0 <= k < spec_tally(names).len()
            ==> (#[trigger] spec_tally(names)[k]).1 == occurrences(names, spec_tally(names)[k].0),
        forall|i: int| 0 <= i < names.len() ==> spec_has_name(spec_tally(names), #[trigger] names[i]),
    decreases names.len(),
{
    if names.len() > 0 {
        let d = names.drop_last();
        let y = names.last();
        law_tally_counts(d);
        let p = spec_tally(d);
        let t = spec_tally(names);
        assert(t == spec_tally_add(p, y));
        if spec_has_name(p, y) {
            assert(t.len() == p.len());
            assert forall|k: int| 0 <= k < t.len() implies (#[trigger] t[k]).0 == p[k].0 by {}
            assert forall|k: int| 0 <= k < t.len() implies (#[trigger] t[k]).1 == occurrences(names, t[k].0) by {
                assert(occurrences(names, p[k].0) == occurrences(d, p[k].0) + if y == p[k].0 { 1nat } else { 0nat });
            }
            assert forall|i: int| 0 <= i < names.len() implies spec_has_name(t, #[trigger] names[i]) by {
                if i < d.len() {
                    assert(names[i] == d[i]);
                    assert(spec_has_name(p, d[i]));
                    let j = choose|j: int| 0 <= j < p.len() && (#[trigger] p[j]).0 == d[i];
                    assert(t[j].0 == names[i]);
                } else {
                    let j = choose|j: int| 0 <= j < p.len() && (#[trigger] p[j]).0 == y;
                    assert(t[j].0 == names[i]);
                }
            }
        } else {
            assert forall|i: int| 0 <= i < d.len() implies d[i] != y by {
                if d[i] == y {
                    assert(spec_has_name(p, d[i]));
                }
            }
            lemma_absent_occurs_never(d, y);
            assert forall|k: int| 0 <= k < t.len() implies (#[trigger] t[k]).1 == occurrences(names, t[k].0) by {
                if k < p.len() {
                    assert(t[k] == p[k]);
                    assert(p[k].0 != y);
                }
            }
            assert forall|i: int| 0 <= i < names.len() implies spec_has_name(t, #[trigger] names[i]) by {
                if i < d.len() {
                    assert(names[i] == d[i]);
                    assert(spec_has_name(p, d[i]));
                    let j = choose|j: int| 0 <= j < p.len() && (#[trigger] p[j]).0 == d[i];
                    assert(t[j].0 == names[i]);
                } else {
                    assert(t[p.len() as int].0 == y);
                }
            }
            assert forall|a: int, b: int| 0 <= a < b < t.len() implies (#[trigger] t[a]).0 != (#[trigger] t[b]).0 by {
                if b == p.len() {
                    assert(t[a] == p[a]);
                }
            }
        }
    }
}

// ---------------------------------------------------------------------------
// gRPC framing
// ---------------------------------------------------------------------------

/// A message framed for gRPC is read back from the frame unchanged.
pub proof fn law_grpc_frame_round_trip(payload: Seq<u8>)
    requires
        payload.len() < 0x1_0000_0000,
    ensures
        spec_grpc_payload(spec_grpc_frame(payload)) == Some(payload),
{
    let v = (payload.len() % 0x1_0000_0000) as u32;
    let f = spec_grpc_frame(payload);
    let b = be32(v);
    assert(((v / 0x100_0000) as u8) as u32 * 0x100_0000 + (((v / 0x1_0000) % 256) as u8) as u32 * 0x1_0000
        + (((v / 256) % 256) as u8) as u32 * 256 + ((v % 256) as u8) as u32 == v) by (bit_vector);
    assert(f[1] == b[0] && f[2] == b[1] && f[3] == b[2] && f[4] == b[3]);
    assert(v as int == payload.len());
    assert(f.subrange(5, 5 + payload.len() as int) =~= payload);
}

// ---------------------------------------------------------------------------
// Saved subscriptions
// ---------------------------------------------------------------------------

/// A subscription that was saved is found under its URL.
pub proof fn law_saved_subscription_is_found(saved: Seq<StoredSubscription>, added: StoredSubscription)
    ensures
        spec_has_url(saved.push(added), added.url@),
{
    assert(saved.push(added)[saved.len() as int] == added);
}

/// Whether some saved subscription is named by `target`, by URL or name.
pub open spec fn spec_any_named(s: Seq<StoredSubscription>, target: Seq<char>) -> bool {
    exists|i: int| 0 <= i < s.len() && spec_named_by(#[trigger] s[i], target)
}

/// Removing a target keeps every subscription that the target names
/// neither by URL nor by name.
pub proof fn law_remove_keeps_others(saved: Seq<StoredSubscription>, target: Seq<char>, other: Seq<char>)
    requires
        exists|i: int| 0 <= i < saved.len() && (#[trigger] saved[i]).url@ == other && !spec_named_by(saved[i], target),
    ensures
        spec_has_url(saved.filter(|s: StoredSubscription| !spec_named_by(s, target)), other),
{
    let i = choose|i: int| 0 <= i < saved.len() && (#[trigger] saved[i]).url@ == other && !spec_named_by(saved[i], target);
    let pred = |s: StoredSubscription| !spec_named_by(s, target);
    saved.lemma_filter_contains(pred, i);
    let f = saved.filter(pred);
    assert(f.contains(saved[i]));
    let k = choose|k: int| 0 <= k < f.len() && f[k] == saved[i];
    assert(f[k].url@ == other);
}

proof fn lemma_filter_keeps_all(s: Seq<StoredSubscription>, target: Seq<char>)
    requires
        !spec_any_named(s, target),
    ensures
        s.filter(|x: StoredSubscription| !spec_named_by(x, target)) == s,
    decreases s.len(),
{
    reveal_with_fuel(Seq::filter, 1);
    if s.len() > 0 {
        let d = s.drop_last();
        assert(!spec_any_named(d, target)) by {
            if spec_any_named(d, target) {
                let i = choose|i: int| 0 <= i < d.len() && spec_named_by(#[trigger] d[i], target);
                assert(s[i] == d[i]);
            }
        }
        lemma_filter_keeps_all(d, target);
        assert(!spec_named_by(s.last(), target)) by {
            assert(s[s.len() - 1] == s.last());
        }
        assert(d.push(s.last()) =~= s);
    } else {
        assert(s.filter(|x: StoredSubscription| !spec_named_by(x, target)) =~= s);
    }
}

/// Saving a subscription under a URL that names no saved subscription, by
/// URL or by name, and then removing that URL gives back the subscriptions
/// saved before.
pub proof fn law_add_then_remove_restores(saved: Seq<StoredSubscription>, added: StoredSubscription)
    requires
        !spec_any_named(saved, added.url@),
    ensures
        saved.push(added).filter(|s: StoredSubscription| !spec_named_by(s, added.url@)) == saved,
{
    reveal_with_fuel(Seq::filter, 1);
    let t = added.url@;
    let pred = |s: StoredSubscription| !spec_named_by(s, added.url@);
    assert(pred =~= (|x: StoredSubscription| !spec_named_by(x, t)));
    lemma_filter_keeps_all(saved, t);
    let pushed = saved.push(added);
    assert(pushed.drop_last() =~= saved);
    assert(pushed.last() == added);
    assert(!pred(added));
    assert(pushed.filter(pred) == pushed.drop_last().filter(pred));
}

// ---------------------------------------------------------------------------
// Generated configurations
// ---------------------------------------------------------------------------

/// The Xray configuration always has an inbound, one per exposed port: a
/// mixed port alone, or the SOCKS and HTTP ports that were asked for.
pub proof fn law_xray_inbounds_match_ports(ports: InboundPorts)
    ensures
        spec_inbounds(ports).len() >= 1,
        spec_ports(ports).2 is Some <==> (spec_ports(ports).0 is None && spec_ports(ports).1 is None),
        spec_inbounds(ports).len() == (if spec_ports(ports).2 is Some { 1int } else {
            (if spec_ports(ports).0 is Some { 1int } else { 0int }) + (if spec_ports(ports).1 is Some { 1int } else { 0int })
        }),
{
}

/// Split-tunnel rules that Xray can express: every rule but an application
/// rule.
pub open spec fn xray_expressible(r: SplitTunnelRule) -> bool {
    r.target != SplitTunnelTarget::App
}

/// Every split-tunnel rule except the application rules becomes one Xray
/// routing rule, in order.
pub proof fn law_xray_rule_per_expressible_rule(rules: Seq<SplitTunnelRule>)
    ensures
        spec_rule_values(rules).len() == rules.filter(|r: SplitTunnelRule| xray_expressible(r)).len(),
    decreases rules.len(),
{
    reveal_with_fuel(Seq::filter, 1);
    if rules.len() > 0 {
        law_xray_rule_per_expressible_rule(rules.drop_last());
        assert(rules.drop_last() =~= rules.subrange(0, rules.len() - 1));
    }
}

// ---------------------------------------------------------------------------
// Table layout
// ---------------------------------------------------------------------------

pub proof fn lemma_width_concat(a: Seq<char>, b: Seq<char>)
    ensures
        spec_display_width(a + b) == spec_display_width(a) + spec_display_width(b),
    decreases b.len(),
{
    if b.len() > 0 {
        lemma_width_concat(a, b.drop_last());
        assert((a + b).drop_last() =~= a + b.drop_last());
    } else {
        assert(a + b =~= a);
    }
}

pub proof fn lemma_spaces_width(n: nat)
    ensures
        spec_display_width(spaces(n)) == n,
    decreases n,
{
    if n > 0 {
        lemma_spaces_width((n - 1) as nat);
        assert(spaces(n).drop_last() =~= spaces((n - 1) as nat));
        assert(!spec_is_wide(' '));
    }
}

pub proof fn lemma_ellipsis_width()
    ensures
        spec_display_width("..."@) == 3,
{
    reveal_strlit("...");
    let e0 = Seq::<char>::empty();
    let e1 = seq!['.'];
    let e2 = seq!['.', '.'];
    let e3 = seq!['.', '.', '.'];
    assert(!spec_is_wide('.'));
    assert(spec_display_width(e0) == 0);
    assert(e1.drop_last() =~= e0);
    assert(spec_display_width(e1) == 1);
    assert(e2.drop_last() =~= e1);
    assert(spec_display_width(e2) == 2);
    assert(e3.drop_last() =~= e2);
    assert(spec_display_width(e3) == 3);
    assert("..."@ =~= e3);
}

pub proof fn lemma_cut_width(s: Seq<char>, room: nat, used: nat)
    requires
        used <= room,
    ensures
        used + spec_display_width(spec_cut(s, room, used)) <= room + 3,
    decreases s.len(),
{
    if s.len() == 0 {
        assert(spec_display_width(Seq::<char>::empty()) == 0);
    } else if used + spec_char_width(s[0]) > room {
        lemma_ellipsis_width();
    } else {
        let w = spec_char_width(s[0]);
        lemma_cut_width(s.drop_first(), room, used + w);
        lemma_width_concat(seq![s[0]], spec_cut(s.drop_first(), room, used + w));
        assert(seq![s[0]].drop_last() =~= Seq::<char>::empty());
        assert(spec_display_width(Seq::<char>::empty()) == 0);
        assert(spec_display_width(seq![s[0]]) == w);
    }
}

/// A text cut to a column count of three or more never takes more columns.
pub proof fn law_truncate_fits(s: Seq<char>, max: nat)
    requires
        max >= 3,
    ensures
        spec_display_width(spec_truncate_to_width(s, max)) <= max,
{
    lemma_cut_width(s, spec_room(max), 0);
}

/// Padding fills a narrower text to exactly the target columns, and never
/// goes past a target of three or more.
pub proof fn law_pad_width(s: Seq<char>, target: nat)
    ensures
        spec_display_width(s) < target ==> spec_display_width(spec_pad_to_width(s, target)) == target,
        target >= 3 ==> spec_display_width(spec_pad_to_width(s, target)) <= target,
{
    if spec_display_width(s) < target {
        let n = (target - spec_display_width(s)) as nat;
        lemma_width_concat(s, spaces(n));
        lemma_spaces_width(n);
    } else if target >= 3 {
        law_truncate_fits(s, target);
    }
}

// ---------------------------------------------------------------------------
// Words of a request line
// ---------------------------------------------------------------------------

/// The words of a text are non-empty and hold no whitespace.
pub proof fn law_words_are_nonblank(s: Seq<char>)
    ensures
        forall|i: int| 0 <= i < spec_words(s).len() ==> #[trigger] spec_words(s)[i].len() > 0,
        forall|i: int, j: int| 0 <= i < spec_words(s).len() && 0 <= j < spec_words(s)[i].len()
            ==> !is_whitespace(#[trigger] spec_words(s)[i][j]),
    decreases s.len(),
{
    if s.len() > 0 {
        law_words_are_nonblank(s.drop_last());
        let w = spec_words(s.drop_last());
        let c = s.last();
        if !is_whitespace(c) {
            if s.len() >= 2 && !is_whitespace(s[s.len() - 2]) && w.len() > 0 {
                let r = spec_words(s);
                assert forall|i: int, j: int| 0 <= i < r.len() && 0 <= j < r[i].len() implies !is_whitespace(#[trigger] r[i][j]) by {
                    if i == r.len() - 1 && j == r[i].len() - 1 {
                        assert(r[i][j] == c);
                    } else if i == r.len() - 1 {
                        assert(r[i][j] == w[i][j]);
                    } else {
                        assert(r[i] == w[i]);
                    }
                }
            } else {
                let r = spec_words(s);
                assert forall|i: int, j: int| 0 <= i < r.len() && 0 <= j < r[i].len() implies !is_whitespace(#[trigger] r[i][j]) by {
                    if i == r.len() - 1 {
                        assert(r[i] == seq![c]);
                    } else {
                        assert(r[i] == w[i]);
                    }
                }
            }
        }
    }
}

// ---------------------------------------------------------------------------
// What the generated configurations carry of the node
// ---------------------------------------------------------------------------

/// The proxy outbound of a configuration document: the first outbound.
pub open spec fn proxy_outbound_of(cfg: JsonV) -> JsonV {
    jat(jget(cfg, "outbounds"@), 0)
}

/// The user of the first server of an Xray VLESS outbound.
pub open spec fn xray_vless_user_of(cfg: JsonV) -> JsonV {
    jat(jget(jat(jget(jget(proxy_outbound_of(cfg), "settings"@), "vnext"@), 0), "users"@), 0)
}

/// `j` maps `key` to the string in `value`, or has no `key` when there is
/// none.
pub open spec fn carries_opt_str(j: JsonV, key: Seq<char>, value: Option<String>) -> bool {
    match value {
        Some(v) => jget(j, key) == JsonV::Str(v@),
        None => !jhas(j, key),
    }
}

/// The Xray configuration of a VLESS node with a UUID always exists, and
/// its proxy outbound's user carries the node's credentials: the UUID as
/// `id`, the node's encryption (`none` when it has none), and its flow and
/// uTLS fingerprint when it has them (none of them otherwise).
pub proof fn law_xray_vless_user_carries_node(
    node: ProxyNode,
    ports: InboundPorts,
    rules: Seq<SplitTunnelRule>,
    geo: GeoAssetStatus,
)
    requires
        node.protocol == Protocol::Vless,
        node.uuid is Some,
    ensures
        spec_xray_config(node, ports, rules, geo) is Ok,
        ({
            let user = xray_vless_user_of(spec_xray_config(node, ports, rules, geo)->Ok_0);
            &&& jget(user, "id"@) == JsonV::Str(node.uuid->0@)
            &&& jget(user, "encryption"@) == JsonV::Str(match node.encryption {
                Some(e) => e@,
                None => "none"@,
            })
            &&& carries_opt_str(user, "flow"@, node.flow)
            &&& carries_opt_str(user, "fingerprint"@, node.fingerprint)
        }),
{
    lemma_config_words();
    let u = node.uuid->0@;
    let o = spec_proxy_outbound("vless"@, spec_vless_settings(node, u), node);
    assert(spec_outbound(node) == Ok::<JsonV, Seq<char>>(o));
    let cfg = spec_xray_config(node, ports, rules, geo)->Ok_0;
    assert(cfg == crate::xray::spec_root(o, ports, rules, geo));
    assert(jget(cfg, "outbounds"@) == JsonV::Arr(seq![o, spec_direct_outbound(), spec_block_outbound()]));
    assert(proxy_outbound_of(cfg) == o);
    let base = Map::<Seq<char>, JsonV>::empty()
        .insert("protocol"@, JsonV::Str("vless"@))
        .insert("settings"@, spec_vless_settings(node, u));
    assert(spec_with_stream(base, node).contains_key("settings"@)
        && spec_with_stream(base, node)["settings"@] == spec_vless_settings(node, u));
    assert(jget(o, "settings"@) == spec_vless_settings(node, u));
    let user = JsonV::Obj(spec_vless_user(node, u));
    assert(xray_vless_user_of(cfg) == user);
    let m0 = Map::<Seq<char>, JsonV>::empty()
        .insert("id"@, JsonV::Str(u))
        .insert("encryption"@, JsonV::Str(opt_or(node.encryption, "none"@)));
    let m1 = opt_str_entry(m0, "flow"@, node.flow);
    assert(m1.contains_key("id"@) && m1["id"@] == JsonV::Str(u));
    assert(m1.contains_key("encryption"@) && m1["encryption"@] == JsonV::Str(opt_or(node.encryption, "none"@)));
    assert(m1.contains_key("flow"@) <==> node.flow is Some);
    assert(node.flow is Some ==> m1["flow"@] == JsonV::Str(node.flow->0@));
}

/// The sing-box outbound of a REALITY node carries the node's REALITY
/// parameters: `reality` is enabled, with the node's public key, short id
/// and spider path when it has them (none of them otherwise). The VLESS,
/// Trojan and VMess nodes always get a configuration.
pub proof fn law_singbox_reality_carries_node(node: ProxyNode, ports: crate::singbox::InboundPorts)
    requires
        node.security == Security::Reality || node.security == Security::RealityPsk,
    ensures
        node.protocol == Protocol::Vless || node.protocol == Protocol::Trojan || node.protocol == Protocol::Vmess
            ==> crate::singbox::spec_singbox_config(node, ports) is Ok,
        crate::singbox::spec_singbox_config(node, ports) matches Ok(cfg) ==> {
            let reality = jget(jget(proxy_outbound_of(cfg), "tls"@), "reality"@);
            &&& jget(reality, "enabled"@) == JsonV::Bool(true)
            &&& carries_opt_str(reality, "public_key"@, node.public_key)
            &&& carries_opt_str(reality, "short_id"@, node.short_id)
            &&& carries_opt_str(reality, "spiderX"@, node.spider_x)
        },
{
    lemma_config_words();
    let m = Map::<Seq<char>, JsonV>::empty()
        .insert("type"@, JsonV::Str(crate::singbox::spec_protocol_type(node.protocol)))
        .insert("tag"@, JsonV::Str("proxy"@))
        .insert("server"@, JsonV::Str(node.server@))
        .insert("server_port"@, JsonV::Num(node.port as nat));
    match crate::singbox::spec_protocol_fields(m, node) {
        Ok(m2) => {
            let r = crate::singbox::spec_reality(node);
            let t = crate::singbox::spec_tls_base(node).insert("reality"@, JsonV::Obj(r));
            assert(crate::singbox::spec_tls(node) == Some(t));
            let m3 = m2.insert("tls"@, JsonV::Obj(t));
            let o = match crate::singbox::spec_transport_type(node.transport) {
                Some(ty) => m3.insert("transport"@, JsonV::Obj(crate::singbox::spec_transport_object(node, ty))),
                None => m3,
            };
            assert(crate::singbox::spec_outbound(node) == Ok::<JsonV, Seq<char>>(JsonV::Obj(o)));
            let cfg = crate::singbox::spec_root(JsonV::Obj(o), ports);
            assert(crate::singbox::spec_singbox_config(node, ports) == Ok::<JsonV, Seq<char>>(cfg));
            assert(proxy_outbound_of(cfg) == JsonV::Obj(o));
            assert(jget(JsonV::Obj(o), "tls"@) == JsonV::Obj(t));
            assert(jget(JsonV::Obj(t), "reality"@) == JsonV::Obj(r));
            let r1 = opt_str_entry(Map::<Seq<char>, JsonV>::empty().insert("enabled"@, JsonV::Bool(true)), "public_key"@, node.public_key);
            let r2 = opt_str_entry(r1, "short_id"@, node.short_id);
            assert(r2.contains_key("enabled"@) && r2["enabled"@] == JsonV::Bool(true));
            assert(r2.contains_key("public_key"@) <==> node.public_key is Some);
            assert(node.public_key is Some ==> r2["public_key"@] == JsonV::Str(node.public_key->0@));
        },
        Err(_) => {},
    }
}

/// The keys and names that the configuration laws read, letter by letter.
proof fn lemma_config_words()
    ensures
        "path"@ =~= seq!['p', 'a', 't', 'h'],
        "path"@.len() == 4,
        "host"@ =~= seq!['h', 'o', 's', 't'],
        "host"@.len() == 4,
        "headers"@ =~= seq!['h', 'e', 'a', 'd', 'e', 'r', 's'],
        "headers"@.len() == 7,
        "service_name"@ =~= seq!['s', 'e', 'r', 'v', 'i', 'c', 'e', '_', 'n', 'a', 'm', 'e'],
        "service_name"@.len() == 12,
        "wsSettings"@ =~= seq!['w', 's', 'S', 'e', 't', 't', 'i', 'n', 'g', 's'],
        "wsSettings"@.len() == 10,
        "httpSettings"@ =~= seq!['h', 't', 't', 'p', 'S', 'e', 't', 't', 'i', 'n', 'g', 's'],
        "httpSettings"@.len() == 12,
        "xhttpSettings"@ =~= seq!['x', 'h', 't', 't', 'p', 'S', 'e', 't', 't', 'i', 'n', 'g', 's'],
        "xhttpSettings"@.len() == 13,
        "splithttpSettings"@ =~= seq!['s', 'p', 'l', 'i', 't', 'h', 't', 't', 'p', 'S', 'e', 't', 't', 'i', 'n', 'g', 's'],
        "splithttpSettings"@.len() == 17,
        "grpcSettings"@ =~= seq!['g', 'r', 'p', 'c', 'S', 'e', 't', 't', 'i', 'n', 'g', 's'],
        "grpcSettings"@.len() == 12,
        "Host"@ =~= seq!['H', 'o', 's', 't'],
        "Host"@.len() == 4,
        "/"@ =~= seq!['/'],
        "/"@.len() == 1,
        "public_key"@ =~= seq!['p', 'u', 'b', 'l', 'i', 'c', '_', 'k', 'e', 'y'],
        "public_key"@.len() == 10,
        "short_id"@ =~= seq!['s', 'h', 'o', 'r', 't', '_', 'i', 'd'],
        "short_id"@.len() == 8,
        "outbounds"@ =~= seq!['o', 'u', 't', 'b', 'o', 'u', 'n', 'd', 's'],
        "routing"@ =~= seq!['r', 'o', 'u', 't', 'i', 'n', 'g'],
        "policy"@ =~= seq!['p', 'o', 'l', 'i', 'c', 'y'],
        "settings"@ =~= seq!['s', 'e', 't', 't', 'i', 'n', 'g', 's'],
        "vnext"@ =~= seq!['v', 'n', 'e', 'x', 't'],
        "users"@ =~= seq!['u', 's', 'e', 'r', 's'],
        "streamSettings"@ =~= seq!['s', 't', 'r', 'e', 'a', 'm', 'S', 'e', 't', 't', 'i', 'n', 'g', 's'],
        "tag"@ =~= seq!['t', 'a', 'g'],
        "protocol"@ =~= seq!['p', 'r', 'o', 't', 'o', 'c', 'o', 'l'],
        "address"@ =~= seq!['a', 'd', 'd', 'r', 'e', 's', 's'],
        "port"@ =~= seq!['p', 'o', 'r', 't'],
        "servers"@ =~= seq!['s', 'e', 'r', 'v', 'e', 'r', 's'],
        "password"@ =~= seq!['p', 'a', 's', 's', 'w', 'o', 'r', 'd'],
        "sni"@ =~= seq!['s', 'n', 'i'],
        "fingerprint"@ =~= seq!['f', 'i', 'n', 'g', 'e', 'r', 'p', 'r', 'i', 'n', 't'],
        "security"@ =~= seq!['s', 'e', 'c', 'u', 'r', 'i', 't', 'y'],
        "tlsSettings"@ =~= seq!['t', 'l', 's', 'S', 'e', 't', 't', 'i', 'n', 'g', 's'],
        "realitySettings"@ =~= seq!['r', 'e', 'a', 'l', 'i', 't', 'y', 'S', 'e', 't', 't', 'i', 'n', 'g', 's'],
        "serverName"@ =~= seq!['s', 'e', 'r', 'v', 'e', 'r', 'N', 'a', 'm', 'e'],
        "publicKey"@ =~= seq!['p', 'u', 'b', 'l', 'i', 'c', 'K', 'e', 'y'],
        "shortId"@ =~= seq!['s', 'h', 'o', 'r', 't', 'I', 'd'],
        "spiderX"@ =~= seq!['s', 'p', 'i', 'd', 'e', 'r', 'X'],
        "alpn"@ =~= seq!['a', 'l', 'p', 'n'],
        "network"@ =~= seq!['n', 'e', 't', 'w', 'o', 'r', 'k'],
        "Settings"@ =~= seq!['S', 'e', 't', 't', 'i', 'n', 'g', 's'],
        "ws"@ =~= seq!['w', 's'],
        "grpc"@ =~= seq!['g', 'r', 'p', 'c'],
        "http"@ =~= seq!['h', 't', 't', 'p'],
        "xhttp"@ =~= seq!['x', 'h', 't', 't', 'p'],
        "splithttp"@ =~= seq!['s', 'p', 'l', 'i', 't', 'h', 't', 't', 'p'],
        "kcp"@ =~= seq!['k', 'c', 'p'],
        "tls"@ =~= seq!['t', 'l', 's'],
        "reality"@ =~= seq!['r', 'e', 'a', 'l', 'i', 't', 'y'],
        "vless"@ =~= seq!['v', 'l', 'e', 's', 's'],
        "trojan"@ =~= seq!['t', 'r', 'o', 'j', 'a', 'n'],
        "vmess"@ =~= seq!['v', 'm', 'e', 's', 's'],
        "shadowsocks"@ =~= seq!['s', 'h', 'a', 'd', 'o', 'w', 's', 'o', 'c', 'k', 's'],
        "block"@ =~= seq!['b', 'l', 'o', 'c', 'k'],
        "proxy"@ =~= seq!['p', 'r', 'o', 'x', 'y'],
        "type"@ =~= seq!['t', 'y', 'p', 'e'],
        "server"@ =~= seq!['s', 'e', 'r', 'v', 'e', 'r'],
        "server_port"@ =~= seq!['s', 'e', 'r', 'v', 'e', 'r', '_', 'p', 'o', 'r', 't'],
        "uuid"@ =~= seq!['u', 'u', 'i', 'd'],
        "flow"@ =~= seq!['f', 'l', 'o', 'w'],
        "packet_encoding"@ =~= seq!['p', 'a', 'c', 'k', 'e', 't', '_', 'e', 'n', 'c', 'o', 'd', 'i', 'n', 'g'],
        "alter_id"@ =~= seq!['a', 'l', 't', 'e', 'r', '_', 'i', 'd'],
        "method"@ =~= seq!['m', 'e', 't', 'h', 'o', 'd'],
        "transport"@ =~= seq!['t', 'r', 'a', 'n', 's', 'p', 'o', 'r', 't'],
        "enabled"@ =~= seq!['e', 'n', 'a', 'b', 'l', 'e', 'd'],
        "server_name"@ =~= seq!['s', 'e', 'r', 'v', 'e', 'r', '_', 'n', 'a', 'm', 'e'],
        "utls"@ =~= seq!['u', 't', 'l', 's'],
        "route"@ =~= seq!['r', 'o', 'u', 't', 'e'],
        "auto"@ =~= seq!['a', 'u', 't', 'o'],
        "none"@ =~= seq!['n', 'o', 'n', 'e'],
        "id"@ =~= seq!['i', 'd'],
        "encryption"@ =~= seq!['e', 'n', 'c', 'r', 'y', 'p', 't', 'i', 'o', 'n'],
        "log"@ =~= seq!['l', 'o', 'g'],
        "dns"@ =~= seq!['d', 'n', 's'],
        "inbounds"@ =~= seq!['i', 'n', 'b', 'o', 'u', 'n', 'd', 's'],
        "outbounds"@.len() == 9,
        "routing"@.len() == 7,
        "policy"@.len() == 6,
        "settings"@.len() == 8,
        "vnext"@.len() == 5,
        "users"@.len() == 5,
        "streamSettings"@.len() == 14,
        "tag"@.len() == 3,
        "protocol"@.len() == 8,
        "address"@.len() == 7,
        "port"@.len() == 4,
        "servers"@.len() == 7,
        "password"@.len() == 8,
        "sni"@.len() == 3,
        "fingerprint"@.len() == 11,
        "security"@.len() == 8,
        "tlsSettings"@.len() == 11,
        "realitySettings"@.len() == 15,
        "serverName"@.len() == 10,
        "publicKey"@.len() == 9,
        "shortId"@.len() == 7,
        "spiderX"@.len() == 7,
        "alpn"@.len() == 4,
        "network"@.len() == 7,
        "Settings"@.len() == 8,
        "ws"@.len() == 2,
        "grpc"@.len() == 4,
        "http"@.len() == 4,
        "xhttp"@.len() == 5,
        "splithttp"@.len() == 9,
        "kcp"@.len() == 3,
        "tls"@.len() == 3,
        "reality"@.len() == 7,
        "vless"@.len() == 5,
        "trojan"@.len() == 6,
        "vmess"@.len() == 5,
        "shadowsocks"@.len() == 11,
        "block"@.len() == 5,
        "proxy"@.len() == 5,
        "type"@.len() == 4,
        "server"@.len() == 6,
        "server_port"@.len() == 11,
        "uuid"@.len() == 4,
        "flow"@.len() == 4,
        "packet_encoding"@.len() == 15,
        "alter_id"@.len() == 8,
        "method"@.len() == 6,
        "transport"@.len() == 9,
        "enabled"@.len() == 7,
        "server_name"@.len() == 11,
        "utls"@.len() == 4,
        "route"@.len() == 5,
        "auto"@.len() == 4,
        "none"@.len() == 4,
        "id"@.len() == 2,
        "encryption"@.len() == 10,
        "log"@.len() == 3,
        "dns"@.len() == 3,
        "inbounds"@.len() == 8,
{
    reveal_strlit("path");
    reveal_strlit("host");
    reveal_strlit("headers");
    reveal_strlit("service_name");
    reveal_strlit("wsSettings");
    reveal_strlit("httpSettings");
    reveal_strlit("xhttpSettings");
    reveal_strlit("splithttpSettings");
    reveal_strlit("grpcSettings");
    reveal_strlit("Host");
    reveal_strlit("/");
    reveal_strlit("public_key");
    reveal_strlit("short_id");
    reveal_strlit("outbounds");
    reveal_strlit("routing");
    reveal_strlit("policy");
    reveal_strlit("settings");
    reveal_strlit("vnext");
    reveal_strlit("users");
    reveal_strlit("streamSettings");
    reveal_strlit("tag");
    reveal_strlit("protocol");
    reveal_strlit("address");
    reveal_strlit("port");
    reveal_strlit("servers");
    reveal_strlit("password");
    reveal_strlit("sni");
    reveal_strlit("fingerprint");
    reveal_strlit("security");
    reveal_strlit("tlsSettings");
    reveal_strlit("realitySettings");
    reveal_strlit("serverName");
    reveal_strlit("publicKey");
    reveal_strlit("shortId");
    reveal_strlit("spiderX");
    reveal_strlit("alpn");
    reveal_strlit("network");
    reveal_strlit("Settings");
    reveal_strlit("ws");
    reveal_strlit("grpc");
    reveal_strlit("http");
    reveal_strlit("xhttp");
    reveal_strlit("splithttp");
    reveal_strlit("kcp");
    reveal_strlit("tls");
    reveal_strlit("reality");
    reveal_strlit("vless");
    reveal_strlit("trojan");
    reveal_strlit("vmess");
    reveal_strlit("shadowsocks");
    reveal_strlit("block");
    reveal_strlit("proxy");
    reveal_strlit("type");
    reveal_strlit("server");
    reveal_strlit("server_port");
    reveal_strlit("uuid");
    reveal_strlit("flow");
    reveal_strlit("packet_encoding");
    reveal_strlit("alter_id");
    reveal_strlit("method");
    reveal_strlit("transport");
    reveal_strlit("enabled");
    reveal_strlit("server_name");
    reveal_strlit("utls");
    reveal_strlit("route");
    reveal_strlit("auto");
    reveal_strlit("none");
    reveal_strlit("id");
    reveal_strlit("encryption");
    reveal_strlit("log");
    reveal_strlit("dns");
    reveal_strlit("inbounds");
}

/// Xray's stream settings hold the security parameters under `security`
/// and its settings object, and the transport's under `network` and its
/// own settings object: the transport's key is never one of the security
/// keys.
proof fn lemma_network_key_apart(net: Seq<char>)
    requires
        net == "ws"@ || net == "grpc"@ || net == "http"@ || net == "xhttp"@ || net == "splithttp"@ || net == "kcp"@,
    ensures
        net + "Settings"@ != "security"@,
        net + "Settings"@ != "tlsSettings"@,
        net + "Settings"@ != "realitySettings"@,
        net != "security"@,
{
    lemma_config_words();
    assert((net + "Settings"@)[0] == net[0]);
    assert((net + "Settings"@).len() == net.len() + 8);
}

/// The Xray proxy outbound of a VLESS node is a `vless` outbound tagged
/// `proxy` whose first server is the node's address and port.
pub proof fn law_xray_vless_server_is_node(
    node: ProxyNode,
    ports: InboundPorts,
    rules: Seq<SplitTunnelRule>,
    geo: GeoAssetStatus,
)
    requires
        node.protocol == Protocol::Vless,
        node.uuid is Some,
    ensures
        ({
            let out = proxy_outbound_of(spec_xray_config(node, ports, rules, geo)->Ok_0);
            let server = jat(jget(jget(out, "settings"@), "vnext"@), 0);
            &&& jget(out, "protocol"@) == JsonV::Str("vless"@)
            &&& jget(out, "tag"@) == JsonV::Str("proxy"@)
            &&& jget(server, "address"@) == JsonV::Str(node.server@)
            &&& jget(server, "port"@) == JsonV::Num(node.port as nat)
        }),
{
    lemma_config_words();
    let u = node.uuid->0@;
    let settings = spec_vless_settings(node, u);
    let o = spec_proxy_outbound("vless"@, settings, node);
    assert(spec_outbound(node) == Ok::<JsonV, Seq<char>>(o));
    let cfg = spec_xray_config(node, ports, rules, geo)->Ok_0;
    assert(cfg == crate::xray::spec_root(o, ports, rules, geo));
    assert(proxy_outbound_of(cfg) == o);
    let base = Map::<Seq<char>, JsonV>::empty()
        .insert("protocol"@, JsonV::Str("vless"@))
        .insert("settings"@, settings);
    assert(spec_with_stream(base, node)["settings"@] == settings);
    assert(spec_with_stream(base, node)["protocol"@] == JsonV::Str("vless"@));
    assert(spec_with_stream(base, node).contains_key("protocol"@));
    assert(jget(o, "settings"@) == settings);
}

/// The Xray configuration of a Trojan node with a password always exists,
/// and its proxy outbound is a `trojan` outbound whose first server is the
/// node's address and port with its password, and its SNI and uTLS
/// fingerprint when it has them (none of them otherwise).
pub proof fn law_xray_trojan_server_carries_node(
    node: ProxyNode,
    ports: InboundPorts,
    rules: Seq<SplitTunnelRule>,
    geo: GeoAssetStatus,
)
    requires
        node.protocol == Protocol::Trojan,
        node.password is Some,
    ensures
        spec_xray_config(node, ports, rules, geo) is Ok,
        ({
            let out = proxy_outbound_of(spec_xray_config(node, ports, rules, geo)->Ok_0);
            let server = jat(jget(jget(out, "settings"@), "servers"@), 0);
            &&& jget(out, "protocol"@) == JsonV::Str("trojan"@)
            &&& jget(server, "address"@) == JsonV::Str(node.server@)
            &&& jget(server, "port"@) == JsonV::Num(node.port as nat)
            &&& jget(server, "password"@) == JsonV::Str(node.password->0@)
            &&& carries_opt_str(server, "sni"@, node.sni)
            &&& carries_opt_str(server, "fingerprint"@, node.fingerprint)
        }),
{
    lemma_config_words();
    let pw = node.password->0@;
    let settings = crate::xray::spec_trojan_settings(node, pw);
    let o = spec_proxy_outbound("trojan"@, settings, node);
    assert(spec_outbound(node) == Ok::<JsonV, Seq<char>>(o));
    let cfg = spec_xray_config(node, ports, rules, geo)->Ok_0;
    assert(cfg == crate::xray::spec_root(o, ports, rules, geo));
    assert(proxy_outbound_of(cfg) == o);
    let base = Map::<Seq<char>, JsonV>::empty()
        .insert("protocol"@, JsonV::Str("trojan"@))
        .insert("settings"@, settings);
    assert(spec_with_stream(base, node)["settings"@] == settings);
    assert(spec_with_stream(base, node)["protocol"@] == JsonV::Str("trojan"@));
    assert(spec_with_stream(base, node).contains_key("protocol"@));
    assert(jget(o, "settings"@) == settings);
    let m0 = Map::<Seq<char>, JsonV>::empty()
        .insert("address"@, JsonV::Str(node.server@))
        .insert("port"@, JsonV::Num(node.port as nat))
        .insert("password"@, JsonV::Str(pw));
    let m1 = opt_str_entry(m0, "sni"@, node.sni);
    assert(m1.contains_key("address"@) && m1["address"@] == JsonV::Str(node.server@));
    assert(m1.contains_key("port"@) && m1["port"@] == JsonV::Num(node.port as nat));
    assert(m1.contains_key("password"@) && m1["password"@] == JsonV::Str(pw));
    assert(m1.contains_key("sni"@) <==> node.sni is Some);
}

/// The TLS or REALITY parameters of the Xray proxy outbound are the node's:
/// with TLS, security `tls` and a server name that is the node's SNI (else
/// its address) with its uTLS fingerprint when it has one; with REALITY,
/// security `reality` with that server name, the node's public key, its
/// short id (empty when it has none), its spider path and fingerprint when
/// it has them; a plain TCP node has no stream settings.
pub proof fn law_xray_security_carries_node(
    node: ProxyNode,
    ports: InboundPorts,
    rules: Seq<SplitTunnelRule>,
    geo: GeoAssetStatus,
)
    requires
        spec_xray_config(node, ports, rules, geo) is Ok,
    ensures
        ({
            let out = proxy_outbound_of(spec_xray_config(node, ports, rules, geo)->Ok_0);
            let st = jget(out, "streamSettings"@);
            let name = JsonV::Str(match node.sni { Some(s) => s@, None => node.server@ });
            &&& (node.security == Security::Plain && node.transport == Transport::Tcp) ==> !jhas(out, "streamSettings"@)
            &&& node.security == Security::Tls ==> {
                let t = jget(st, "tlsSettings"@);
                &&& jget(st, "security"@) == JsonV::Str("tls"@)
                &&& jget(t, "serverName"@) == name
                &&& carries_opt_str(t, "fingerprint"@, node.fingerprint)
            }
            &&& (node.security == Security::Reality || node.security == Security::RealityPsk) ==> {
                let r = jget(st, "realitySettings"@);
                &&& jget(st, "security"@) == JsonV::Str("reality"@)
                &&& jget(r, "serverName"@) == name
                &&& carries_opt_str(r, "publicKey"@, node.public_key)
                &&& jget(r, "shortId"@) == JsonV::Str(match node.short_id { Some(s) => s@, None => Seq::empty() })
                &&& carries_opt_str(r, "spiderX"@, node.spider_x)
                &&& carries_opt_str(r, "fingerprint"@, node.fingerprint)
            }
        }),
{
    lemma_config_words();
    let (proto, settings) = if node.protocol == Protocol::Vless {
        ("vless"@, spec_vless_settings(node, node.uuid->0@))
    } else {
        ("trojan"@, crate::xray::spec_trojan_settings(node, node.password->0@))
    };
    let o = spec_proxy_outbound(proto, settings, node);
    assert(spec_outbound(node) == Ok::<JsonV, Seq<char>>(o));
    let cfg = spec_xray_config(node, ports, rules, geo)->Ok_0;
    assert(cfg == crate::xray::spec_root(o, ports, rules, geo));
    assert(proxy_outbound_of(cfg) == o);
    let base = Map::<Seq<char>, JsonV>::empty()
        .insert("protocol"@, JsonV::Str(proto))
        .insert("settings"@, settings);
    match crate::xray::spec_stream_settings(node) {
        Some(stm) => {
            assert(jget(o, "streamSettings"@) == JsonV::Obj(stm));
            match crate::xray::spec_security_stream(node) {
                Some(sec) => {
                    match crate::xray::spec_network(node.transport) {
                        Some(net) => {
                            lemma_network_key_apart(net);
                            assert(stm["security"@] == sec["security"@]);
                            assert(stm.contains_key("tlsSettings"@) == sec.contains_key("tlsSettings"@));
                            assert(stm.contains_key("realitySettings"@) == sec.contains_key("realitySettings"@));
                            assert(sec.contains_key("tlsSettings"@) ==> stm["tlsSettings"@] == sec["tlsSettings"@]);
                            assert(sec.contains_key("realitySettings"@) ==> stm["realitySettings"@] == sec["realitySettings"@]);
                        },
                        None => {},
                    }
                },
                None => {},
            }
        },
        None => {
            assert(spec_with_stream(base, node) == base);
        },
    }
    let tm0 = Map::<Seq<char>, JsonV>::empty().insert("serverName"@, JsonV::Str(crate::xray::spec_server_name(node)));
    let tm1 = match node.alpn {
        Some(a) => tm0.insert("alpn"@, crate::json::spec_str_array(a@)),
        None => tm0,
    };
    assert(tm1.contains_key("serverName"@));
    let rm1 = opt_str_entry(tm0, "publicKey"@, node.public_key);
    let rm2 = rm1.insert("shortId"@, JsonV::Str(opt_or(node.short_id, Seq::empty())));
    let rm3 = opt_str_entry(rm2, "spiderX"@, node.spider_x);
    assert(rm3.contains_key("serverName"@) && rm3["serverName"@] == JsonV::Str(crate::xray::spec_server_name(node)));
    assert(rm3.contains_key("publicKey"@) <==> node.public_key is Some);
    assert(node.public_key is Some ==> rm3["publicKey"@] == JsonV::Str(node.public_key->0@));
    assert(rm3.contains_key("shortId"@));
    assert(rm3.contains_key("spiderX"@) <==> node.spider_x is Some);
    let out = proxy_outbound_of(cfg);
    let st = jget(out, "streamSettings"@);
    if node.security == Security::Plain && node.transport == Transport::Tcp {
        assert(crate::xray::spec_stream_settings(node) is None);
        assert(!jhas(out, "streamSettings"@));
    }
    let name = JsonV::Str(match node.sni { Some(s) => s@, None => node.server@ });
    if node.security == Security::Tls {
        assert(jget(st, "security"@) == JsonV::Str("tls"@));
        assert(jget(st, "tlsSettings"@) == JsonV::Obj(crate::xray::spec_tls_settings(node)));
        let t = jget(st, "tlsSettings"@);
        assert(jget(t, "serverName"@) == name);
        assert(carries_opt_str(t, "fingerprint"@, node.fingerprint));
    }
    if node.security == Security::Reality || node.security == Security::RealityPsk {
        assert(jget(st, "security"@) == JsonV::Str("reality"@));
        assert(jget(st, "realitySettings"@) == JsonV::Obj(crate::xray::spec_reality_settings(node)));
        let r = jget(st, "realitySettings"@);
        assert(jget(r, "serverName"@) == name);
        assert(carries_opt_str(r, "publicKey"@, node.public_key));
        reveal_strlit("");
        assert(""@ =~= Seq::<char>::empty());
        assert(jget(r, "shortId"@) == JsonV::Str(match node.short_id { Some(s) => s@, None => Seq::empty() }));
        assert(carries_opt_str(r, "spiderX"@, node.spider_x));
        assert(carries_opt_str(r, "fingerprint"@, node.fingerprint));
    }
}

/// The sing-box proxy outbound is the node's server: its type is the
/// node's protocol, tagged `proxy`, at the node's address and port, with
/// the node's credentials (the VLESS UUID and flow, the Trojan password,
/// the VMess UUID, alter id and cipher, `auto` when it has none), and with
/// TLS enabled for a node with TLS or REALITY, the node's SNI as server
/// name and its uTLS fingerprint; a plain node has no TLS object.
pub proof fn law_singbox_outbound_carries_node(node: ProxyNode, ports: crate::singbox::InboundPorts)
    requires
        crate::singbox::spec_singbox_config(node, ports) is Ok,
    ensures
        ({
            let out = proxy_outbound_of(crate::singbox::spec_singbox_config(node, ports)->Ok_0);
            let tls = jget(out, "tls"@);
            &&& jget(out, "tag"@) == JsonV::Str("proxy"@)
            &&& jget(out, "server"@) == JsonV::Str(node.server@)
            &&& jget(out, "server_port"@) == JsonV::Num(node.port as nat)
            &&& node.protocol == Protocol::Vless ==> {
                &&& jget(out, "type"@) == JsonV::Str("vless"@)
                &&& carries_opt_str(out, "uuid"@, node.uuid)
                &&& carries_opt_str(out, "flow"@, node.flow)
            }
            &&& node.protocol == Protocol::Trojan ==> {
                &&& jget(out, "type"@) == JsonV::Str("trojan"@)
                &&& carries_opt_str(out, "password"@, node.password)
            }
            &&& node.protocol == Protocol::Vmess ==> {
                &&& jget(out, "type"@) == JsonV::Str("vmess"@)
                &&& carries_opt_str(out, "uuid"@, node.uuid)
                &&& jget(out, "security"@) == JsonV::Str(match node.encryption { Some(e) => e@, None => "auto"@ })
                &&& match node.alter_id {
                    Some(a) => jget(out, "alter_id"@) == JsonV::Num(a as nat),
                    None => !jhas(out, "alter_id"@),
                }
            }
            &&& node.security == Security::Plain ==> !jhas(out, "tls"@)
            &&& node.security != Security::Plain ==> {
                &&& jget(tls, "enabled"@) == JsonV::Bool(true)
                &&& carries_opt_str(tls, "server_name"@, node.sni)
                &&& match node.fingerprint {
                    Some(fp) => {
                        &&& jget(jget(tls, "utls"@), "enabled"@) == JsonV::Bool(true)
                        &&& jget(jget(tls, "utls"@), "fingerprint"@) == JsonV::Str(fp@)
                    },
                    None => !jhas(tls, "utls"@),
                }
            }
        }),
{
    lemma_config_words();
    let m = Map::<Seq<char>, JsonV>::empty()
        .insert("type"@, JsonV::Str(crate::singbox::spec_protocol_type(node.protocol)))
        .insert("tag"@, JsonV::Str("proxy"@))
        .insert("server"@, JsonV::Str(node.server@))
        .insert("server_port"@, JsonV::Num(node.port as nat));
    let m2 = crate::singbox::spec_protocol_fields(m, node)->Ok_0;
    assert(crate::singbox::spec_protocol_fields(m, node) is Ok);
    let m3 = match crate::singbox::spec_tls(node) {
        Some(t) => m2.insert("tls"@, JsonV::Obj(t)),
        None => m2,
    };
    let o = match crate::singbox::spec_transport_type(node.transport) {
        Some(ty) => m3.insert("transport"@, JsonV::Obj(crate::singbox::spec_transport_object(node, ty))),
        None => m3,
    };
    assert(crate::singbox::spec_outbound(node) == Ok::<JsonV, Seq<char>>(JsonV::Obj(o)));
    let cfg = crate::singbox::spec_root(JsonV::Obj(o), ports);
    assert(crate::singbox::spec_singbox_config(node, ports) == Ok::<JsonV, Seq<char>>(cfg));
    assert(proxy_outbound_of(cfg) == JsonV::Obj(o));
    assert(m.contains_key("server"@) && m["server"@] == JsonV::Str(node.server@));
    // the protocol fields keep the base keys
    match node.protocol {
        Protocol::Vless => {
            let v1 = opt_str_entry(m, "uuid"@, node.uuid);
            let v2 = opt_str_entry(v1, "flow"@, node.flow);
            assert(v2.contains_key("server"@) && v2["server"@] == JsonV::Str(node.server@));
            assert(v2.contains_key("tag"@) && v2.contains_key("type"@) && v2.contains_key("server_port"@));
        },
        Protocol::Trojan => {
            let v1 = opt_str_entry(m, "password"@, node.password);
            assert(v1.contains_key("server"@) && v1["server"@] == JsonV::Str(node.server@));
        },
        Protocol::Vmess => {
            let v1 = opt_str_entry(m, "uuid"@, node.uuid);
            assert(v1.contains_key("server"@) && v1["server"@] == JsonV::Str(node.server@));
        },
        _ => {},
    }
    assert(m2.contains_key("tag"@) && m2["tag"@] == JsonV::Str("proxy"@));
    assert(m2.contains_key("server"@) && m2["server"@] == JsonV::Str(node.server@));
    assert(m2.contains_key("server_port"@) && m2["server_port"@] == JsonV::Num(node.port as nat));
    assert(m2.contains_key("type"@) && m2["type"@] == JsonV::Str(crate::singbox::spec_protocol_type(node.protocol)));
    if node.protocol == Protocol::Vless {
        let v1 = opt_str_entry(m, "uuid"@, node.uuid);
        assert(v1.contains_key("uuid"@) <==> node.uuid is Some);
        assert(node.uuid is Some ==> v1["uuid"@] == JsonV::Str(node.uuid->0@));
    }
    if node.protocol == Protocol::Vmess {
        let v1 = opt_str_entry(m, "uuid"@, node.uuid);
        assert(v1.contains_key("uuid"@) <==> node.uuid is Some);
        assert(node.uuid is Some ==> v1["uuid"@] == JsonV::Str(node.uuid->0@));
    }
    match crate::singbox::spec_tls(node) {
        Some(t) => {
            let b0 = opt_str_entry(Map::<Seq<char>, JsonV>::empty().insert("enabled"@, JsonV::Bool(true)), "server_name"@, node.sni);
            assert(b0.contains_key("enabled"@) && b0["enabled"@] == JsonV::Bool(true));
            assert(b0.contains_key("server_name"@) <==> node.sni is Some);
            assert(node.sni is Some ==> b0["server_name"@] == JsonV::Str(node.sni->0@));
        },
        None => {},
    }
}

/// The transport of the Xray proxy outbound is the node's (for a node
/// without XHTTP tuning): plain TCP names no network; WebSocket, HTTP/2,
/// XHTTP and SplitHTTP name theirs, with the node's path (`/` for XHTTP
/// and SplitHTTP when it has none) and host; gRPC names `grpc` with the
/// node's service name; mKCP names `kcp`.
pub proof fn law_xray_transport_carries_node(
    node: ProxyNode,
    ports: InboundPorts,
    rules: Seq<SplitTunnelRule>,
    geo: GeoAssetStatus,
)
    requires
        spec_xray_config(node, ports, rules, geo) is Ok,
        node.extra is None,
    ensures
        ({
            let out = proxy_outbound_of(spec_xray_config(node, ports, rules, geo)->Ok_0);
            let st = jget(out, "streamSettings"@);
            &&& node.transport == Transport::Tcp ==> !jhas(st, "network"@)
            &&& node.transport == Transport::Ws ==> {
                &&& jget(st, "network"@) == JsonV::Str("ws"@)
                &&& carries_opt_str(jget(st, "wsSettings"@), "path"@, node.path)
                &&& carries_opt_str(jget(st, "wsSettings"@), "host"@, node.host)
            }
            &&& node.transport == Transport::H2 ==> {
                &&& jget(st, "network"@) == JsonV::Str("http"@)
                &&& carries_opt_str(jget(st, "httpSettings"@), "path"@, node.path)
                &&& carries_opt_str(jget(st, "httpSettings"@), "host"@, node.host)
            }
            &&& node.transport == Transport::Xhttp ==> {
                &&& jget(st, "network"@) == JsonV::Str("xhttp"@)
                &&& jget(jget(st, "xhttpSettings"@), "path"@) == JsonV::Str(match node.path { Some(p) => p@, None => "/"@ })
                &&& carries_opt_str(jget(st, "xhttpSettings"@), "host"@, node.host)
            }
            &&& node.transport == Transport::Splithttp ==> {
                &&& jget(st, "network"@) == JsonV::Str("splithttp"@)
                &&& jget(jget(st, "splithttpSettings"@), "path"@) == JsonV::Str(match node.path { Some(p) => p@, None => "/"@ })
                &&& carries_opt_str(jget(st, "splithttpSettings"@), "host"@, node.host)
            }
            &&& node.transport == Transport::Grpc ==> {
                &&& jget(st, "network"@) == JsonV::Str("grpc"@)
                &&& carries_opt_str(jget(st, "grpcSettings"@), "serviceName"@, node.service_name)
            }
            &&& node.transport == Transport::Kcp ==> jget(st, "network"@) == JsonV::Str("kcp"@)
        }),
{
    lemma_config_words();
    let (proto, settings) = if node.protocol == Protocol::Vless {
        ("vless"@, spec_vless_settings(node, node.uuid->0@))
    } else {
        ("trojan"@, crate::xray::spec_trojan_settings(node, node.password->0@))
    };
    let o = spec_proxy_outbound(proto, settings, node);
    assert(spec_outbound(node) == Ok::<JsonV, Seq<char>>(o));
    let cfg = spec_xray_config(node, ports, rules, geo)->Ok_0;
    assert(cfg == crate::xray::spec_root(o, ports, rules, geo));
    assert(proxy_outbound_of(cfg) == o);
    let out = o;
    let st = jget(out, "streamSettings"@);
    let ts = crate::xray::spec_transport_settings(node);
    match crate::xray::spec_network(node.transport) {
        Some(net) => {
            lemma_network_key_apart(net);
            assert(crate::xray::spec_stream_settings(node) is Some);
            assert(jget(o, "streamSettings"@) == JsonV::Obj(crate::xray::spec_stream_settings(node)->0));
            let stm = crate::xray::spec_stream_settings(node)->0;
            assert(("network"@) != net + "Settings"@) by {
                assert((net + "Settings"@).len() == net.len() + 8);
            }
            assert(stm.contains_key("network"@) && stm["network"@] == JsonV::Str(net));
            assert(stm.contains_key(net + "Settings"@) && stm[net + "Settings"@] == JsonV::Obj(ts));
            if node.transport == Transport::Ws { assert("ws"@ + "Settings"@ =~= "wsSettings"@); }
            if node.transport == Transport::H2 { assert("http"@ + "Settings"@ =~= "httpSettings"@); }
            if node.transport == Transport::Xhttp { assert("xhttp"@ + "Settings"@ =~= "xhttpSettings"@); }
            if node.transport == Transport::Splithttp { assert("splithttp"@ + "Settings"@ =~= "splithttpSettings"@); }
            if node.transport == Transport::Grpc { assert("grpc"@ + "Settings"@ =~= "grpcSettings"@); }
            let p0 = opt_str_entry(Map::<Seq<char>, JsonV>::empty(), "path"@, node.path);
            let p1 = opt_str_entry(p0, "host"@, node.host);
            assert(p1.contains_key("path"@) <==> node.path is Some);
            assert(node.path is Some ==> p1["path"@] == JsonV::Str(node.path->0@));
            let x0 = Map::<Seq<char>, JsonV>::empty().insert("path"@, JsonV::Str(opt_or(node.path, "/"@)));
            let x1 = opt_str_entry(x0, "host"@, node.host);
            assert(x1.contains_key("path"@) && x1["path"@] == JsonV::Str(opt_or(node.path, "/"@)));
        },
        None => {
            assert(node.transport == Transport::Tcp);
            match crate::xray::spec_security_stream(node) {
                Some(sec) => {
                    assert(jget(o, "streamSettings"@) == JsonV::Obj(sec));
                },
                None => {
                    let base = Map::<Seq<char>, JsonV>::empty()
                        .insert("protocol"@, JsonV::Str(proto))
                        .insert("settings"@, settings);
                    assert(spec_with_stream(base, node) == base);
                },
            }
        },
    }
}

/// The transport of the sing-box proxy outbound is the node's (for a node
/// without XHTTP tuning): none for plain TCP; for WebSocket, HTTP/2, XHTTP
/// and SplitHTTP their type with the node's path and, when it has a host,
/// a `Host` header; for gRPC the node's service name; `kcp` for mKCP.
pub proof fn law_singbox_transport_carries_node(node: ProxyNode, ports: crate::singbox::InboundPorts)
    requires
        crate::singbox::spec_singbox_config(node, ports) is Ok,
        node.extra is None,
    ensures
        ({
            let out = proxy_outbound_of(crate::singbox::spec_singbox_config(node, ports)->Ok_0);
            let tr = jget(out, "transport"@);
            let http_like = node.transport == Transport::Ws || node.transport == Transport::H2
                || node.transport == Transport::Xhttp || node.transport == Transport::Splithttp;
            &&& node.transport == Transport::Tcp ==> !jhas(out, "transport"@)
            &&& node.transport == Transport::Ws ==> jget(tr, "type"@) == JsonV::Str("ws"@)
            &&& node.transport == Transport::H2 ==> jget(tr, "type"@) == JsonV::Str("http"@)
            &&& node.transport == Transport::Xhttp ==> jget(tr, "type"@) == JsonV::Str("xhttp"@)
            &&& node.transport == Transport::Splithttp ==> jget(tr, "type"@) == JsonV::Str("splithttp"@)
            &&& node.transport == Transport::Grpc ==> {
                &&& jget(tr, "type"@) == JsonV::Str("grpc"@)
                &&& carries_opt_str(tr, "service_name"@, node.service_name)
            }
            &&& node.transport == Transport::Kcp ==> jget(tr, "type"@) == JsonV::Str("kcp"@)
            &&& http_like ==> {
                &&& carries_opt_str(tr, "path"@, node.path)
                &&& match node.host {
                    Some(h) => jget(jget(tr, "headers"@), "Host"@) == JsonV::Str(h@),
                    None => !jhas(tr, "headers"@),
                }
            }
        }),
{
    lemma_config_words();
    let m = Map::<Seq<char>, JsonV>::empty()
        .insert("type"@, JsonV::Str(crate::singbox::spec_protocol_type(node.protocol)))
        .insert("tag"@, JsonV::Str("proxy"@))
        .insert("server"@, JsonV::Str(node.server@))
        .insert("server_port"@, JsonV::Num(node.port as nat));
    assert(crate::singbox::spec_protocol_fields(m, node) is Ok);
    let m2 = crate::singbox::spec_protocol_fields(m, node)->Ok_0;
    let m3 = match crate::singbox::spec_tls(node) {
        Some(t) => m2.insert("tls"@, JsonV::Obj(t)),
        None => m2,
    };
    let o = match crate::singbox::spec_transport_type(node.transport) {
        Some(ty) => m3.insert("transport"@, JsonV::Obj(crate::singbox::spec_transport_object(node, ty))),
        None => m3,
    };
    assert(crate::singbox::spec_outbound(node) == Ok::<JsonV, Seq<char>>(JsonV::Obj(o)));
    let cfg = crate::singbox::spec_root(JsonV::Obj(o), ports);
    assert(crate::singbox::spec_singbox_config(node, ports) == Ok::<JsonV, Seq<char>>(cfg));
    assert(proxy_outbound_of(cfg) == JsonV::Obj(o));
    match crate::singbox::spec_transport_type(node.transport) {
        Some(ty) => {
            let t0 = Map::<Seq<char>, JsonV>::empty().insert("type"@, JsonV::Str(ty));
            let t1 = opt_str_entry(t0, "path"@, node.path);
            assert(t1.contains_key("type"@) && t1["type"@] == JsonV::Str(ty));
            assert(t1.contains_key("path"@) <==> node.path is Some);
            assert(node.path is Some ==> t1["path"@] == JsonV::Str(node.path->0@));
            let g1 = opt_str_entry(t0, "service_name"@, node.service_name);
            assert(g1.contains_key("type"@) && g1["type"@] == JsonV::Str(ty));
            assert(g1.contains_key("service_name"@) <==> node.service_name is Some);
        },
        None => {
            assert(node.transport == Transport::Tcp);
            assert(m2.contains_key("transport"@) == m.contains_key("transport"@)) by {
                match node.protocol {
                    Protocol::Vless => {
                        let v1 = opt_str_entry(m, "uuid"@, node.uuid);
                        let v2 = opt_str_entry(v1, "flow"@, node.flow);
                        assert(v2.contains_key("transport"@) == m.contains_key("transport"@));
                    },
                    _ => {},
                }
            }
        },
    }
}

/// Each export target gets the format its client reads: Clash YAML for the
/// Clash clients, sing-box JSON for sing-box and Hiddify, V2Ray share links
/// for V2RayN, V2RayNG, NekoRay and Shadowrocket, and the native formats of
/// Surge, Quantumult X and Loon; no target gets the raw listing.
pub proof fn law_export_formats(t: ExportTarget)
    ensures
        (spec_export_format(t).0 == OutputFormat::Clash) <==> (t is Clash || t is ClashMeta),
        (spec_export_format(t).0 == OutputFormat::SingBox) <==> (t is SingBox || t is Hiddify),
        (spec_export_format(t).0 == OutputFormat::V2Ray)
            <==> (t is V2RayN || t is V2RayNG || t is NekoRay || t is Shadowrocket),
        (spec_export_format(t).0 == OutputFormat::Surge) <==> t is Surge,
        (spec_export_format(t).0 == OutputFormat::QuantumultX) <==> t is QuantumultX,
        (spec_export_format(t).0 == OutputFormat::Loon) <==> t is Loon,
        spec_export_format(t).0 != OutputFormat::Raw,
        t is V2RayN ==> spec_export_format(t).1 == "V2RayN"@,
        t is V2RayNG ==> spec_export_format(t).1 == "V2RayNG"@,
        t is NekoRay ==> spec_export_format(t).1 == "NekoRay"@,
        t is Shadowrocket ==> spec_export_format(t).1 == "Shadowrocket"@,
        t is Hiddify ==> spec_export_format(t).1 == "Hiddify"@,
        t is SingBox ==> spec_export_format(t).1 == "sing-box"@,
        (t is Clash || t is ClashMeta) ==> spec_export_format(t).1 == "Clash Meta / mihomo"@,
        t is Surge ==> spec_export_format(t).1 == "Surge"@,
        t is QuantumultX ==> spec_export_format(t).1 == "Quantumult X"@,
        t is Loon ==> spec_export_format(t).1 == "Loon"@,
{
}

} // verus!

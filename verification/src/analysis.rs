//! The subscription analysis: how many fetched nodes are real rather than
//! provider placeholders, and how the real ones divide by protocol,
//! transport and security.

use vstd::prelude::*;
use crate::assets::views;
use crate::models::{ProxyNode, Subscription};
use crate::json::{Json, JsonV, ObjBuilder};
use crate::output::{
    byte_size_text, push_left, push_line, spec_byte_size_text, spec_left, spec_seconds_pattern, spec_utc_format,
    spec_utc_rfc3339, utc_format, utc_rfc3339,
};
use crate::text::{dec_digits, push_decimal, str_eq};

verus! {

/// Whether a name already has an entry.
pub open spec fn spec_has_name(t: Seq<(Seq<char>, nat)>, name: Seq<char>) -> bool {
    exists|i: int| 0 <= i < t.len() && (#[trigger] t[i]).0 == name
}

/// Counts one more occurrence of `name`: its entry goes up by one, or a new
/// entry with one occurrence comes last.
pub open spec fn spec_tally_add(t: Seq<(Seq<char>, nat)>, name: Seq<char>) -> Seq<(Seq<char>, nat)> {
    if spec_has_name(t, name) {
        Seq::new(t.len(), |k: int| if t[k].0 == name { (t[k].0, t[k].1 + 1) } else { t[k] })
    } else {
        t.push((name, 1))
    }
}

/// Each distinct name with how often it occurs, in order of first
/// occurrence.
pub open spec fn spec_tally(names: Seq<Seq<char>>) -> Seq<(Seq<char>, nat)>
    decreases names.len(),
{
    if names.len() == 0 {
        Seq::empty()
    } else {
        spec_tally_add(spec_tally(names.drop_last()), names.last())
    }
}

/// The view of a tally.
pub open spec fn tally_view(t: Seq<(String, usize)>) -> Seq<(Seq<char>, nat)> {
    t.map_values(|p: (String, usize)| (p.0@, p.1 as nat))
}

fn tally_add(t: &mut Vec<(String, usize)>, name: &str)
    requires
        forall|k: int| 0 <= k < old(t)@.len() ==> (#[trigger] old(t)@[k]).1 < usize::MAX,
    ensures
        tally_view(final(t)@) == spec_tally_add(tally_view(old(t)@), name@),
{
    let ghost t0 = tally_view(t@);
    let n = t.len();
    let mut found = false;
    let mut i: usize = 0;
    while i < n
        invariant
            n == t@.len(),
            n == t0.len(),
            i <= n,
            forall|k: int| i <= k < n ==> (#[trigger] tally_view(t@)[k]) == t0[k],
            forall|k: int| i <= k < n ==> (#[trigger] t@[k]).1 < usize::MAX,
            forall|k: int| 0 <= k < i ==> (#[trigger] tally_view(t@)[k])
                == (if t0[k].0 == name@ { (t0[k].0, t0[k].1 + 1) } else { t0[k] }),
            found == (exists|k: int| 0 <= k < i && (#[trigger] t0[k]).0 == name@),
        decreases n - i,
    {
        let ghost before = t@;
        if str_eq(t[i].0.as_str(), name) {
            let c = t[i].1;
            let s = t[i].0.clone();
            proof {
                assert(s@ == before[i as int].0@);
                assert(tally_view(before)[i as int] == (before[i as int].0@, before[i as int].1 as nat));
            }
            t.set(i, (s, c + 1));
            found = true;
            proof {
                assert(tally_view(t@)[i as int] == (t@[i as int].0@, t@[i as int].1 as nat));
                assert(tally_view(t@)[i as int] == (t0[i as int].0, t0[i as int].1 + 1));
                assert forall|k: int| 0 <= k < n && k != i implies #[trigger] tally_view(t@)[k] == tally_view(before)[k] by {
                    assert(t@[k] == before[k]);
                }
            }
        } else {
            proof {
                assert(tally_view(t@)[i as int] == t0[i as int]);
            }
        }
        i = i + 1;
        proof {
            assert(t0[i - 1].0 == name@ ==> (exists|k: int| 0 <= k < i && (#[trigger] t0[k]).0 == name@));
        }
    }
    if !found {
        let ghost before = t@;
        let owned = name.to_owned();
        proof {
            assert(owned@ == name@);
        }
        t.push((owned, 1));
        proof {
            assert(!spec_has_name(t0, name@));
            assert forall|k: int| 0 <= k < n implies #[trigger] tally_view(t@)[k] == t0[k] by {
                assert(t@[k] == before[k]);
                assert(tally_view(before)[k] == t0[k]);
            }
            assert(tally_view(t@)[n as int] == (t@[n as int].0@, t@[n as int].1 as nat));
            assert(tally_view(t@) =~= t0.push((name@, 1)));
        }
    } else {
        proof {
            assert(spec_has_name(t0, name@));
            assert(tally_view(t@) =~= Seq::new(t0.len(), |k: int| if t0[k].0 == name@ {
                (t0[k].0, t0[k].1 + 1)
            } else {
                t0[k]
            }));
        }
    }
}

/// Every count of a tally is at most the number of names counted.
proof fn lemma_tally_bound(names: Seq<Seq<char>>)
    ensures
        forall|k: int| 0 <= k < spec_tally(names).len() ==> (#[trigger] spec_tally(names)[k]).1 <= names.len(),
    decreases names.len(),
{
    if names.len() > 0 {
        let p = spec_tally(names.drop_last());
        lemma_tally_bound(names.drop_last());
        let t = spec_tally(names);
        assert(t == spec_tally_add(p, names.last()));
        assert forall|k: int| 0 <= k < t.len() implies (#[trigger] t[k]).1 <= names.len() by {
            if spec_has_name(p, names.last()) {
                assert(p[k].1 <= names.len() - 1);
            } else if k < p.len() {
                assert(t[k] == p[k]);
            }
        }
    }
}

/// Counts names: each distinct name with how often it occurs, in order of
/// first occurrence.
pub fn tally(names: &Vec<&str>) -> (t: Vec<(String, usize)>)
    ensures
        tally_view(t@) == spec_tally(names@.map_values(|s: &str| s@)),
{
    let ghost all = names@.map_values(|s: &str| s@);
    let mut t: Vec<(String, usize)> = Vec::new();
    let n = names.len();
    let mut i: usize = 0;
    proof {
        assert(tally_view(t@) =~= spec_tally(all.take(0)));
    }
    while i < n
        invariant
            n == names@.len(),
            all == names@.map_values(|s: &str| s@),
            i <= n,
            tally_view(t@) == spec_tally(all.take(i as int)),
        decreases n - i,
    {
        proof {
            lemma_tally_bound(all.take(i as int));
            assert forall|k: int| 0 <= k < t@.len() implies (#[trigger] t@[k]).1 < usize::MAX by {
                assert(tally_view(t@)[k].1 == t@[k].1 as nat);
            }
            assert(all.take(i + 1).drop_last() =~= all.take(i as int));
            assert(all.take(i + 1).last() == names@[i as int]@);
        }
        tally_add(&mut t, names[i]);
        i = i + 1;
    }
    proof {
        assert(all.take(n as int) =~= all);
    }
    t
}

// ---------------------------------------------------------------------------
// The analysis report
// ---------------------------------------------------------------------------

/// The real nodes, in order: those not marked as placeholders.
pub open spec fn spec_real(nodes: Seq<ProxyNode>, placeholder: Seq<bool>) -> Seq<ProxyNode>
    decreases nodes.len(),
{
    if nodes.len() == 0 {
        Seq::empty()
    } else {
        let r = spec_real(nodes.drop_last(), placeholder);
        if placeholder[nodes.len() - 1] { r } else { r.push(nodes.last()) }
    }
}

pub open spec fn protocol_names(nodes: Seq<ProxyNode>) -> Seq<Seq<char>> {
    nodes.map_values(|n: ProxyNode| n.protocol.spec_debug_name())
}

pub open spec fn transport_names(nodes: Seq<ProxyNode>) -> Seq<Seq<char>> {
    nodes.map_values(|n: ProxyNode| n.transport.spec_debug_name())
}

pub open spec fn security_names(nodes: Seq<ProxyNode>) -> Seq<Seq<char>> {
    nodes.map_values(|n: ProxyNode| n.security.spec_debug_name())
}

/// A titled block of counts: a blank line, the title, then each name in a
/// 15-column field with its count; nothing when there are no counts.
pub open spec fn spec_tally_lines(title: Seq<char>, t: Seq<(Seq<char>, nat)>) -> Seq<Seq<char>> {
    if t.len() == 0 {
        Seq::empty()
    } else {
        seq![Seq::<char>::empty(), title] + Seq::new(t.len(), |i: int| "  "@ + spec_left(t[i].0, 15) + " "@ + dec_digits(t[i].1))
    }
}

/// The detailed lines of one real node.
pub open spec fn spec_node_detail(n: ProxyNode) -> Seq<Seq<char>> {
    let base = seq![
        Seq::<char>::empty(),
        "  Name:       "@ + n.name@,
        "  Server:     "@ + n.server@ + ":"@ + dec_digits(n.port as nat),
        "  Protocol:   "@ + n.protocol.spec_debug_name(),
        "  Transport:  "@ + n.transport.spec_debug_name(),
        "  Security:   "@ + n.security.spec_debug_name(),
    ];
    let with_sni = match n.sni { Some(x) => base.push("  SNI:        "@ + x@), None => base };
    let with_fp = match n.fingerprint { Some(x) => with_sni.push("  FP:         "@ + x@), None => with_sni };
    match n.flow { Some(x) => with_fp.push("  Flow:       "@ + x@), None => with_fp }
}

/// The detailed lines of each real node, in order.
pub open spec fn spec_details(kept: Seq<ProxyNode>) -> Seq<Seq<char>>
    decreases kept.len(),
{
    if kept.len() == 0 { Seq::empty() } else { spec_details(kept.drop_last()) + spec_node_detail(kept.last()) }
}

/// The analysis report of a fetched subscription, given which nodes are
/// placeholders: its URL and fetch time, the node counts, the traffic when
/// known, the real nodes counted by protocol, transport and security, and
/// with `detailed` each real node; `None` when the fetch time lies outside
/// the calendar.
pub open spec fn spec_analysis_lines(sub: Subscription, placeholder: Seq<bool>, detailed: bool) -> Option<Seq<Seq<char>>> {
    match spec_utc_format(sub.fetched_at, spec_seconds_pattern()) {
        None => None,
        Some(fetched) => {
            let nodes = sub.nodes@;
            let kept = spec_real(nodes, placeholder);
            let head = seq![
                "=== Subscription Analysis ==="@,
                "URL:         "@ + sub.url@,
                "Fetched at:  "@ + fetched,
                Seq::<char>::empty(),
                "Nodes:       "@ + dec_digits(nodes.len()) + " total ("@ + dec_digits(kept.len()) + " real, "@
                    + dec_digits((nodes.len() - kept.len()) as nat) + " placeholder)"@,
            ];
            let used = match sub.traffic_used {
                Some(u) => seq!["Traffic:     "@ + spec_byte_size_text(u, true) + " used"@],
                None => Seq::empty(),
            };
            let total = match sub.traffic_total {
                Some(t) => seq!["  Total:     "@ + spec_byte_size_text(t, true)],
                None => Seq::empty(),
            };
            let counts = spec_tally_lines("Protocols:"@, spec_tally(protocol_names(kept)))
                + spec_tally_lines("Transports:"@, spec_tally(transport_names(kept)))
                + spec_tally_lines("Security:"@, spec_tally(security_names(kept)));
            let details = if detailed && kept.len() > 0 {
                seq![Seq::<char>::empty(), "=== Real Nodes ==="@] + spec_details(kept)
            } else {
                Seq::empty()
            };
            Some(head + used + total + counts + details)
        },
    }
}

proof fn lemma_real_len(nodes: Seq<ProxyNode>, placeholder: Seq<bool>)
    ensures
        spec_real(nodes, placeholder).len() <= nodes.len(),
    decreases nodes.len(),
{
    if nodes.len() > 0 {
        lemma_real_len(nodes.drop_last(), placeholder);
    }
}

fn append_lines(v: &mut Vec<String>, w: Vec<String>)
    ensures
        views(final(v)@) == views(old(v)@) + views(w@),
{
    let ghost before = views(v@);
    let mut j: usize = 0;
    while j < w.len()
        invariant
            j <= w@.len(),
            views(v@) == before + views(w@).take(j as int),
        decreases w@.len() - j,
    {
        let line = w[j].clone();
        push_line(v, line);
        j = j + 1;
        proof {
            assert(views(w@).take(j as int) =~= views(w@).take(j - 1).push(w@[j - 1]@));
            assert(before + views(w@).take(j as int) =~= (before + views(w@).take(j - 1)).push(w@[j - 1]@));
        }
    }
    proof {
        assert(views(w@).take(w@.len() as int) =~= views(w@));
    }
}

fn labelled(label: &str, text: &str) -> (s: String)
    ensures
        s@ == label@ + text@,
{
    let mut s = label.to_owned();
    s.append(text);
    s
}

/// The detailed lines of one real node.
pub fn node_detail(n: &ProxyNode) -> (v: Vec<String>)
    ensures
        views(v@) == spec_node_detail(*n),
{
    let mut v: Vec<String> = Vec::new();
    push_line(&mut v, String::new());
    push_line(&mut v, labelled("  Name:       ", n.name.as_str()));
    let mut server = labelled("  Server:     ", n.server.as_str());
    server.append(":");
    push_decimal(&mut server, n.port as u64);
    push_line(&mut v, server);
    push_line(&mut v, labelled("  Protocol:   ", n.protocol.debug_name()));
    push_line(&mut v, labelled("  Transport:  ", n.transport.debug_name()));
    push_line(&mut v, labelled("  Security:   ", n.security.debug_name()));
    proof {
        assert(views(v@) =~= seq![
            Seq::<char>::empty(),
            "  Name:       "@ + n.name@,
            "  Server:     "@ + n.server@ + ":"@ + dec_digits(n.port as nat),
            "  Protocol:   "@ + n.protocol.spec_debug_name(),
            "  Transport:  "@ + n.transport.spec_debug_name(),
            "  Security:   "@ + n.security.spec_debug_name(),
        ]);
    }
    match &n.sni {
        Some(x) => push_line(&mut v, labelled("  SNI:        ", x.as_str())),
        None => {},
    }
    match &n.fingerprint {
        Some(x) => push_line(&mut v, labelled("  FP:         ", x.as_str())),
        None => {},
    }
    match &n.flow {
        Some(x) => push_line(&mut v, labelled("  Flow:       ", x.as_str())),
        None => {},
    }
    v
}

/// The lines of a titled block of counts.
pub fn tally_lines(title: &str, t: &Vec<(String, usize)>) -> (v: Vec<String>)
    ensures
        views(v@) == spec_tally_lines(title@, tally_view(t@)),
{
    let mut v: Vec<String> = Vec::new();
    if t.len() == 0 {
        proof {
            assert(views(v@) =~= Seq::<Seq<char>>::empty());
        }
        return v;
    }
    push_line(&mut v, String::new());
    push_line(&mut v, title.to_owned());
    let ghost tv = tally_view(t@);
    let ghost rows = Seq::new(tv.len(), |i: int| "  "@ + spec_left(tv[i].0, 15) + " "@ + dec_digits(tv[i].1));
    proof {
        assert(views(v@) =~= seq![Seq::<char>::empty(), title@] + rows.take(0));
    }
    let n = t.len();
    let mut i: usize = 0;
    while i < n
        invariant
            n == t@.len(),
            tv == tally_view(t@),
            rows == Seq::new(tv.len(), |i: int| "  "@ + spec_left(tv[i].0, 15) + " "@ + dec_digits(tv[i].1)),
            i <= n,
            views(v@) == seq![Seq::<char>::empty(), title@] + rows.take(i as int),
        decreases n - i,
    {
        let mut line = "  ".to_owned();
        push_left(&mut line, t[i].0.as_str(), 15);
        line.append(" ");
        push_decimal(&mut line, t[i].1 as u64);
        proof {
            assert(tv[i as int] == (t@[i as int].0@, t@[i as int].1 as nat));
            assert(line@ == rows[i as int]);
        }
        push_line(&mut v, line);
        i = i + 1;
        proof {
            assert(rows.take(i as int) =~= rows.take(i - 1).push(rows[i - 1]));
            assert(seq![Seq::<char>::empty(), title@] + rows.take(i as int)
                =~= (seq![Seq::<char>::empty(), title@] + rows.take(i - 1)).push(rows[i - 1]));
        }
    }
    proof {
        assert(rows.take(n as int) =~= rows);
    }
    v
}

/// What the report needs of the real nodes: how many there are, their
/// protocol, transport and security names in order, and their detailed
/// lines.
pub struct RealNodes {
    pub count: usize,
    pub protocols: Vec<&'static str>,
    pub transports: Vec<&'static str>,
    pub securities: Vec<&'static str>,
    pub details: Vec<String>,
}

/// Gathers the real nodes, given for each node whether it is a placeholder.
pub fn real_nodes(nodes: &Vec<ProxyNode>, placeholder: &Vec<bool>) -> (r: RealNodes)
    requires
        placeholder@.len() == nodes@.len(),
    ensures
        r.count as nat == spec_real(nodes@, placeholder@).len(),
        r.count <= nodes@.len(),
        r.protocols@.map_values(|s: &str| s@) == protocol_names(spec_real(nodes@, placeholder@)),
        r.transports@.map_values(|s: &str| s@) == transport_names(spec_real(nodes@, placeholder@)),
        r.securities@.map_values(|s: &str| s@) == security_names(spec_real(nodes@, placeholder@)),
        views(r.details@) == spec_details(spec_real(nodes@, placeholder@)),
{
    let ghost all = nodes@;
    let n = nodes.len();
    let mut real_count: usize = 0;
    let mut protos: Vec<&str> = Vec::new();
    let mut trans: Vec<&str> = Vec::new();
    let mut secs: Vec<&str> = Vec::new();
    let mut details: Vec<String> = Vec::new();
    let mut i: usize = 0;
    proof {
        assert(all.take(0) =~= Seq::<ProxyNode>::empty());
        assert(protos@.map_values(|s: &str| s@) =~= protocol_names(Seq::<ProxyNode>::empty()));
        assert(trans@.map_values(|s: &str| s@) =~= transport_names(Seq::<ProxyNode>::empty()));
        assert(secs@.map_values(|s: &str| s@) =~= security_names(Seq::<ProxyNode>::empty()));
        assert(views(details@) =~= Seq::<Seq<char>>::empty());
    }
    while i < n
        invariant
            n == all.len(),
            all == nodes@,
            placeholder@.len() == n,
            i <= n,
            real_count as nat == spec_real(all.take(i as int), placeholder@).len(),
            real_count <= i,
            protos@.map_values(|s: &str| s@) == protocol_names(spec_real(all.take(i as int), placeholder@)),
            trans@.map_values(|s: &str| s@) == transport_names(spec_real(all.take(i as int), placeholder@)),
            secs@.map_values(|s: &str| s@) == security_names(spec_real(all.take(i as int), placeholder@)),
            views(details@) == spec_details(spec_real(all.take(i as int), placeholder@)),
        decreases n - i,
    {
        let ghost pre = spec_real(all.take(i as int), placeholder@);
        proof {
            assert(all.take(i + 1).drop_last() =~= all.take(i as int));
            assert(all.take(i + 1).last() == all[i as int]);
        }
        if !placeholder[i] {
            let node = &nodes[i];
            let ghost old_p = protos@;
            let ghost old_t = trans@;
            let ghost old_s = secs@;
            let pn = node.protocol.debug_name();
            let tn = node.transport.debug_name();
            let sn = node.security.debug_name();
            protos.push(pn);
            trans.push(tn);
            secs.push(sn);
            let d = node_detail(node);
            append_lines(&mut details, d);
            real_count = real_count + 1;
            proof {
                let post = pre.push(*node);
                assert(spec_real(all.take(i + 1), placeholder@) == post);
                assert(protos@ == old_p.push(pn));
                assert(old_p.push(pn).map_values(|s: &str| s@) =~= old_p.map_values(|s: &str| s@).push(pn@));
                assert(protocol_names(post) =~= protocol_names(pre).push(node.protocol.spec_debug_name()));
                assert(trans@ == old_t.push(tn));
                assert(old_t.push(tn).map_values(|s: &str| s@) =~= old_t.map_values(|s: &str| s@).push(tn@));
                assert(transport_names(post) =~= transport_names(pre).push(node.transport.spec_debug_name()));
                assert(secs@ == old_s.push(sn));
                assert(old_s.push(sn).map_values(|s: &str| s@) =~= old_s.map_values(|s: &str| s@).push(sn@));
                assert(security_names(post) =~= security_names(pre).push(node.security.spec_debug_name()));
                assert(protos@.map_values(|s: &str| s@) =~= protocol_names(post));
                assert(trans@.map_values(|s: &str| s@) =~= transport_names(post));
                assert(secs@.map_values(|s: &str| s@) =~= security_names(post));
                assert(post.drop_last() =~= pre);
            }
        } else {
            proof {
                assert(spec_real(all.take(i + 1), placeholder@) == pre);
            }
        }
        i = i + 1;
    }
    proof {
        assert(all.take(n as int) =~= all);
        lemma_real_len(all, placeholder@);
    }
    RealNodes { count: real_count, protocols: protos, transports: trans, securities: secs, details }
}

/// The analysis report of a fetched subscription, given for each of its
/// nodes whether it is a provider placeholder; `None` when the fetch time
/// lies outside the calendar.
pub fn analysis_lines(sub: &Subscription, placeholder: &Vec<bool>, detailed: bool) -> (r: Option<Vec<String>>)
    requires
        placeholder@.len() == sub.nodes@.len(),
    ensures
        match r {
            Some(v) => spec_analysis_lines(*sub, placeholder@, detailed) == Some(views(v@)),
            None => spec_analysis_lines(*sub, placeholder@, detailed) is None,
        },
{
    let fetched = match utc_format(sub.fetched_at, "%Y-%m-%d %H:%M:%S UTC") {
        Some(t) => t,
        None => return None,
    };
    let parts = real_nodes(&sub.nodes, placeholder);
    let n = sub.nodes.len();
    let real_count = parts.count;
    let protos = parts.protocols;
    let trans = parts.transports;
    let secs = parts.securities;
    let details = parts.details;
    let mut v: Vec<String> = Vec::new();
    push_line(&mut v, "=== Subscription Analysis ===".to_owned());
    push_line(&mut v, labelled("URL:         ", sub.url.as_str()));
    push_line(&mut v, labelled("Fetched at:  ", fetched.as_str()));
    push_line(&mut v, String::new());
    let mut counts = "Nodes:       ".to_owned();
    push_decimal(&mut counts, n as u64);
    counts.append(" total (");
    push_decimal(&mut counts, real_count as u64);
    counts.append(" real, ");
    push_decimal(&mut counts, (n - real_count) as u64);
    counts.append(" placeholder)");
    push_line(&mut v, counts);
    match sub.traffic_used {
        Some(u) => {
            let mut l = labelled("Traffic:     ", byte_size_text(u, true).as_str());
            l.append(" used");
            push_line(&mut v, l);
        },
        None => {},
    }
    match sub.traffic_total {
        Some(t) => push_line(&mut v, labelled("  Total:     ", byte_size_text(t, true).as_str())),
        None => {},
    }
    let tp = tally(&protos);
    append_lines(&mut v, tally_lines("Protocols:", &tp));
    let tt = tally(&trans);
    append_lines(&mut v, tally_lines("Transports:", &tt));
    let ts = tally(&secs);
    append_lines(&mut v, tally_lines("Security:", &ts));
    if detailed && real_count > 0 {
        push_line(&mut v, String::new());
        push_line(&mut v, "=== Real Nodes ===".to_owned());
        append_lines(&mut v, details);
    }
    proof {
        assert(views(v@) =~= spec_analysis_lines(*sub, placeholder@, detailed).unwrap());
    }
    Some(v)
}

/// A tally as a JSON object: each name with its count.
pub open spec fn spec_count_map(t: Seq<(Seq<char>, nat)>) -> Map<Seq<char>, JsonV>
    decreases t.len(),
{
    if t.len() == 0 {
        Map::empty()
    } else {
        spec_count_map(t.drop_last()).insert(t.last().0, JsonV::Num(t.last().1))
    }
}

/// A count when known, else `null`.
pub open spec fn spec_opt_num(n: Option<u64>) -> JsonV {
    match n {
        Some(v) => JsonV::Num(v as nat),
        None => JsonV::Null,
    }
}

/// The analysis report as JSON: the node counts, the real nodes counted by
/// protocol, transport and security, the traffic (`null` when unknown) and
/// the fetch time in RFC 3339; `None` when the fetch time lies outside the
/// calendar.
pub open spec fn spec_analysis_json(sub: Subscription, placeholder: Seq<bool>) -> Option<JsonV> {
    match spec_utc_rfc3339(sub.fetched_at) {
        None => None,
        Some(fetched) => {
            let nodes = sub.nodes@;
            let kept = spec_real(nodes, placeholder);
            Some(JsonV::Obj(Map::empty()
                .insert("total_nodes"@, JsonV::Num(nodes.len()))
                .insert("real_nodes"@, JsonV::Num(kept.len()))
                .insert("placeholder_nodes"@, JsonV::Num((nodes.len() - kept.len()) as nat))
                .insert("protocols"@, JsonV::Obj(spec_count_map(spec_tally(protocol_names(kept)))))
                .insert("transports"@, JsonV::Obj(spec_count_map(spec_tally(transport_names(kept)))))
                .insert("securities"@, JsonV::Obj(spec_count_map(spec_tally(security_names(kept)))))
                .insert("traffic_used"@, spec_opt_num(sub.traffic_used))
                .insert("traffic_total"@, spec_opt_num(sub.traffic_total))
                .insert("fetched_at"@, JsonV::Str(fetched))))
        },
    }
}

/// A tally as a JSON object.
pub fn count_object(t: &Vec<(String, usize)>) -> (j: Json)
    ensures
        j.view() == JsonV::Obj(spec_count_map(tally_view(t@))),
{
    let mut b = ObjBuilder::new();
    let n = t.len();
    let mut i: usize = 0;
    while i < n
        invariant
            n == t@.len(),
            i <= n,
            b.view() == spec_count_map(tally_view(t@).take(i as int)),
        decreases n - i,
    {
        b.insert_num(t[i].0.as_str(), t[i].1 as u64);
        i = i + 1;
        proof {
            let tv = tally_view(t@).take(i as int);
            assert(tv.drop_last() =~= tally_view(t@).take(i - 1));
            assert(tv.last() == (t@[i - 1].0@, t@[i - 1].1 as nat));
        }
    }
    proof {
        assert(tally_view(t@).take(n as int) =~= tally_view(t@));
    }
    b.build()
}

fn opt_num(n: Option<u64>) -> (j: Json)
    ensures
        j.view() == spec_opt_num(n),
{
    match n {
        Some(v) => Json::Num(v),
        None => Json::Null,
    }
}

/// The analysis report of a fetched subscription as JSON, given for each of
/// its nodes whether it is a provider placeholder; `None` when the fetch
/// time lies outside the calendar.
pub fn analysis_json(sub: &Subscription, placeholder: &Vec<bool>) -> (r: Option<Json>)
    requires
        placeholder@.len() == sub.nodes@.len(),
    ensures
        match r {
            Some(j) => spec_analysis_json(*sub, placeholder@) == Some(j.view()),
            None => spec_analysis_json(*sub, placeholder@) is None,
        },
{
    let fetched = match utc_rfc3339(sub.fetched_at) {
        Some(t) => t,
        None => return None,
    };
    let parts = real_nodes(&sub.nodes, placeholder);
    let n = sub.nodes.len();
    let mut b = ObjBuilder::new();
    b.insert_num("total_nodes", n as u64);
    b.insert_num("real_nodes", parts.count as u64);
    b.insert_num("placeholder_nodes", (n - parts.count) as u64);
    let tp = tally(&parts.protocols);
    b.insert("protocols", count_object(&tp));
    let tt = tally(&parts.transports);
    b.insert("transports", count_object(&tt));
    let ts = tally(&parts.securities);
    b.insert("securities", count_object(&ts));
    b.insert("traffic_used", opt_num(sub.traffic_used));
    b.insert("traffic_total", opt_num(sub.traffic_total));
    b.insert_str("fetched_at", fetched.as_str());
    let j = b.build();
    proof {
        assert(j.view() == spec_analysis_json(*sub, placeholder@).unwrap());
    }
    Some(j)
}

} // verus!

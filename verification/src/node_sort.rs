//! Ordering a node list by a field (`--sort name|server|port|protocol`):
//! a stable sort, so nodes that compare equal keep their order.

use vstd::prelude::*;
use crate::models::ProxyNode;
use crate::text::str_eq;

verus! {

/// Lexicographic order on text, character by character (the order of
/// `String`'s `Ord`, since UTF-8 preserves the order of code points).
pub open spec fn lex_le(a: Seq<char>, b: Seq<char>) -> bool
    decreases a.len(),
{
    if a.len() == 0 {
        true
    } else if b.len() == 0 {
        false
    } else if a[0] != b[0] {
        a[0] < b[0]
    } else {
        lex_le(a.drop_first(), b.drop_first())
    }
}

pub proof fn lemma_lex_total(a: Seq<char>, b: Seq<char>)
    ensures
        lex_le(a, b) || lex_le(b, a),
    decreases a.len(),
{
    if a.len() > 0 && b.len() > 0 && a[0] == b[0] {
        lemma_lex_total(a.drop_first(), b.drop_first());
    }
}

pub proof fn lemma_lex_trans(a: Seq<char>, b: Seq<char>, c: Seq<char>)
    requires
        lex_le(a, b),
        lex_le(b, c),
    ensures
        lex_le(a, c),
    decreases a.len(),
{
    if a.len() > 0 && b.len() > 0 && c.len() > 0 && a[0] == b[0] && b[0] == c[0] {
        lemma_lex_trans(a.drop_first(), b.drop_first(), c.drop_first());
    }
}

pub proof fn lemma_lex_antisym(a: Seq<char>, b: Seq<char>)
    requires
        lex_le(a, b),
        lex_le(b, a),
    ensures
        a == b,
    decreases a.len(),
{
    if a.len() > 0 && b.len() > 0 {
        lemma_lex_antisym(a.drop_first(), b.drop_first());
        assert(a =~= seq![a[0]] + a.drop_first());
        assert(b =~= seq![b[0]] + b.drop_first());
    } else {
        assert(a.len() == 0 && b.len() == 0);
        assert(a =~= b);
    }
}

/// Whether `a` comes no later than `b` in lexicographic order.
pub fn str_lex_le(a: &str, b: &str) -> (r: bool)
    ensures
        r == lex_le(a@, b@),
{
    let n = a.unicode_len();
    let m = b.unicode_len();
    let mut i: usize = 0;
    proof {
        assert(a@.subrange(0, n as int) =~= a@);
        assert(b@.subrange(0, m as int) =~= b@);
    }
    while i < n && i < m
        invariant
            n == a@.len(),
            m == b@.len(),
            i <= n,
            i <= m,
            lex_le(a@.subrange(i as int, n as int), b@.subrange(i as int, m as int)) == lex_le(a@, b@),
        decreases n - i,
    {
        let x = a.get_char(i);
        let y = b.get_char(i);
        proof {
            assert(a@.subrange(i as int, n as int)[0] == x);
            assert(b@.subrange(i as int, m as int)[0] == y);
        }
        if x != y {
            return x < y;
        }
        proof {
            assert(a@.subrange(i as int, n as int).drop_first() =~= a@.subrange(i + 1, n as int));
            assert(b@.subrange(i as int, m as int).drop_first() =~= b@.subrange(i + 1, m as int));
        }
        i = i + 1;
    }
    i == n
}

/// The field a node list is sorted by; any other key leaves it unsorted.
#[derive(Debug, Clone, Copy, PartialEq, Eq, Structural)]
pub enum SortKey {
    Name,
    Server,
    Port,
    Protocol,
    Unsorted,
}

pub open spec fn spec_sort_key(s: Seq<char>) -> SortKey {
    if s == "name"@ {
        SortKey::Name
    } else if s == "server"@ {
        SortKey::Server
    } else if s == "port"@ {
        SortKey::Port
    } else if s == "protocol"@ {
        SortKey::Protocol
    } else {
        SortKey::Unsorted
    }
}

/// The sort key a `--sort` value names.
pub fn sort_key(s: &str) -> (k: SortKey)
    ensures
        k == spec_sort_key(s@),
{
    if str_eq(s, "name") {
        SortKey::Name
    } else if str_eq(s, "server") {
        SortKey::Server
    } else if str_eq(s, "port") {
        SortKey::Port
    } else if str_eq(s, "protocol") {
        SortKey::Protocol
    } else {
        SortKey::Unsorted
    }
}

/// Whether node `a` may come before node `b` under `key`: by name, by
/// server, by port, or by the protocol's name; unsorted lists compare every
/// pair as equal.
pub open spec fn node_le(key: SortKey, a: ProxyNode, b: ProxyNode) -> bool {
    match key {
        SortKey::Name => lex_le(a.name@, b.name@),
        SortKey::Server => lex_le(a.server@, b.server@),
        SortKey::Port => a.port <= b.port,
        SortKey::Protocol => lex_le(a.protocol.spec_debug_name(), b.protocol.spec_debug_name()),
        SortKey::Unsorted => true,
    }
}

/// Nodes that compare equal under `key`.
pub open spec fn node_eq(key: SortKey, a: ProxyNode, b: ProxyNode) -> bool {
    node_le(key, a, b) && node_le(key, b, a)
}

pub proof fn lemma_node_le_total(key: SortKey, a: ProxyNode, b: ProxyNode)
    ensures
        node_le(key, a, b) || node_le(key, b, a),
{
    lemma_lex_total(a.name@, b.name@);
    lemma_lex_total(a.server@, b.server@);
    lemma_lex_total(a.protocol.spec_debug_name(), b.protocol.spec_debug_name());
}

pub proof fn lemma_node_le_trans(key: SortKey, a: ProxyNode, b: ProxyNode, c: ProxyNode)
    requires
        node_le(key, a, b),
        node_le(key, b, c),
    ensures
        node_le(key, a, c),
{
    match key {
        SortKey::Name => lemma_lex_trans(a.name@, b.name@, c.name@),
        SortKey::Server => lemma_lex_trans(a.server@, b.server@, c.server@),
        SortKey::Protocol => lemma_lex_trans(a.protocol.spec_debug_name(), b.protocol.spec_debug_name(), c.protocol.spec_debug_name()),
        _ => {},
    }
}

/// Whether a node list is in order under `key`.
pub open spec fn sorted_by(key: SortKey, s: Seq<ProxyNode>) -> bool {
    forall|i: int, j: int| 0 <= i < j < s.len() ==> node_le(key, #[trigger] s[i], #[trigger] s[j])
}

/// The nodes of `s` that compare equal to `x`, in their order in `s`.
pub open spec fn class_of(key: SortKey, s: Seq<ProxyNode>, x: ProxyNode) -> Seq<ProxyNode> {
    s.filter(|y: ProxyNode| node_eq(key, y, x))
}

fn node_le_exec(key: SortKey, a: &ProxyNode, b: &ProxyNode) -> (r: bool)
    ensures
        r == node_le(key, *a, *b),
{
    match key {
        SortKey::Name => str_lex_le(a.name.as_str(), b.name.as_str()),
        SortKey::Server => str_lex_le(a.server.as_str(), b.server.as_str()),
        SortKey::Port => a.port <= b.port,
        SortKey::Protocol => str_lex_le(a.protocol.debug_name(), b.protocol.debug_name()),
        SortKey::Unsorted => true,
    }
}

pub proof fn lemma_filter_concat(a: Seq<ProxyNode>, b: Seq<ProxyNode>, p: spec_fn(ProxyNode) -> bool)
    ensures
        (a + b).filter(p) == a.filter(p) + b.filter(p),
{
    Seq::filter_distributes_over_add(a, b, p);
}

/// After inserting `e` into a sorted list right after the nodes that are
/// not greater than it, the list is still sorted and each equality class
/// gains `e` at its end.
proof fn lemma_insert(key: SortKey, v: Seq<ProxyNode>, e: ProxyNode, j: int)
    requires
        sorted_by(key, v),
        0 <= j <= v.len(),
        forall|k: int| 0 <= k < j ==> node_le(key, #[trigger] v[k], e),
        forall|k: int| j <= k < v.len() ==> !node_le(key, #[trigger] v[k], e),
    ensures
        sorted_by(key, v.subrange(0, j) + seq![e] + v.subrange(j, v.len() as int)),
        forall|x: ProxyNode| #[trigger] class_of(key, v.subrange(0, j) + seq![e] + v.subrange(j, v.len() as int), x)
            == if node_eq(key, e, x) { class_of(key, v, x).push(e) } else { class_of(key, v, x) },
{
    let w = v.subrange(0, j) + seq![e] + v.subrange(j, v.len() as int);
    assert forall|a: int, b: int| 0 <= a < b < w.len() implies node_le(key, #[trigger] w[a], #[trigger] w[b]) by {
        if a < j && b < j {
            assert(w[a] == v[a] && w[b] == v[b]);
        } else if a < j && b == j {
            assert(w[a] == v[a]);
        } else if a < j {
            assert(w[a] == v[a] && w[b] == v[b - 1]);
        } else if a == j {
            assert(w[b] == v[b - 1]);
            lemma_node_le_total(key, v[b - 1], e);
        } else {
            assert(w[a] == v[a - 1] && w[b] == v[b - 1]);
        }
    }
    assert forall|x: ProxyNode| #[trigger] class_of(key, w, x)
        == if node_eq(key, e, x) { class_of(key, v, x).push(e) } else { class_of(key, v, x) } by {
        let p = |y: ProxyNode| node_eq(key, y, x);
        let lo = v.subrange(0, j);
        let hi = v.subrange(j, v.len() as int);
        lemma_filter_concat(lo + seq![e], hi, p);
        lemma_filter_concat(lo, seq![e], p);
        lemma_filter_concat(lo, hi, p);
        assert(lo + hi =~= v);
        reveal_with_fuel(Seq::filter, 2);
        assert(seq![e].drop_last() =~= Seq::<ProxyNode>::empty());
        if node_eq(key, e, x) {
            assert(hi.filter(p) =~= Seq::<ProxyNode>::empty()) by {
                assert forall|k: int| 0 <= k < hi.len() implies !p(#[trigger] hi[k]) by {
                    assert(hi[k] == v[k + j]);
                    if node_eq(key, hi[k], x) {
                        lemma_node_le_trans(key, hi[k], x, e);
                    }
                }
                lemma_filter_none(hi, p);
            }
            assert(class_of(key, w, x) =~= class_of(key, v, x).push(e));
        } else {
            assert(seq![e].filter(p) =~= Seq::<ProxyNode>::empty());
            assert(class_of(key, w, x) =~= class_of(key, v, x));
        }
    }
}

/// Filtering by a predicate that holds of no element leaves nothing.
proof fn lemma_filter_none(s: Seq<ProxyNode>, p: spec_fn(ProxyNode) -> bool)
    requires
        forall|k: int| 0 <= k < s.len() ==> !p(#[trigger] s[k]),
    ensures
        s.filter(p) == Seq::<ProxyNode>::empty(),
    decreases s.len(),
{
    reveal_with_fuel(Seq::filter, 1);
    if s.len() > 0 {
        lemma_filter_none(s.drop_last(), p);
        assert(!p(s.last()));
    }
    assert(s.filter(p) =~= Seq::<ProxyNode>::empty());
}

/// Sorts nodes by `key`, keeping the order of nodes that compare equal (as
/// a stable sort does): the result is in order, and for every node the
/// nodes equal to it appear in the same order as before.
pub fn sort_nodes(nodes: Vec<ProxyNode>, key: SortKey) -> (out: Vec<ProxyNode>)
    ensures
        out@.len() == nodes@.len(),
        sorted_by(key, out@),
        forall|x: ProxyNode| #[trigger] class_of(key, out@, x) == class_of(key, nodes@, x),
{
    let ghost orig = nodes@;
    let mut rest = nodes;
    let mut v: Vec<ProxyNode> = Vec::new();
    let n = rest.len();
    let mut i: usize = 0;
    proof {
        assert forall|x: ProxyNode| #[trigger] class_of(key, v@, x) == class_of(key, orig.take(0), x) by {
            reveal_with_fuel(Seq::filter, 1);
            assert(orig.take(0) =~= Seq::<ProxyNode>::empty());
            assert(v@ =~= Seq::<ProxyNode>::empty());
        }
        assert(rest@ =~= orig.subrange(0, n as int));
    }
    while i < n
        invariant
            n == orig.len(),
            i <= n,
            rest@ == orig.subrange(i as int, n as int),
            v@.len() == i,
            sorted_by(key, v@),
            forall|x: ProxyNode| #[trigger] class_of(key, v@, x) == class_of(key, orig.take(i as int), x),
        decreases n - i,
    {
        let e = rest.remove(0);
        proof {
            assert(e == orig[i as int]);
            assert(rest@ =~= orig.subrange(i + 1, n as int));
        }
        let mut j: usize = v.len();
        while j > 0 && !node_le_exec(key, &v[j - 1], &e)
            invariant
                j <= v@.len(),
                sorted_by(key, v@),
                forall|k: int| j <= k < v@.len() ==> !node_le(key, #[trigger] v@[k], e),
            decreases j,
        {
            j = j - 1;
        }
        proof {
            assert forall|k: int| 0 <= k < j implies node_le(key, #[trigger] v@[k], e) by {
                if k < j - 1 {
                    lemma_node_le_trans(key, v@[k], v@[j - 1], e);
                }
            }
            lemma_insert(key, v@, e, j as int);
        }
        let ghost old_v = v@;
        v.insert(j, e);
        proof {
            assert(v@ =~= old_v.subrange(0, j as int) + seq![e] + old_v.subrange(j as int, old_v.len() as int));
            assert forall|x: ProxyNode| #[trigger] class_of(key, v@, x) == class_of(key, orig.take(i + 1), x) by {
                assert(orig.take(i + 1) =~= orig.take(i as int).push(e));
                reveal_with_fuel(Seq::filter, 1);
                assert(orig.take(i as int).push(e).drop_last() =~= orig.take(i as int));
            }
        }
        i = i + 1;
    }
    proof {
        assert(orig.take(n as int) =~= orig);
    }
    v
}

} // verus!
